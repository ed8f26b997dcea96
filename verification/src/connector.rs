//! The connector: the root object of the native library, and the operations
//! that go through it.

use vstd::prelude::*;
use vstd::std_specs::cmp::PartialEqSpec;
use vstd::utf8::*;

use crate::call::NativeCall;
use crate::call::NativeCallView;
use crate::entity::Entity;
use crate::error::outcome_view;
use crate::error::Error;
use crate::error::ErrorView;
use crate::handle::NativeHandle;
use crate::reader::Reader;
use crate::text::has_nul;
use crate::text::is_first_nul;
use crate::text::native_text;
use crate::text::NativeString;
use crate::writer::Writer;
use crate::ConnextLibrary;
use crate::Entity as EntityType;
use crate::Operation;

verus! {

/// A live native connector. It owns the native context: the context is
/// released by [`Connector::destroy`], which takes the connector by value, so
/// that it is released once and nothing can reach it afterwards.
#[derive(Debug)]
pub struct Connector<'lib> {
    library: &'lib ConnextLibrary,
    handle: NativeHandle,
    config_name: NativeString,
    name: String,
}

impl<'lib> Connector<'lib> {
    #[verifier::type_invariant]
    spec fn well_formed(&self) -> bool {
        &&& self.config_name@ == NativeString::encoding(self.name@)
        &&& self.handle@ != 0
    }

    /// The handle that the native library gave for this connector.
    pub closed spec fn spec_handle(&self) -> NativeHandle {
        self.handle
    }

    /// The name of the configuration that the connector was made from.
    pub closed spec fn spec_name(&self) -> Seq<char> {
        self.name@
    }

    /// The table of entry points that the connector is bound to.
    pub closed spec fn spec_library(&self) -> &'lib ConnextLibrary {
        self.library
    }

    /// The native call that creates a connector: the configuration's name,
    /// the place of the configuration file, and 0 for the reserved third
    /// argument. Fails, before any call, exactly when one of the two texts
    /// holds a NUL; the name is looked at first.
    pub fn new_call(config_name: &str, config_file: &str) -> (call: Result<NativeCall, Error>)
        ensures
            match call {
                Ok(call) => {
                    &&& !has_nul(encode_utf8(config_name@))
                    &&& !has_nul(encode_utf8(config_file@))
                    &&& call@ == (NativeCallView::ConnectorNew {
                        config_name: NativeString::encoding(config_name@),
                        config_file: NativeString::encoding(config_file@),
                        reserved: 0,
                    })
                },
                Err(Error::Encoding { position }) => is_first_nul(
                    encode_utf8(
                        if has_nul(encode_utf8(config_name@)) {
                            config_name@
                        } else {
                            config_file@
                        },
                    ),
                    position as int,
                ),
                Err(_) => false,
            },
    {
        let name = match NativeString::new(config_name) {
            Ok(name) => name,
            Err(error) => {
                return Err(error);
            },
        };
        let file = match NativeString::new(config_file) {
            Ok(file) => file,
            Err(error) => {
                return Err(error);
            },
        };
        Ok(NativeCall::ConnectorNew { config_name: name, config_file: file, reserved: 0 })
    }

    /// Makes the connector from what the native create returned. A handle
    /// other than null gives the connector; the null handle gives a creation
    /// error with the configuration's name. There is no third outcome for
    /// texts that encode; texts that do not are refused as in
    /// [`Connector::new_call`], whatever the handle.
    pub fn new(
        library: &'lib ConnextLibrary,
        config_name: &str,
        config_file: &str,
        handle: NativeHandle,
    ) -> (connector: Result<Connector<'lib>, Error>)
        ensures
            match connector {
                Ok(connector) => {
                    &&& !has_nul(encode_utf8(config_name@))
                    &&& !has_nul(encode_utf8(config_file@))
                    &&& handle@ != 0
                    &&& connector.spec_handle() == handle
                    &&& connector.spec_name() == config_name@
                    &&& connector.spec_library() == library
                },
                Err(error) => if has_nul(encode_utf8(config_name@)) {
                    error matches Error::Encoding { position } && is_first_nul(
                        encode_utf8(config_name@),
                        position as int,
                    )
                } else if has_nul(encode_utf8(config_file@)) {
                    error matches Error::Encoding { position } && is_first_nul(
                        encode_utf8(config_file@),
                        position as int,
                    )
                } else {
                    &&& handle@ == 0
                    &&& error@ == (ErrorView::Creation {
                        entity: EntityType::Participant,
                        name: config_name@,
                    })
                },
            },
    {
        let encoded = match NativeString::new(config_name) {
            Ok(encoded) => encoded,
            Err(error) => {
                return Err(error);
            },
        };
        match NativeString::new(config_file) {
            Ok(_) => {},
            Err(error) => {
                return Err(error);
            },
        }
        if handle.is_null() {
            return Err(
                Error::Creation { entity: EntityType::Participant, name: config_name.to_owned() },
            );
        }
        Ok(Connector { library, handle, config_name: encoded, name: config_name.to_owned() })
    }

    /// The handle that the native library gave for this connector.
    pub fn handle(&self) -> (handle: NativeHandle)
        ensures
            handle == self.spec_handle(),
            handle@ != 0,
    {
        proof {
            use_type_invariant(self);
        }
        self.handle
    }

    /// The table of entry points that the connector is bound to.
    pub fn library(&self) -> (library: &'lib ConnextLibrary)
        ensures
            library == self.spec_library(),
    {
        self.library
    }

    /// The name of the configuration that the connector was made from.
    pub fn config_name_str(&self) -> (name: &str)
        ensures
            name@ == self.spec_name(),
    {
        self.name.as_str()
    }

    /// The native call that resets the writer's staged instance to its
    /// defaults. The native side reports nothing back.
    pub fn clear(&self, writer: &Writer) -> (call: NativeCall)
        ensures
            call@ == (NativeCallView::WriterClear {
                connector: self.spec_handle(),
                entity_name: NativeString::encoding(writer.spec_name()),
            }),
    {
        NativeCall::WriterClear { connector: self.handle, entity_name: writer.entity_name() }
    }

    /// The native call that publishes the writer's staged instance, with no
    /// parameters. The native side reports nothing back.
    pub fn write(&self, writer: &Writer) -> (call: NativeCall)
        ensures
            call@ == (NativeCallView::WriterWrite {
                connector: self.spec_handle(),
                entity_name: NativeString::encoding(writer.spec_name()),
                params: None,
            }),
    {
        NativeCall::WriterWrite {
            connector: self.handle,
            entity_name: writer.entity_name(),
            params: None,
        }
    }

    /// The native call that moves the received samples into the reader's
    /// buffer.
    pub fn take_call(&self, reader: &Reader) -> (call: NativeCall)
        ensures
            call@ == (NativeCallView::Take {
                connector: self.spec_handle(),
                entity_name: NativeString::encoding(reader.spec_name()),
            }),
    {
        NativeCall::Take { connector: self.handle, entity_name: reader.entity_name() }
    }

    /// The native call that copies the received samples into the reader's
    /// buffer.
    pub fn read_call(&self, reader: &Reader) -> (call: NativeCall)
        ensures
            call@ == (NativeCallView::Read {
                connector: self.spec_handle(),
                entity_name: NativeString::encoding(reader.spec_name()),
            }),
    {
        NativeCall::Read { connector: self.handle, entity_name: reader.entity_name() }
    }

    /// The outcome of a `take`, from the code that the native call returned:
    /// success for 0, "no data" for the code of that name, and an error with
    /// the code for everything else.
    pub fn take(&self, reader: &Reader, code: i32) -> (outcome: Result<(), Error>)
        ensures
            outcome_view(outcome) == Operation::Take.spec_outcome(reader.spec_name(), code),
    {
        self.next(reader, Operation::Take, code)
    }

    /// The outcome of a `read`, from the code that the native call returned:
    /// success for 0, "no data" for the code of that name, and an error with
    /// the code for everything else.
    pub fn read(&self, reader: &Reader, code: i32) -> (outcome: Result<(), Error>)
        ensures
            outcome_view(outcome) == Operation::Read.spec_outcome(reader.spec_name(), code),
    {
        self.next(reader, Operation::Read, code)
    }

    /// The outcome of an operation on a reader, from the code that the
    /// native call returned.
    pub fn next(&self, reader: &Reader, operation: Operation, code: i32) -> (outcome: Result<
        (),
        Error,
    >)
        ensures
            outcome_view(outcome) == operation.spec_outcome(reader.spec_name(), code),
    {
        operation.outcome(reader.entity_name_str(), code)
    }

    /// The native call that asks how many samples the reader's buffer holds.
    /// Nothing is kept between calls: each question goes to the native side.
    pub fn get_samples_length(&self, reader: &Reader) -> (call: NativeCall)
        ensures
            call@ == (NativeCallView::GetSamplesLength {
                connector: self.spec_handle(),
                entity_name: NativeString::encoding(reader.spec_name()),
            }),
    {
        NativeCall::GetSamplesLength { connector: self.handle, entity_name: reader.entity_name() }
    }

    /// The native call that asks for one sample of the reader's buffer as
    /// JSON. Samples are counted from 1: an index below 1 is a range error,
    /// and then there is no call to make.
    pub fn get_json_sample_call(&self, reader: &Reader, index: i32) -> (call: Result<
        NativeCall,
        Error,
    >)
        ensures
            match call {
                Ok(call) => {
                    &&& index >= 1
                    &&& call@ == (NativeCallView::GetJsonSample {
                        connector: self.spec_handle(),
                        entity_name: NativeString::encoding(reader.spec_name()),
                        index,
                    })
                },
                Err(error) => index < 1 && error == (Error::Range { index }),
            },
    {
        if index < 1 {
            return Err(Error::Range { index });
        }
        Ok(
            NativeCall::GetJsonSample {
                connector: self.handle,
                entity_name: reader.entity_name(),
                index,
            },
        )
    }

    /// Takes a sample over from the native side: `string` is the native
    /// string that the call returned, `bytes` what it holds before its final
    /// NUL. Gives the sample as an owned text, which shares nothing with the
    /// native string, and the call that gives the native string back, to be
    /// made at once. Bytes that are no UTF-8 are replaced, never refused. An
    /// index below 1 is a range error, as in
    /// [`Connector::get_json_sample_call`].
    pub fn get_json_sample(
        &self,
        reader: &Reader,
        index: i32,
        string: NativeHandle,
        bytes: &[u8],
    ) -> (sample: Result<(String, NativeCall), Error>)
        ensures
            match sample {
                Ok((text, release)) => {
                    &&& index >= 1
                    &&& text@ == native_text(bytes@)
                    &&& release@ == (NativeCallView::FreeString { string })
                },
                Err(error) => index < 1 && error == (Error::Range { index }),
            },
    {
        if index < 1 {
            return Err(Error::Range { index });
        }
        Ok((NativeString::decode(bytes), self.free_string(string)))
    }

    /// The native call that stages the writer's next instance from JSON.
    /// Fails, before any call, exactly when the text holds a NUL. The call
    /// owns its texts, so they live as long as the call is being made.
    pub fn set_json_instance(&self, writer: &Writer, json: &str) -> (call: Result<
        NativeCall,
        Error,
    >)
        ensures
            match call {
                Ok(call) => {
                    &&& !has_nul(encode_utf8(json@))
                    &&& call@ == (NativeCallView::SetJsonInstance {
                        connector: self.spec_handle(),
                        entity_name: NativeString::encoding(writer.spec_name()),
                        json: NativeString::encoding(json@),
                    })
                },
                Err(Error::Encoding { position }) => is_first_nul(
                    encode_utf8(json@),
                    position as int,
                ),
                Err(_) => false,
            },
    {
        match NativeString::new(json) {
            Ok(json) => Ok(
                NativeCall::SetJsonInstance {
                    connector: self.handle,
                    entity_name: writer.entity_name(),
                    json,
                },
            ),
            Err(error) => Err(error),
        }
    }

    /// The native call that gives a native string back.
    pub fn free_string(&self, string: NativeHandle) -> (call: NativeCall)
        ensures
            call@ == (NativeCallView::FreeString { string }),
    {
        NativeCall::FreeString { string }
    }

    /// Two connectors are the same exactly when the native library gave the
    /// same handle for both.
    pub proof fn lemma_eq_iff_same_handle(
        a: Connector<'lib>,
        b: Connector<'lib>,
        h1: NativeHandle,
        h2: NativeHandle,
    )
        requires
            a.spec_handle() == h1,
            b.spec_handle() == h2,
        ensures
            a.eq_spec(&b) <==> h1@ == h2@,
    {
        NativeHandle::lemma_eq_by_value(h1, h2);
    }

    /// Ends the connector's life: the native call that releases its context.
    /// The connector is taken by value, so there is no second release and no
    /// use after it; readers and writers borrow the connector and so are gone
    /// before it.
    pub fn destroy(self) -> (call: NativeCall)
        ensures
            call@ == (NativeCallView::ConnectorDelete { connector: self.spec_handle() }),
    {
        NativeCall::ConnectorDelete { connector: self.handle }
    }
}

impl<'lib> Entity for Connector<'lib> {
    open spec fn spec_entity_name(&self) -> Seq<char> {
        self.spec_name()
    }

    open spec fn spec_entity_type() -> EntityType {
        EntityType::Participant
    }

    fn entity_name(&self) -> (name: NativeString) {
        proof {
            use_type_invariant(self);
        }
        self.config_name.clone()
    }

    fn entity_type() -> (kind: EntityType) {
        EntityType::Participant
    }
}

impl<'lib> PartialEq for Connector<'lib> {
    /// Two connectors are the same exactly when their handles are.
    fn eq(&self, other: &Self) -> (equal: bool) {
        self.handle == other.handle
    }
}

impl<'lib> Eq for Connector<'lib> {

}

impl<'lib> vstd::std_specs::cmp::PartialEqSpecImpl for Connector<'lib> {
    open spec fn obeys_eq_spec() -> bool {
        true
    }

    open spec fn eq_spec(&self, other: &Self) -> bool {
        self.spec_handle() == other.spec_handle()
    }
}

} // verus!
