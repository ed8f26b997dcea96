//! Writers.

use vstd::prelude::*;
use vstd::std_specs::cmp::PartialEqSpec;
use vstd::utf8::*;

use crate::call::NativeCall;
use crate::call::NativeCallView;
use crate::connector::Connector;
use crate::entity::Entity;
use crate::error::Error;
use crate::error::ErrorView;
use crate::handle::NativeHandle;
use crate::text::has_nul;
use crate::text::is_first_nul;
use crate::text::NativeString;
use crate::Entity as EntityType;

verus! {

/// A writer of a connector, found by its name. It borrows the connector, so
/// it cannot be used once the connector is gone, and it has nothing of its
/// own to release.
#[derive(Debug)]
pub struct Writer<'a> {
    connector: &'a Connector<'a>,
    entity_name: NativeString,
    name: String,
    handle: NativeHandle,
}

impl<'a> Writer<'a> {
    #[verifier::type_invariant]
    spec fn well_formed(&self) -> bool {
        &&& self.entity_name@ == NativeString::encoding(self.name@)
        &&& self.handle@ != 0
    }

    /// The handle that the native library gave for this writer.
    pub closed spec fn spec_handle(&self) -> NativeHandle {
        self.handle
    }

    /// The name that the writer was looked up by.
    pub closed spec fn spec_name(&self) -> Seq<char> {
        self.name@
    }

    /// The connector that the writer belongs to.
    pub closed spec fn spec_connector(&self) -> &'a Connector<'a> {
        self.connector
    }

    /// The native call that looks a writer up: the connector's handle and
    /// the name. Fails, before any call, exactly when the name holds a NUL.
    pub fn new_call(connector: &Connector, entity_name: &str) -> (call: Result<
        NativeCall,
        Error,
    >)
        ensures
            match call {
                Ok(call) => {
                    &&& !has_nul(encode_utf8(entity_name@))
                    &&& call@ == (NativeCallView::WriterNew {
                        connector: connector.spec_handle(),
                        entity_name: NativeString::encoding(entity_name@),
                    })
                },
                Err(Error::Encoding { position }) => is_first_nul(
                    encode_utf8(entity_name@),
                    position as int,
                ),
                Err(_) => false,
            },
    {
        match NativeString::new(entity_name) {
            Ok(name) => Ok(
                NativeCall::WriterNew { connector: connector.handle(), entity_name: name },
            ),
            Err(error) => Err(error),
        }
    }

    /// Makes the writer from what the native lookup returned. A handle other
    /// than null gives the writer; the null handle gives a creation error
    /// with the name. A name that holds a NUL is refused as in
    /// [`Writer::new_call`], whatever the handle.
    pub fn new(connector: &'a Connector<'a>, entity_name: &str, handle: NativeHandle) -> (writer:
        Result<Writer<'a>, Error>)
        ensures
            match writer {
                Ok(writer) => {
                    &&& !has_nul(encode_utf8(entity_name@))
                    &&& handle@ != 0
                    &&& writer.spec_handle() == handle
                    &&& writer.spec_name() == entity_name@
                    &&& writer.spec_connector() == connector
                },
                Err(error) => if has_nul(encode_utf8(entity_name@)) {
                    error matches Error::Encoding { position } && is_first_nul(
                        encode_utf8(entity_name@),
                        position as int,
                    )
                } else {
                    &&& handle@ == 0
                    &&& error@ == (ErrorView::Creation {
                        entity: EntityType::Writer,
                        name: entity_name@,
                    })
                },
            },
    {
        let encoded = match NativeString::new(entity_name) {
            Ok(encoded) => encoded,
            Err(error) => {
                return Err(error);
            },
        };
        if handle.is_null() {
            return Err(
                Error::Creation { entity: EntityType::Writer, name: entity_name.to_owned() },
            );
        }
        Ok(Writer { connector, entity_name: encoded, name: entity_name.to_owned(), handle })
    }

    /// The handle that the native library gave for this writer.
    pub fn handle(&self) -> (handle: NativeHandle)
        ensures
            handle == self.spec_handle(),
            handle@ != 0,
    {
        proof {
            use_type_invariant(self);
        }
        self.handle
    }

    /// The connector that the writer belongs to.
    pub fn connector(&self) -> (connector: &'a Connector<'a>)
        ensures
            connector == self.spec_connector(),
    {
        self.connector
    }

    /// The name that the writer was looked up by.
    pub fn entity_name_str(&self) -> (name: &str)
        ensures
            name@ == self.spec_name(),
    {
        self.name.as_str()
    }

    /// Two writers made from what the native lookup returned are the same
    /// exactly when it returned the same handle both times, whatever their
    /// names.
    pub proof fn lemma_eq_iff_same_handle(
        a: Writer<'a>,
        b: Writer<'a>,
        h1: NativeHandle,
        h2: NativeHandle,
    )
        requires
            a.spec_handle() == h1,
            b.spec_handle() == h2,
        ensures
            a.eq_spec(&b) <==> h1@ == h2@,
    {
        NativeHandle::lemma_eq_by_value(h1, h2);
    }
}

impl<'a> Entity for Writer<'a> {
    open spec fn spec_entity_name(&self) -> Seq<char> {
        self.spec_name()
    }

    open spec fn spec_entity_type() -> EntityType {
        EntityType::Writer
    }

    fn entity_name(&self) -> (name: NativeString) {
        proof {
            use_type_invariant(self);
        }
        self.entity_name.clone()
    }

    fn entity_type() -> (kind: EntityType) {
        EntityType::Writer
    }
}

impl<'a> PartialEq for Writer<'a> {
    /// Two writers are the same exactly when their handles are.
    fn eq(&self, other: &Self) -> (equal: bool) {
        self.handle == other.handle
    }
}

impl<'a> Eq for Writer<'a> {

}

impl<'a> vstd::std_specs::cmp::PartialEqSpecImpl for Writer<'a> {
    open spec fn obeys_eq_spec() -> bool {
        true
    }

    open spec fn eq_spec(&self, other: &Self) -> bool {
        self.spec_handle() == other.spec_handle()
    }
}

} // verus!
