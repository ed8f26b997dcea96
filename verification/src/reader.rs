//! Readers, and the return codes of the native protocol.

use std::time::Duration;
use vstd::prelude::*;
use vstd::std_specs::cmp::PartialEqSpec;
use vstd::utf8::*;

use crate::call::NativeCall;
use crate::call::NativeCallView;
use crate::connector::Connector;
use crate::entity::Entity;
use crate::error::outcome_view;
use crate::error::Error;
use crate::error::ErrorView;
use crate::handle::NativeHandle;
use crate::text::has_nul;
use crate::text::is_first_nul;
use crate::text::NativeString;
use crate::Entity as EntityType;
use crate::Operation;

verus! {

/// The codes that the native entry points report.
#[derive(Debug, Clone, Copy, PartialEq, Eq, Structural)]
pub enum ReturnCode {
    Okay,
    Error,
    Unsupported,
    BadParameter,
    PreconditionNotMet,
    OutOfResources,
    NotEnabled,
    ImmutablePolicy,
    InconsistencyPolicy,
    AlreadyDeleted,
    Timeout,
    NoData,
    IllegalOperation,
    NotAllowedBySecurity,
}

impl ReturnCode {
    /// The number that stands for this code in the native protocol.
    pub open spec fn spec_code(self) -> int {
        match self {
            ReturnCode::Okay => 0,
            ReturnCode::Error => 1,
            ReturnCode::Unsupported => 2,
            ReturnCode::BadParameter => 3,
            ReturnCode::PreconditionNotMet => 4,
            ReturnCode::OutOfResources => 5,
            ReturnCode::NotEnabled => 6,
            ReturnCode::ImmutablePolicy => 7,
            ReturnCode::InconsistencyPolicy => 8,
            ReturnCode::AlreadyDeleted => 9,
            ReturnCode::Timeout => 10,
            ReturnCode::NoData => 11,
            ReturnCode::IllegalOperation => 12,
            ReturnCode::NotAllowedBySecurity => 13,
        }
    }

    /// The code that a number stands for, if the protocol defines it.
    pub open spec fn spec_from_code(n: int) -> Option<ReturnCode> {
        if n == 0 {
            Some(ReturnCode::Okay)
        } else if n == 1 {
            Some(ReturnCode::Error)
        } else if n == 2 {
            Some(ReturnCode::Unsupported)
        } else if n == 3 {
            Some(ReturnCode::BadParameter)
        } else if n == 4 {
            Some(ReturnCode::PreconditionNotMet)
        } else if n == 5 {
            Some(ReturnCode::OutOfResources)
        } else if n == 6 {
            Some(ReturnCode::NotEnabled)
        } else if n == 7 {
            Some(ReturnCode::ImmutablePolicy)
        } else if n == 8 {
            Some(ReturnCode::InconsistencyPolicy)
        } else if n == 9 {
            Some(ReturnCode::AlreadyDeleted)
        } else if n == 10 {
            Some(ReturnCode::Timeout)
        } else if n == 11 {
            Some(ReturnCode::NoData)
        } else if n == 12 {
            Some(ReturnCode::IllegalOperation)
        } else if n == 13 {
            Some(ReturnCode::NotAllowedBySecurity)
        } else {
            None
        }
    }

    /// The name of this code, as it is shown to a reader.
    pub open spec fn spec_name(self) -> Seq<char> {
        match self {
            ReturnCode::Okay => "Ok"@,
            ReturnCode::Error => "Error"@,
            ReturnCode::Unsupported => "Unsupported"@,
            ReturnCode::BadParameter => "BadParameter"@,
            ReturnCode::PreconditionNotMet => "PreconditionNotMet"@,
            ReturnCode::OutOfResources => "OutOfResources"@,
            ReturnCode::NotEnabled => "NotEnabled"@,
            ReturnCode::ImmutablePolicy => "ImmutablePolicy"@,
            ReturnCode::InconsistencyPolicy => "InconsistencyPolicy"@,
            ReturnCode::AlreadyDeleted => "AlreadyDeleted"@,
            ReturnCode::Timeout => "Timeout"@,
            ReturnCode::NoData => "NoData"@,
            ReturnCode::IllegalOperation => "IllegalOperation"@,
            ReturnCode::NotAllowedBySecurity => "NotAllowedBySecurity"@,
        }
    }

    /// Reads a native return value. `None` for a number that the protocol
    /// does not define.
    pub fn from_i32(n: i32) -> (code: Option<ReturnCode>)
        ensures
            code == Self::spec_from_code(n as int),
    {
        match n {
            0 => Some(ReturnCode::Okay),
            1 => Some(ReturnCode::Error),
            2 => Some(ReturnCode::Unsupported),
            3 => Some(ReturnCode::BadParameter),
            4 => Some(ReturnCode::PreconditionNotMet),
            5 => Some(ReturnCode::OutOfResources),
            6 => Some(ReturnCode::NotEnabled),
            7 => Some(ReturnCode::ImmutablePolicy),
            8 => Some(ReturnCode::InconsistencyPolicy),
            9 => Some(ReturnCode::AlreadyDeleted),
            10 => Some(ReturnCode::Timeout),
            11 => Some(ReturnCode::NoData),
            12 => Some(ReturnCode::IllegalOperation),
            13 => Some(ReturnCode::NotAllowedBySecurity),
            _ => None,
        }
    }

    /// The number that stands for this code in the native protocol.
    pub fn to_i32(&self) -> (n: i32)
        ensures
            n == self.spec_code(),
    {
        match self {
            ReturnCode::Okay => 0,
            ReturnCode::Error => 1,
            ReturnCode::Unsupported => 2,
            ReturnCode::BadParameter => 3,
            ReturnCode::PreconditionNotMet => 4,
            ReturnCode::OutOfResources => 5,
            ReturnCode::NotEnabled => 6,
            ReturnCode::ImmutablePolicy => 7,
            ReturnCode::InconsistencyPolicy => 8,
            ReturnCode::AlreadyDeleted => 9,
            ReturnCode::Timeout => 10,
            ReturnCode::NoData => 11,
            ReturnCode::IllegalOperation => 12,
            ReturnCode::NotAllowedBySecurity => 13,
        }
    }

    /// The name of this code, as it is shown to a reader.
    pub fn name(&self) -> (name: &'static str)
        ensures
            name@ == self.spec_name(),
    {
        match self {
            ReturnCode::Okay => "Ok",
            ReturnCode::Error => "Error",
            ReturnCode::Unsupported => "Unsupported",
            ReturnCode::BadParameter => "BadParameter",
            ReturnCode::PreconditionNotMet => "PreconditionNotMet",
            ReturnCode::OutOfResources => "OutOfResources",
            ReturnCode::NotEnabled => "NotEnabled",
            ReturnCode::ImmutablePolicy => "ImmutablePolicy",
            ReturnCode::InconsistencyPolicy => "InconsistencyPolicy",
            ReturnCode::AlreadyDeleted => "AlreadyDeleted",
            ReturnCode::Timeout => "Timeout",
            ReturnCode::NoData => "NoData",
            ReturnCode::IllegalOperation => "IllegalOperation",
            ReturnCode::NotAllowedBySecurity => "NotAllowedBySecurity",
        }
    }

    /// The name of this code as an owned text.
    pub fn to_string(&self) -> (text: String)
        ensures
            text@ == self.spec_name(),
    {
        self.name().to_owned()
    }

    /// The protocol defines exactly the numbers from 0 to 13.
    pub proof fn lemma_defined_range(n: int)
        ensures
            Self::spec_from_code(n).is_some() <==> 0 <= n <= 13,
    {
    }

    /// Reading the number of a code gives that code back.
    pub proof fn lemma_code_round_trip(code: ReturnCode)
        ensures
            Self::spec_from_code(code.spec_code()) == Some(code),
            0 <= code.spec_code() <= 13,
    {
    }

    /// A number that reads as a code is the number of that code.
    pub proof fn lemma_from_code_exact(n: int, code: ReturnCode)
        requires
            Self::spec_from_code(n) == Some(code),
        ensures
            code.spec_code() == n,
    {
    }
}

/// The whole milliseconds that a duration holds.
pub uninterp spec fn duration_millis(duration: Duration) -> u128;

/// `Duration::as_millis`: the total number of whole milliseconds that the
/// duration holds, which depends on the duration alone.
pub assume_specification[ Duration::as_millis ](duration: &Duration) -> (millis: u128)
    ensures
        millis == duration_millis(*duration),
;

/// The native timeout for a wait of so many milliseconds: -1, the native
/// "without limit", where there is none; the number itself where it fits in
/// 32 bits with a sign; and the largest such number where it does not.
pub open spec fn native_timeout(millis: Option<u128>) -> i32 {
    match millis {
        None => -1i32,
        Some(millis) => if millis <= i32::MAX as u128 {
            millis as i32
        } else {
            i32::MAX
        },
    }
}

/// A reader of a connector, found by its name. It borrows the connector, so
/// it cannot be used once the connector is gone, and it has nothing of its
/// own to release.
#[derive(Debug)]
pub struct Reader<'a> {
    connector: &'a Connector<'a>,
    entity_name: NativeString,
    name: String,
    handle: NativeHandle,
}

impl<'a> Reader<'a> {
    #[verifier::type_invariant]
    spec fn well_formed(&self) -> bool {
        &&& self.entity_name@ == NativeString::encoding(self.name@)
        &&& self.handle@ != 0
    }

    /// The handle that the native library gave for this reader.
    pub closed spec fn spec_handle(&self) -> NativeHandle {
        self.handle
    }

    /// The name that the reader was looked up by.
    pub closed spec fn spec_name(&self) -> Seq<char> {
        self.name@
    }

    /// The connector that the reader belongs to.
    pub closed spec fn spec_connector(&self) -> &'a Connector<'a> {
        self.connector
    }

    /// The native call that looks a reader up: the connector's handle and
    /// the name. Fails, before any call, exactly when the name holds a NUL.
    pub fn new_call(connector: &Connector, entity_name: &str) -> (call: Result<
        NativeCall,
        Error,
    >)
        ensures
            match call {
                Ok(call) => {
                    &&& !has_nul(encode_utf8(entity_name@))
                    &&& call@ == (NativeCallView::ReaderNew {
                        connector: connector.spec_handle(),
                        entity_name: NativeString::encoding(entity_name@),
                    })
                },
                Err(Error::Encoding { position }) => is_first_nul(
                    encode_utf8(entity_name@),
                    position as int,
                ),
                Err(_) => false,
            },
    {
        match NativeString::new(entity_name) {
            Ok(name) => Ok(
                NativeCall::ReaderNew { connector: connector.handle(), entity_name: name },
            ),
            Err(error) => Err(error),
        }
    }

    /// Makes the reader from what the native lookup returned. A handle other
    /// than null gives the reader; the null handle gives a creation error
    /// with the name. A name that holds a NUL is refused as in
    /// [`Reader::new_call`], whatever the handle.
    pub fn new(connector: &'a Connector<'a>, entity_name: &str, handle: NativeHandle) -> (reader:
        Result<Reader<'a>, Error>)
        ensures
            match reader {
                Ok(reader) => {
                    &&& !has_nul(encode_utf8(entity_name@))
                    &&& handle@ != 0
                    &&& reader.spec_handle() == handle
                    &&& reader.spec_name() == entity_name@
                    &&& reader.spec_connector() == connector
                },
                Err(error) => if has_nul(encode_utf8(entity_name@)) {
                    error matches Error::Encoding { position } && is_first_nul(
                        encode_utf8(entity_name@),
                        position as int,
                    )
                } else {
                    &&& handle@ == 0
                    &&& error@ == (ErrorView::Creation {
                        entity: EntityType::Reader,
                        name: entity_name@,
                    })
                },
            },
    {
        let encoded = match NativeString::new(entity_name) {
            Ok(encoded) => encoded,
            Err(error) => {
                return Err(error);
            },
        };
        if handle.is_null() {
            return Err(
                Error::Creation { entity: EntityType::Reader, name: entity_name.to_owned() },
            );
        }
        Ok(Reader { connector, entity_name: encoded, name: entity_name.to_owned(), handle })
    }

    /// The handle that the native library gave for this reader.
    pub fn handle(&self) -> (handle: NativeHandle)
        ensures
            handle == self.spec_handle(),
            handle@ != 0,
    {
        proof {
            use_type_invariant(self);
        }
        self.handle
    }

    /// The connector that the reader belongs to.
    pub fn connector(&self) -> (connector: &'a Connector<'a>)
        ensures
            connector == self.spec_connector(),
    {
        self.connector
    }

    /// The name that the reader was looked up by.
    pub fn entity_name_str(&self) -> (name: &str)
        ensures
            name@ == self.spec_name(),
    {
        self.name.as_str()
    }

    /// The native timeout for a wait of so many milliseconds. Too long a
    /// wait is cut down to the longest that the native side can take; it
    /// never wraps round to a short or a negative one.
    pub fn saturate_millis(millis: Option<u128>) -> (timeout: i32)
        ensures
            timeout == native_timeout(millis),
            millis is None ==> timeout == -1,
            millis matches Some(m) ==> 0 <= timeout && (if m <= 0x7fff_ffff {
                timeout == m
            } else {
                timeout == 0x7fff_ffff
            }),
    {
        match millis {
            None => -1,
            Some(millis) => if millis <= i32::MAX as u128 {
                millis as i32
            } else {
                i32::MAX
            },
        }
    }

    /// The native timeout for a wait of at most `timeout`, or without limit.
    pub fn timeout_millis(timeout: Option<Duration>) -> (millis: i32)
        ensures
            millis == native_timeout(
                match timeout {
                    Some(duration) => Some(duration_millis(duration)),
                    None => None,
                },
            ),
    {
        match timeout {
            Some(duration) => Self::saturate_millis(Some(duration.as_millis())),
            None => Self::saturate_millis(None),
        }
    }

    /// The native call that waits for data on this reader, for at most
    /// `timeout` or without limit. It goes by the reader's own handle.
    pub fn wait_call(&self, timeout: Option<Duration>) -> (call: NativeCall)
        ensures
            call@ == (NativeCallView::ReaderWait {
                reader: self.spec_handle(),
                timeout_millis: native_timeout(
                    match timeout {
                        Some(duration) => Some(duration_millis(duration)),
                        None => None,
                    },
                ),
            }),
    {
        NativeCall::ReaderWait {
            reader: self.handle,
            timeout_millis: Self::timeout_millis(timeout),
        }
    }

    /// The outcome of a wait, from the code that the native call returned:
    /// success for 0, a timeout that names this reader for the timeout code,
    /// and an error with the code for everything else.
    pub fn wait(&self, code: i32) -> (outcome: Result<(), Error>)
        ensures
            outcome_view(outcome) == Operation::Wait.spec_outcome(self.spec_name(), code),
    {
        Operation::Wait.outcome(self.name.as_str(), code)
    }

    /// Two readers made from what the native lookup returned are the same
    /// exactly when it returned the same handle both times, whatever their
    /// names.
    pub proof fn lemma_eq_iff_same_handle(
        a: Reader<'a>,
        b: Reader<'a>,
        h1: NativeHandle,
        h2: NativeHandle,
    )
        requires
            a.spec_handle() == h1,
            b.spec_handle() == h2,
        ensures
            a.eq_spec(&b) <==> h1@ == h2@,
    {
        NativeHandle::lemma_eq_by_value(h1, h2);
    }
}

impl<'a> Entity for Reader<'a> {
    open spec fn spec_entity_name(&self) -> Seq<char> {
        self.spec_name()
    }

    open spec fn spec_entity_type() -> EntityType {
        EntityType::Reader
    }

    fn entity_name(&self) -> (name: NativeString) {
        proof {
            use_type_invariant(self);
        }
        self.entity_name.clone()
    }

    fn entity_type() -> (kind: EntityType) {
        EntityType::Reader
    }
}

impl<'a> PartialEq for Reader<'a> {
    /// Two readers are the same exactly when their handles are.
    fn eq(&self, other: &Self) -> (equal: bool) {
        self.handle == other.handle
    }
}

impl<'a> Eq for Reader<'a> {

}

impl<'a> vstd::std_specs::cmp::PartialEqSpecImpl for Reader<'a> {
    open spec fn obeys_eq_spec() -> bool {
        true
    }

    open spec fn eq_spec(&self, other: &Self) -> bool {
        self.spec_handle() == other.spec_handle()
    }
}

} // verus!
