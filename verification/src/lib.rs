//! A sans-I/O binding core for a native publish/subscribe connector.
//!
//! The native middleware is reached through a C ABI of thirteen entry points.
//! This crate holds everything about that binding that is a decision rather
//! than a call: which entry points make up the table, what is handed to each
//! of them, and how what they hand back is classified. Each operation comes
//! as a function that marshals a [`call::NativeCall`] and, where the native
//! side answers, a function that takes the answer and yields the outcome.
//! Performing the call is left to the embedding code.

use vstd::prelude::*;

use crate::call::EntryPoint;
use crate::call::ENTRY_POINTS;
use crate::error::outcome_view;
use crate::error::Error;
use crate::error::ErrorView;
use crate::reader::ReturnCode;
use crate::text::decimal;

pub mod call;
pub mod connector;
pub mod entity;
pub mod error;
pub mod handle;
pub mod reader;
pub mod text;
pub mod writer;

verus! {

/// The kind of a native entity.
#[derive(Debug, Clone, Copy, PartialEq, Eq, Structural)]
pub enum Entity {
    Participant,
    Reader,
    Writer,
}

/// An operation whose native return code is classified.
#[derive(Debug, Clone, Copy, PartialEq, Eq, Structural)]
pub enum Operation {
    Take,
    Read,
    Wait,
}

impl Entity {
    /// The name of this kind.
    pub open spec fn spec_name(self) -> Seq<char> {
        match self {
            Entity::Participant => "Participant"@,
            Entity::Reader => "Reader"@,
            Entity::Writer => "Writer"@,
        }
    }

    /// What an entity of this kind is called in a sentence.
    pub open spec fn spec_noun(self) -> Seq<char> {
        match self {
            Entity::Participant => "connector"@,
            Entity::Reader => "reader"@,
            Entity::Writer => "writer"@,
        }
    }

    /// The name of this kind.
    pub fn name(&self) -> (name: &'static str)
        ensures
            name@ == self.spec_name(),
    {
        match self {
            Entity::Participant => "Participant",
            Entity::Reader => "Reader",
            Entity::Writer => "Writer",
        }
    }

    /// What an entity of this kind is called in a sentence.
    pub fn noun(&self) -> (noun: &'static str)
        ensures
            noun@ == self.spec_noun(),
    {
        match self {
            Entity::Participant => "connector",
            Entity::Reader => "reader",
            Entity::Writer => "writer",
        }
    }
}

impl Operation {
    /// The name of this operation.
    pub open spec fn spec_name(self) -> Seq<char> {
        match self {
            Operation::Take => "Take"@,
            Operation::Read => "Read"@,
            Operation::Wait => "Wait"@,
        }
    }

    /// The function that performs this operation.
    pub open spec fn spec_path(self) -> Seq<char> {
        match self {
            Operation::Take => "Connector::take"@,
            Operation::Read => "Connector::read"@,
            Operation::Wait => "Reader::wait"@,
        }
    }

    /// The name of this operation.
    pub fn name(&self) -> (name: &'static str)
        ensures
            name@ == self.spec_name(),
    {
        match self {
            Operation::Take => "Take",
            Operation::Read => "Read",
            Operation::Wait => "Wait",
        }
    }

    /// The function that performs this operation.
    pub fn path(&self) -> (path: &'static str)
        ensures
            path@ == self.spec_path(),
    {
        match self {
            Operation::Take => "Connector::take",
            Operation::Read => "Connector::read",
            Operation::Wait => "Reader::wait",
        }
    }

    /// How the return code of this operation on the named reader is
    /// classified. Only 0 is success. "No data" is an outcome of its own for
    /// `take` and `read`, "timeout" for `wait`; every other code of the
    /// protocol is a dispatch error, and a number outside the protocol is
    /// reported as such. Both carry the operation, the reader's name and
    /// what the native library reported.
    pub open spec fn spec_outcome(self, entity_name: Seq<char>, code: i32) -> Result<
        (),
        ErrorView,
    > {
        match ReturnCode::spec_from_code(code as int) {
            None => Err(
                ErrorView::UnrecognizedCode { operation: self, name: entity_name, number: code },
            ),
            Some(ReturnCode::Okay) => Ok(()),
            Some(known) => if known == ReturnCode::NoData && self != Operation::Wait {
                Err(ErrorView::NoData { entity: Entity::Reader, operation: self })
            } else if known == ReturnCode::Timeout && self == Operation::Wait {
                Err(ErrorView::Timeout { entity: Entity::Reader, name: entity_name })
            } else {
                Err(ErrorView::Dispatch { operation: self, name: entity_name, code: known })
            },
        }
    }

    /// Classifies the return code of this operation on the named reader.
    pub fn outcome(self, entity_name: &str, code: i32) -> (outcome: Result<(), Error>)
        ensures
            outcome_view(outcome) == self.spec_outcome(entity_name@, code),
    {
        match ReturnCode::from_i32(code) {
            None => Err(
                Error::UnrecognizedCode {
                    operation: self,
                    name: entity_name.to_owned(),
                    number: code,
                },
            ),
            Some(ReturnCode::Okay) => Ok(()),
            Some(ReturnCode::NoData) => match self {
                Operation::Wait => Err(
                    Error::Dispatch {
                        operation: self,
                        name: entity_name.to_owned(),
                        code: ReturnCode::NoData,
                    },
                ),
                _ => Err(Error::NoData { entity: Entity::Reader, operation: self }),
            },
            Some(ReturnCode::Timeout) => match self {
                Operation::Wait => Err(
                    Error::Timeout { entity: Entity::Reader, name: entity_name.to_owned() },
                ),
                _ => Err(
                    Error::Dispatch {
                        operation: self,
                        name: entity_name.to_owned(),
                        code: ReturnCode::Timeout,
                    },
                ),
            },
            Some(known) => Err(
                Error::Dispatch { operation: self, name: entity_name.to_owned(), code: known },
            ),
        }
    }

    /// A number outside the protocol is never taken for success: whatever the
    /// operation, it is reported as an unrecognized code, with the number and
    /// the reader's name.
    pub proof fn lemma_unrecognized_never_ok(self, entity_name: Seq<char>, code: i32)
        requires
            !(0 <= code <= 13),
        ensures
            self.spec_outcome(entity_name, code) == Err::<(), ErrorView>(
                ErrorView::UnrecognizedCode { operation: self, name: entity_name, number: code },
            ),
    {
    }

    /// A `wait` that neither succeeds nor times out fails with an error that
    /// holds the reader's name and the number that the native library
    /// reported. Its text begins with the name and ends in the number, which
    /// is marked with `ReturnCode::` where the protocol does not define it.
    pub proof fn lemma_wait_failure_names_reader(entity_name: Seq<char>, code: i32)
        requires
            code != 0,
            code != 10,
        ensures
            match Operation::Wait.spec_outcome(entity_name, code) {
                Ok(_) => false,
                Err(error) => {
                    &&& error.message() == if 0 <= code <= 13 {
                        entity_name + " wait returned "@ + decimal(code as int)
                    } else {
                        entity_name + " wait returned ReturnCode::"@ + decimal(code as int)
                    }
                    &&& entity_name.is_prefix_of(error.message())
                    &&& match error {
                        ErrorView::Dispatch { operation, name, code: known } => {
                            &&& 0 <= code <= 13
                            &&& operation == Operation::Wait
                            &&& name == entity_name
                            &&& known.spec_code() == code
                        },
                        ErrorView::UnrecognizedCode { operation, name, number } => {
                            &&& !(0 <= code <= 13)
                            &&& operation == Operation::Wait
                            &&& name == entity_name
                            &&& number == code
                        },
                        _ => false,
                    }
                },
            },
    {
        let tail = decimal(code as int);
        assert((entity_name + " wait returned "@ + tail).subrange(0, entity_name.len() as int)
            =~= entity_name);
        assert((entity_name + " wait returned ReturnCode::"@ + tail).subrange(
            0,
            entity_name.len() as int,
        ) =~= entity_name);
    }

    /// A `take` or a `read` that fails with anything but "no data" is told
    /// as the function that failed and the number that the native library
    /// reported, whether the protocol defines the number or not.
    pub proof fn lemma_fetch_failure_text(self, entity_name: Seq<char>, code: i32)
        requires
            self != Operation::Wait,
            code != 0,
            code != 11,
        ensures
            match self.spec_outcome(entity_name, code) {
                Ok(_) => false,
                Err(error) => error.message() == "Unexpected error occured in "@
                    + self.spec_path() + ":"@ + decimal(code as int),
            },
    {
    }

    /// Success is reported for the code 0 and for no other.
    pub proof fn lemma_ok_only_for_zero(self, entity_name: Seq<char>, code: i32)
        ensures
            self.spec_outcome(entity_name, code).is_ok() <==> code == 0,
    {
    }
}

/// The table of native entry points. A value of this type stands for a
/// library in which every entry point was found: there is no table with a
/// gap.
#[derive(Debug)]
pub struct ConnextLibrary {
    entry_points: Vec<EntryPoint>,
}

impl View for ConnextLibrary {
    type V = Seq<EntryPoint>;

    /// The entry points that the table holds, in its order.
    closed spec fn view(&self) -> Seq<EntryPoint> {
        self.entry_points@
    }
}

impl ConnextLibrary {
    #[verifier::type_invariant]
    spec fn complete(&self) -> bool {
        self.entry_points@ == EntryPoint::table()
    }

    /// Whether the lookup of the entry point at place `i` succeeded. A place
    /// past the end of `found` counts as not found.
    pub open spec fn is_found(found: Seq<bool>, i: int) -> bool {
        0 <= i < found.len() && found[i]
    }

    /// Whether the entry point at place `i` is the first that was not found.
    pub open spec fn is_first_missing(found: Seq<bool>, i: int) -> bool {
        &&& 0 <= i < ENTRY_POINTS
        &&& !Self::is_found(found, i)
        &&& forall|j: int| 0 <= j < i ==> Self::is_found(found, j)
    }

    /// Builds the table from the results of looking each entry point up,
    /// given in the order of [`EntryPoint::table`]. All or nothing: the table
    /// exists exactly when every entry point was found, and otherwise the
    /// error names the first that was not.
    pub fn new(found: &[bool]) -> (table: Result<ConnextLibrary, Error>)
        ensures
            match table {
                Ok(table) => {
                    &&& table@ == EntryPoint::table()
                    &&& forall|i: int| 0 <= i < ENTRY_POINTS ==> Self::is_found(found@, i)
                },
                Err(Error::Resolution { symbol }) => Self::is_first_missing(
                    found@,
                    symbol.spec_index(),
                ),
                Err(_) => false,
            },
    {
        let mut entry_points: Vec<EntryPoint> = Vec::new();
        let mut i: usize = 0;
        while i < ENTRY_POINTS
            invariant
                i <= ENTRY_POINTS,
                entry_points@ == EntryPoint::table().subrange(0, i as int),
                forall|j: int| 0 <= j < i ==> Self::is_found(found@, j),
            decreases ENTRY_POINTS - i,
        {
            match EntryPoint::at(i) {
                Some(entry) => {
                    proof {
                        EntryPoint::lemma_table_complete(entry);
                    }
                    if i >= found.len() || !found[i] {
                        return Err(Error::Resolution { symbol: entry });
                    }
                    entry_points.push(entry);
                    assert(entry_points@ =~= EntryPoint::table().subrange(0, i + 1));
                },
                None => {},
            }
            i += 1;
        }
        assert(entry_points@ =~= EntryPoint::table());
        Ok(ConnextLibrary { entry_points })
    }

    /// The entry points of the table, in its order.
    pub fn entry_points(&self) -> (entries: &[EntryPoint])
        ensures
            entries@ == self@,
            entries@ == EntryPoint::table(),
    {
        proof {
            use_type_invariant(self);
        }
        self.entry_points.as_slice()
    }
}

} // verus!
