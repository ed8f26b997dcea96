//! What can go wrong at the native boundary, and the two outcomes that are
//! reported like errors without being failures.

use vstd::prelude::*;
use vstd::string::*;

use crate::call::EntryPoint;
use crate::reader::ReturnCode;
use crate::text::decimal;
use crate::text::decimal_text;
use crate::Entity;
use crate::Operation;

verus! {

/// The outcome of an operation that did not succeed.
#[derive(Debug, PartialEq, Eq)]
pub enum Error {
    /// A text holds a NUL byte at `position` (and none before it), so it is
    /// not a null-terminated byte string. Found before any native call.
    Encoding { position: usize },
    /// The loaded library lacks a required entry point.
    Resolution { symbol: EntryPoint },
    /// The native library answered a create or lookup with the null handle.
    Creation { entity: Entity, name: String },
    /// `take` or `read` found nothing to hand over. Callers that poll expect
    /// this.
    NoData { entity: Entity, operation: Operation },
    /// `wait` ran out of time on the named entity. Callers usually retry.
    Timeout { entity: Entity, name: String },
    /// The native library reported a code of its protocol other than the
    /// ones above, for the operation on the named entity.
    Dispatch { operation: Operation, name: String, code: ReturnCode },
    /// The native library reported a number that its protocol does not
    /// define, for the operation on the named entity.
    UnrecognizedCode { operation: Operation, name: String, number: i32 },
    /// A sample index below 1. Found before any native call.
    Range { index: i32 },
}

/// An [`Error`] with its texts as sequences of characters.
pub enum ErrorView {
    Encoding { position: usize },
    Resolution { symbol: EntryPoint },
    Creation { entity: Entity, name: Seq<char> },
    NoData { entity: Entity, operation: Operation },
    Timeout { entity: Entity, name: Seq<char> },
    Dispatch { operation: Operation, name: Seq<char>, code: ReturnCode },
    UnrecognizedCode { operation: Operation, name: Seq<char>, number: i32 },
    Range { index: i32 },
}

impl View for Error {
    type V = ErrorView;

    open spec fn view(&self) -> ErrorView {
        match *self {
            Error::Encoding { position } => ErrorView::Encoding { position },
            Error::Resolution { symbol } => ErrorView::Resolution { symbol },
            Error::Creation { entity, name } => ErrorView::Creation { entity, name: name@ },
            Error::NoData { entity, operation } => ErrorView::NoData { entity, operation },
            Error::Timeout { entity, name } => ErrorView::Timeout { entity, name: name@ },
            Error::Dispatch { operation, name, code } => ErrorView::Dispatch {
                operation,
                name: name@,
                code,
            },
            Error::UnrecognizedCode { operation, name, number } => ErrorView::UnrecognizedCode {
                operation,
                name: name@,
                number,
            },
            Error::Range { index } => ErrorView::Range { index },
        }
    }
}

impl ErrorView {
    /// The error in words. A failed `wait` is told with the reader's name
    /// before it, a failed `take` or `read` with the function that failed;
    /// both end in the number that the native library reported, which for a
    /// `wait` is marked where the protocol does not define it.
    pub open spec fn message(self) -> Seq<char> {
        match self {
            ErrorView::Encoding { position } => {
                "nul byte found in provided data at position: "@ + decimal(position as int)
            },
            ErrorView::Resolution { symbol } => "Couldnt load symbol, "@ + symbol.spec_symbol(),
            ErrorView::Creation { entity, name } => {
                "Couldnt create "@ + entity.spec_noun() + ", "@ + name
            },
            ErrorView::NoData { entity, operation } => {
                operation.spec_name() + " called on "@ + entity.spec_name()
                    + " returned no data."@
            },
            ErrorView::Timeout { entity, name } => {
                entity.spec_name() + " wait timed out, "@ + name
            },
            ErrorView::Dispatch { operation, name, code } => {
                if operation == Operation::Wait {
                    name + " wait returned "@ + decimal(code.spec_code())
                } else {
                    "Unexpected error occured in "@ + operation.spec_path() + ":"@ + decimal(
                        code.spec_code(),
                    )
                }
            },
            ErrorView::UnrecognizedCode { operation, name, number } => {
                if operation == Operation::Wait {
                    name + " wait returned ReturnCode::"@ + decimal(number as int)
                } else {
                    "Unexpected error occured in "@ + operation.spec_path() + ":"@ + decimal(
                        number as int,
                    )
                }
            },
            ErrorView::Range { index } => "Connext sample index start at 1, "@,
        }
    }
}

impl Error {
    /// The error in words.
    pub fn message(&self) -> (text: String)
        ensures
            text@ == self@.message(),
    {
        match self {
            Error::Encoding { position } => {
                "nul byte found in provided data at position: ".to_owned().concat(
                    decimal_text(*position as i128).as_str(),
                )
            },
            Error::Resolution { symbol } => {
                "Couldnt load symbol, ".to_owned().concat(symbol.symbol())
            },
            Error::Creation { entity, name } => {
                "Couldnt create ".to_owned().concat(entity.noun()).concat(", ").concat(
                    name.as_str(),
                )
            },
            Error::NoData { entity, operation } => {
                operation.name().to_owned().concat(" called on ").concat(entity.name()).concat(
                    " returned no data.",
                )
            },
            Error::Timeout { entity, name } => {
                entity.name().to_owned().concat(" wait timed out, ").concat(name.as_str())
            },
            Error::Dispatch { operation, name, code } => match operation {
                Operation::Wait => {
                    name.clone().concat(" wait returned ").concat(
                        decimal_text(code.to_i32() as i128).as_str(),
                    )
                },
                _ => {
                    "Unexpected error occured in ".to_owned().concat(operation.path()).concat(
                        ":",
                    ).concat(decimal_text(code.to_i32() as i128).as_str())
                },
            },
            Error::UnrecognizedCode { operation, name, number } => match operation {
                Operation::Wait => {
                    name.clone().concat(" wait returned ReturnCode::").concat(
                        decimal_text(*number as i128).as_str(),
                    )
                },
                _ => {
                    "Unexpected error occured in ".to_owned().concat(operation.path()).concat(
                        ":",
                    ).concat(decimal_text(*number as i128).as_str())
                },
            },
            Error::Range { .. } => "Connext sample index start at 1, ".to_owned(),
        }
    }

    /// Whether this is one of the two outcomes that a caller polls for and
    /// retries on, rather than a failure.
    pub open spec fn spec_is_expected(&self) -> bool {
        self is NoData || self is Timeout
    }

    /// Whether this is one of the two outcomes that a caller polls for and
    /// retries on, rather than a failure.
    pub fn is_expected(&self) -> (expected: bool)
        ensures
            expected == self.spec_is_expected(),
    {
        match self {
            Error::NoData { .. } => true,
            Error::Timeout { .. } => true,
            _ => false,
        }
    }

    /// Whether the error was found without calling the native library.
    pub open spec fn spec_is_local(&self) -> bool {
        self is Encoding || self is Range
    }

    /// Whether the error was found without calling the native library.
    pub fn is_local(&self) -> (local: bool)
        ensures
            local == self.spec_is_local(),
    {
        match self {
            Error::Encoding { .. } => true,
            Error::Range { .. } => true,
            _ => false,
        }
    }
}

/// The outcome of an operation that hands nothing back, with its texts as
/// sequences of characters.
pub open spec fn outcome_view(outcome: Result<(), Error>) -> Result<(), ErrorView> {
    match outcome {
        Ok(()) => Ok(()),
        Err(error) => Err(error@),
    }
}

} // verus!
