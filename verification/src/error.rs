//! The errors of the library.

use vstd::prelude::*;

verus! {

/// `std::io::Error`, carried through without a look inside.
#[verifier::external_type_specification]
#[verifier::external_body]
pub struct ExIoError(std::io::Error);

/// What can go wrong in the protocol core.
#[derive(Debug)]
pub enum FluxyError {
    /// The system refused a lookup.
    Io(std::io::Error),
    /// A bounded wait ran out.
    TimeoutElapsed,
    /// Anything else, in words.
    Other(String),
}

pub type FluxyResult<T> = Result<T, FluxyError>;

/// What the system says of an I/O error.
///
/// Calls `to_string` of `std::io::Error`. The text is the system's, so
/// nothing is claimed of it.
#[verifier::external_body]
fn io_error_text(error: &std::io::Error) -> (text: String) {
    error.to_string()
}

impl FluxyError {
    /// The error in words, as the presentation layer shows it. The text
    /// of an `Io` error is the system's.
    pub fn message(&self) -> (text: String)
        ensures
            self is TimeoutElapsed ==> text@ == "deadline has elapsed"@,
            self matches FluxyError::Other(words) ==> text@ == words@,
    {
        match self {
            FluxyError::Io(error) => io_error_text(error),
            FluxyError::TimeoutElapsed => "deadline has elapsed".to_owned(),
            FluxyError::Other(words) => words.clone(),
        }
    }
}

impl From<String> for FluxyError {
    fn from(value: String) -> (error: Self) {
        FluxyError::Other(value)
    }
}

impl vstd::std_specs::convert::FromSpecImpl<String> for FluxyError {
    open spec fn obeys_from_spec() -> bool {
        true
    }

    open spec fn from_spec(value: String) -> Self {
        FluxyError::Other(value)
    }
}

} // verus!
