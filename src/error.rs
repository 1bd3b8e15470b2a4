//! The library's error type.
use vstd::prelude::*;

verus! {

/// An error that can occur while harvesting.
#[derive(Clone, Debug, PartialEq, Eq)]
pub enum ToeError {
    /// An error when there is an IO exception.
    InvalidIo(String),
    /// An error when the heim library encounters a problem.
    InvalidHeim(String),
    /// An error when the Crossterm library encounters a problem.
    CrosstermError(String),
    /// An error to represent generic errors.
    GenericError(String),
    /// An error to represent errors with fern.
    FernError(String),
    /// An error to represent errors with the config.
    ConfigError(String),
    /// An error to represent errors with converting between data types.
    ConversionError(String),
    /// An error to represent errors with querying.
    QueryError(String),
    /// An error that just signifies something minor went wrong; no message.
    MinorError,
    /// An error to represent errors with procfs.
    ProcfsError(String),
}

/// A plain message is a generic error.
impl From<String> for ToeError {
    fn from(err: String) -> (r: ToeError)
        ensures
            r == ToeError::GenericError(err),
    {
        ToeError::GenericError(err)
    }
}

impl vstd::std_specs::convert::FromSpecImpl<String> for ToeError {
    open spec fn obeys_from_spec() -> bool {
        true
    }

    open spec fn from_spec(v: String) -> ToeError {
        ToeError::GenericError(v)
    }
}

pub type Result<T> = core::result::Result<T, ToeError>;

} // verus!
