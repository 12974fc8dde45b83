use vstd::prelude::*;

verus! {

/// Failure taxonomy of the request-facing operations.
///
/// `Validation` covers malformed identifiers and unparseable parameters,
/// `NotFound` an unknown record or missing bytes, and `Internal` a failure of
/// the record store itself.  Every failure is terminal for the one request it
/// occurred in; nothing is retried.
#[derive(Clone, Copy, Debug, PartialEq, Eq, Structural)]
pub enum ApiError {
    Validation,
    NotFound,
    Internal,
}

impl ApiError {
    /// The HTTP status code under which the error is surfaced.
    pub fn status_code(&self) -> (r: u16)
        ensures
            *self == ApiError::Validation ==> r == 400,
            *self == ApiError::NotFound ==> r == 404,
            *self == ApiError::Internal ==> r == 500,
    {
        match self {
            ApiError::Validation => 400,
            ApiError::NotFound => 404,
            ApiError::Internal => 500,
        }
    }
}

/// Failure of one step of a scheduled compression task.  Any of them is
/// terminal for the job: the task reports `Failed` and performs no retry.
#[derive(Clone, Copy, Debug, PartialEq, Eq, Structural)]
pub enum TaskError {
    /// The source bytes could not be read from the blob store.
    ReadFailed,
    /// The compression engine reported a failure.
    CompressFailed,
    /// The compressed bytes could not be written to the blob store.
    WriteFailed,
}

} // verus!
