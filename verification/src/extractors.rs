//! Path parameters.
use vstd::prelude::*;
use vstd::string::*;
use crate::enums::AppResponse;

verus! {

/// The parameters that a request's path carries, read into `T`.
#[derive(Debug, PartialEq)]
pub struct ExtractPath<T>(pub T);

/// Why the parameters of a path could not be read.
#[derive(Debug, PartialEq)]
pub enum PathFailure {
    /// A parameter does not read as its type; the text says which and why.
    Deserialize(String),
    /// The route carries no parameters; the text says so.
    Missing(String),
    /// Anything else, in the words of the rejection.
    Other(String),
}

/// The detail that a path failure is logged with.
pub open spec fn path_failure_text(failure: PathFailure) -> Seq<char> {
    match failure {
        PathFailure::Deserialize(detail) => "PATH ERROR - "@ + detail@,
        PathFailure::Missing(detail) => "PATH ERROR - "@ + detail@,
        PathFailure::Other(detail) => "Unhandled path rejection: "@ + detail@,
    }
}

/// The response to a path whose parameters could not be read: a failure,
/// with the detail for the log.
pub fn path_rejection(failure: PathFailure) -> (response: AppResponse)
    ensures
        response matches AppResponse::Error(detail) && detail@ == path_failure_text(failure),
{
    let (prefix, detail) = match failure {
        PathFailure::Deserialize(detail) => ("PATH ERROR - ", detail),
        PathFailure::Missing(detail) => ("PATH ERROR - ", detail),
        PathFailure::Other(detail) => ("Unhandled path rejection: ", detail),
    };
    let mut text = String::from_str(prefix);
    text.append(detail.as_str());
    AppResponse::Error(text)
}

} // verus!
