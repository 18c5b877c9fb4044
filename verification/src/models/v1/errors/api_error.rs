use vstd::prelude::*;

verus! {

/// Why a request could not be answered with what it asked for.
#[derive(Clone, Copy, Debug, PartialEq, Eq, Structural)]
pub enum ApiError {
    /// The request did not name what it wants in a form that can be read.
    InvalidParameter,
    /// Nothing is stored under the key that the request names.
    NotFound,
    /// The service failed while it looked for the answer.
    Internal,
}

} // verus!
