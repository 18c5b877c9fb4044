use vstd::prelude::*;
use crate::models::v1::errors::api_error::ApiError;

verus! {

/// The HTTP statuses that the handlers answer with.
#[derive(Clone, Copy, Debug, PartialEq, Eq, Structural)]
pub enum HttpStatus {
    Success,
    Accepted,
    BadRequest,
    NotFound,
    InternalServerError,
}

impl HttpStatus {
    /// The number that goes on the wire.
    pub open spec fn spec_code(self) -> u16 {
        match self {
            HttpStatus::Success => 200,
            HttpStatus::Accepted => 202,
            HttpStatus::BadRequest => 400,
            HttpStatus::NotFound => 404,
            HttpStatus::InternalServerError => 500,
        }
    }

    /// The number that goes on the wire.
    #[verifier::when_used_as_spec(spec_code)]
    pub fn code(self) -> (code: u16)
        ensures
            code == self.spec_code(),
    {
        match self {
            HttpStatus::Success => 200,
            HttpStatus::Accepted => 202,
            HttpStatus::BadRequest => 400,
            HttpStatus::NotFound => 404,
            HttpStatus::InternalServerError => 500,
        }
    }
}

/// The status that answers each error.
pub open spec fn status_of(e: ApiError) -> HttpStatus {
    match e {
        ApiError::InvalidParameter => HttpStatus::BadRequest,
        ApiError::NotFound => HttpStatus::NotFound,
        ApiError::Internal => HttpStatus::InternalServerError,
    }
}

/// Turns errors into the statuses that answer them.
pub struct ApiErrorConverterService {}

impl ApiErrorConverterService {
    /// A converter. It holds nothing.
    pub fn new() -> ApiErrorConverterService {
        ApiErrorConverterService {  }
    }

    /// The status that answers the error.
    pub fn get_http_status_from_api_error(&self, e: &ApiError) -> (status: HttpStatus)
        ensures
            status == status_of(*e),
    {
        match e {
            ApiError::InvalidParameter => HttpStatus::BadRequest,
            ApiError::NotFound => HttpStatus::NotFound,
            ApiError::Internal => HttpStatus::InternalServerError,
        }
    }
}

} // verus!
