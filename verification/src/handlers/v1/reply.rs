//! What the handlers have in common: keys from path ids, and replies from
//! what a service returned.

use vstd::prelude::*;
use crate::models::v1::errors::api_error::ApiError;
use crate::models::v1::responses::response_payload::PartialCollection;
use crate::models::v1::responses::response_payload::ResponseCollectionPayload;
use crate::models::v1::responses::response_payload::ResponsePayload;
use crate::services::v1::converters::api_error_converter_service::status_of;
use crate::services::v1::converters::api_error_converter_service::ApiErrorConverterService;
use crate::services::v1::converters::api_error_converter_service::HttpStatus;

verus! {

/// What a handler answers: a status and a body.
#[derive(Debug, PartialEq, Eq)]
pub struct Reply<P> {
    pub status: HttpStatus,
    pub payload: P,
}

/// The key that an id from a request path stands for. Keys are signed and ids
/// are not: an id beyond the largest key wraps round to a negative key, under
/// which nothing is stored.
pub open spec fn key_of(id: u32) -> i32 {
    if id <= i32::MAX {
        id as i32
    } else {
        (id - 0x1_0000_0000) as i32
    }
}

/// The key to look up for the id that came with a request, if one came.
pub fn path_key(id: Option<u32>) -> (key: Result<i32, ApiError>)
    ensures
        key == (match id {
            Some(n) => Ok::<i32, ApiError>(key_of(n)),
            None => Err::<i32, ApiError>(ApiError::InvalidParameter),
        }),
{
    match id {
        Some(n) => {
            if n <= 0x7fff_ffff {
                Ok(n as i32)
            } else {
                let low: u32 = n - 0x8000_0000;
                Ok(low as i32 - 0x7fff_ffff - 1)
            }
        },
        None => Err(ApiError::InvalidParameter),
    }
}

/// The status that answers what a service returned.
pub open spec fn status_for<T>(found: Result<T, ApiError>) -> HttpStatus {
    match found {
        Ok(_) => HttpStatus::Success,
        Err(e) => status_of(e),
    }
}

/// The reply about one item: the item with status 200, or the error with the
/// status that answers it.
pub fn item_reply<T>(found: Result<T, ApiError>) -> (reply: Reply<ResponsePayload<T>>)
    ensures
        reply.status == status_for(found),
        reply.payload == (match found {
            Ok(item) => ResponsePayload { data: Some(item), error: None },
            Err(e) => ResponsePayload { data: None, error: Some(e) },
        }),
{
    let status = match &found {
        Ok(_) => HttpStatus::Success,
        Err(e) => ApiErrorConverterService::new().get_http_status_from_api_error(e),
    };
    Reply { status, payload: ResponsePayload::from_result(found) }
}

/// The reply about a page of items: the page and the total with status 200, or
/// the error with the status that answers it.
pub fn collection_reply<T>(found: Result<PartialCollection<T>, ApiError>) -> (reply: Reply<
    ResponseCollectionPayload<T>,
>)
    ensures
        reply.status == status_for(found),
        reply.payload == (match found {
            Ok(page) => ResponseCollectionPayload {
                data: Some(page.partial_collection),
                total: Some(page.total_count),
                error: None,
            },
            Err(e) => ResponseCollectionPayload { data: None, total: None, error: Some(e) },
        }),
{
    let status = match &found {
        Ok(_) => HttpStatus::Success,
        Err(e) => ApiErrorConverterService::new().get_http_status_from_api_error(e),
    };
    Reply { status, payload: ResponseCollectionPayload::from_result(found) }
}

} // verus!
