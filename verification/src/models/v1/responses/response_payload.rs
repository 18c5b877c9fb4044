use vstd::prelude::*;
use crate::models::v1::errors::api_error::ApiError;

verus! {

/// The body of an answer about one item: the item or the error, never both.
#[derive(Debug, PartialEq, Eq)]
pub struct ResponsePayload<T> {
    pub data: Option<T>,
    pub error: Option<ApiError>,
}

/// The body of an answer about a page of items: the page and the number of
/// items there are in all, or the error.
#[derive(Debug, PartialEq, Eq)]
pub struct ResponseCollectionPayload<T> {
    pub data: Option<Vec<T>>,
    pub total: Option<i64>,
    pub error: Option<ApiError>,
}

/// A page of items as a service hands it over, with the number of items that
/// there are in all.
#[derive(Debug, PartialEq, Eq)]
pub struct PartialCollection<T> {
    pub partial_collection: Vec<T>,
    pub total_count: i64,
}

impl<T> ResponsePayload<T> {
    /// The body with neither item nor error, as it answers a request that was
    /// taken on and not yet carried out.
    pub fn empty() -> (payload: ResponsePayload<T>)
        ensures
            payload == (ResponsePayload::<T> { data: None, error: None }),
    {
        ResponsePayload { data: None, error: None }
    }

    /// The body for what a service returned.
    pub fn from_result(found: Result<T, ApiError>) -> (payload: ResponsePayload<T>)
        ensures
            payload == (match found {
                Ok(item) => ResponsePayload { data: Some(item), error: None },
                Err(e) => ResponsePayload { data: None, error: Some(e) },
            }),
    {
        match found {
            Ok(item) => ResponsePayload { data: Some(item), error: None },
            Err(e) => ResponsePayload { data: None, error: Some(e) },
        }
    }
}

impl<T> ResponseCollectionPayload<T> {
    /// The body for what a service returned.
    pub fn from_result(found: Result<PartialCollection<T>, ApiError>) -> (payload:
        ResponseCollectionPayload<T>)
        ensures
            payload == (match found {
                Ok(page) => ResponseCollectionPayload {
                    data: Some(page.partial_collection),
                    total: Some(page.total_count),
                    error: None,
                },
                Err(e) => ResponseCollectionPayload { data: None, total: None, error: Some(e) },
            }),
    {
        match found {
            Ok(page) => ResponseCollectionPayload {
                data: Some(page.partial_collection),
                total: Some(page.total_count),
                error: None,
            },
            Err(e) => ResponseCollectionPayload { data: None, total: None, error: Some(e) },
        }
    }
}

} // verus!
