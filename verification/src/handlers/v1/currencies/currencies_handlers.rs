use vstd::prelude::*;
use crate::handlers::v1::reply::collection_reply;
use crate::handlers::v1::reply::item_reply;
use crate::handlers::v1::reply::key_of;
use crate::handlers::v1::reply::path_key;
use crate::handlers::v1::reply::status_for;
use crate::handlers::v1::reply::Reply;
use crate::models::v1::errors::api_error::ApiError;
use crate::models::v1::parameters::pagination::page_of;
use crate::models::v1::parameters::pagination::Pagination;
use crate::models::v1::responses::response_payload::PartialCollection;
use crate::models::v1::responses::response_payload::ResponseCollectionPayload;
use crate::models::v1::responses::response_payload::ResponsePayload;

verus! {

/// The decisions of the request handlers for currencies.
pub struct CurrenciesHandlers {}

impl CurrenciesHandlers {
    /// The key to ask the currency service for, or the error that answers a
    /// request without a readable id.
    pub fn currency_key(id: Option<u32>) -> (key: Result<i32, ApiError>)
        ensures
            key == (match id {
                Some(n) => Ok::<i32, ApiError>(key_of(n)),
                None => Err::<i32, ApiError>(ApiError::InvalidParameter),
            }),
    {
        path_key(id)
    }

    /// The answer to a request for one currency, from what the currency
    /// service returned or from the error that
    /// [`currency_key`](Self::currency_key) gave.
    pub fn get_currency<T>(found: Result<T, ApiError>) -> (reply: Reply<ResponsePayload<T>>)
        ensures
            reply.status == status_for(found),
            reply.payload == (match found {
                Ok(item) => ResponsePayload { data: Some(item), error: None },
                Err(e) => ResponsePayload { data: None, error: Some(e) },
            }),
    {
        item_reply(found)
    }

    /// The page of currencies to ask the currency service for: the page that
    /// the request names, unchanged, or the default page where it names none.
    pub fn currencies_page(pagination: Option<Pagination>) -> (page: Pagination)
        ensures
            page == page_of(pagination),
    {
        Pagination::or_default(pagination)
    }

    /// The answer to a request for a page of currencies, from what the
    /// currency service returned for the page that
    /// [`currencies_page`](Self::currencies_page) gave.
    pub fn get_currencies<T>(found: Result<PartialCollection<T>, ApiError>) -> (reply: Reply<
        ResponseCollectionPayload<T>,
    >)
        ensures
            reply.status == status_for(found),
            reply.payload == (match found {
                Ok(page) => ResponseCollectionPayload {
                    data: Some(page.partial_collection),
                    total: Some(page.total_count),
                    error: None,
                },
                Err(e) => ResponseCollectionPayload { data: None, total: None, error: Some(e) },
            }),
    {
        collection_reply(found)
    }
}

} // verus!
