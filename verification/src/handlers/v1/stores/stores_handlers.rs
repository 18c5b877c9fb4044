use vstd::prelude::*;
use crate::handlers::v1::reply::collection_reply;
use crate::handlers::v1::reply::item_reply;
use crate::handlers::v1::reply::key_of;
use crate::handlers::v1::reply::path_key;
use crate::handlers::v1::reply::status_for;
use crate::handlers::v1::reply::Reply;
use crate::models::v1::commands::writer_command::WriterCommand;
use crate::models::v1::errors::api_error::ApiError;
use crate::models::v1::forms::patch_payload::PatchStorePayload;
use crate::models::v1::parameters::pagination::page_of;
use crate::models::v1::parameters::pagination::Pagination;
use crate::models::v1::parameters::query_filters::KeywordFilters;
use crate::models::v1::responses::response_payload::PartialCollection;
use crate::models::v1::responses::response_payload::ResponseCollectionPayload;
use crate::models::v1::responses::response_payload::ResponsePayload;
use crate::services::v1::converters::api_error_converter_service::HttpStatus;

verus! {

/// What the handler of a patch request has decided.
#[derive(Debug, PartialEq, Eq)]
pub struct PatchDecision<T> {
    /// The command to submit to the writer, if the request was taken on.
    pub command: Option<WriterCommand>,
    /// The answer to the client. It does not wait for the command to be
    /// applied, nor for it to be queued.
    pub reply: Reply<ResponsePayload<T>>,
}

/// The decisions of the request handlers for stores.
///
/// A handler here is the part of a request's handling that decides: it is
/// given what was read from the request and what the store service returned,
/// and says what to look up, what to submit and what to answer.
pub struct StoresHandlers {}

impl StoresHandlers {
    /// The key to ask the store service for, or the error that answers a
    /// request without a readable id.
    pub fn store_key(id: Option<u32>) -> (key: Result<i32, ApiError>)
        ensures
            key == (match id {
                Some(n) => Ok::<i32, ApiError>(key_of(n)),
                None => Err::<i32, ApiError>(ApiError::InvalidParameter),
            }),
    {
        path_key(id)
    }

    /// The answer to a request for one store, from what the store service
    /// returned or from the error that [`store_key`](Self::store_key) gave.
    pub fn get_store<T>(found: Result<T, ApiError>) -> (reply: Reply<ResponsePayload<T>>)
        ensures
            reply.status == status_for(found),
            reply.payload == (match found {
                Ok(item) => ResponsePayload { data: Some(item), error: None },
                Err(e) => ResponsePayload { data: None, error: Some(e) },
            }),
    {
        item_reply(found)
    }

    /// The page of stores to ask the store service for: the page that the
    /// request names, unchanged, or the default page where it names none.
    pub fn stores_page(pagination: Option<Pagination>) -> (page: Pagination)
        ensures
            page == page_of(pagination),
    {
        Pagination::or_default(pagination)
    }

    /// The answer to a request for a page of stores, from what the store
    /// service returned for the page that [`stores_page`](Self::stores_page)
    /// gave.
    pub fn get_stores<T>(found: Result<PartialCollection<T>, ApiError>) -> (reply: Reply<
        ResponseCollectionPayload<T>,
    >)
        ensures
            reply.status == status_for(found),
            reply.payload == (match found {
                Ok(page) => ResponseCollectionPayload {
                    data: Some(page.partial_collection),
                    total: Some(page.total_count),
                    error: None,
                },
                Err(e) => ResponseCollectionPayload { data: None, total: None, error: Some(e) },
            }),
    {
        collection_reply(found)
    }

    /// Decides on a request to patch a store.
    ///
    /// With a readable id and a readable patch the request is taken on: the
    /// command goes to the writer and the client is told `Accepted`, with an
    /// empty body. Anything else is refused as an invalid parameter, and
    /// nothing is submitted.
    pub fn patch_store<T>(id: Option<u32>, payload: Option<PatchStorePayload>) -> (decision:
        PatchDecision<T>)
        ensures
            decision == (match (id, payload) {
                (Some(n), Some(patch)) => PatchDecision::<T> {
                    command: Some(WriterCommand::PatchStore(key_of(n), patch)),
                    reply: Reply {
                        status: HttpStatus::Accepted,
                        payload: ResponsePayload { data: None, error: None },
                    },
                },
                _ => PatchDecision::<T> {
                    command: None,
                    reply: Reply {
                        status: HttpStatus::BadRequest,
                        payload: ResponsePayload {
                            data: None,
                            error: Some(ApiError::InvalidParameter),
                        },
                    },
                },
            }),
    {
        match (path_key(id), payload) {
            (Ok(key), Some(patch)) => PatchDecision {
                command: Some(WriterCommand::PatchStore(key, patch)),
                reply: Reply { status: HttpStatus::Accepted, payload: ResponsePayload::empty() },
            },
            _ => PatchDecision {
                command: None,
                reply: Reply {
                    status: HttpStatus::BadRequest,
                    payload: ResponsePayload { data: None, error: Some(ApiError::InvalidParameter) },
                },
            },
        }
    }

    /// The keyword to search stores by: the one that came with the request, or
    /// none where the request carried no filter.
    pub fn keyword(filters: Option<KeywordFilters>) -> (keyword: Option<String>)
        ensures
            keyword == (match filters {
                Some(f) => f.keyword,
                None => None,
            }),
    {
        match filters {
            Some(f) => f.keyword,
            None => None,
        }
    }

    /// The answer to a search for stores by keyword, from what the store
    /// service returned.
    pub fn autocomplete_stores<T>(found: Result<PartialCollection<T>, ApiError>) -> (reply: Reply<
        ResponseCollectionPayload<T>,
    >)
        ensures
            reply.status == status_for(found),
            reply.payload == (match found {
                Ok(page) => ResponseCollectionPayload {
                    data: Some(page.partial_collection),
                    total: Some(page.total_count),
                    error: None,
                },
                Err(e) => ResponseCollectionPayload { data: None, total: None, error: Some(e) },
            }),
    {
        collection_reply(found)
    }
}

} // verus!
