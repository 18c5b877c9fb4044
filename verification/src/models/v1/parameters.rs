pub mod pagination;
pub mod query_filters;
