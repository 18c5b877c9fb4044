pub mod api_error;
pub mod writer_error;
