pub mod response_payload;
pub mod response_receipt;
