pub mod patch_payload;
