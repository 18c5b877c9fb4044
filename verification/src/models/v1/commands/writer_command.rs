use vstd::prelude::*;
use crate::models::v1::forms::patch_payload::PatchCurrencyPayload;
use crate::models::v1::forms::patch_payload::PatchStorePayload;

verus! {

/// One requested mutation of the store: which kind of entity, which row, and
/// the partial update to make. A command is plain data; it is not checked or
/// deduplicated here.
#[derive(Clone, Debug, PartialEq, Eq)]
pub enum WriterCommand {
    PatchCurrency(i32, PatchCurrencyPayload),
    PatchStore(i32, PatchStorePayload),
}

} // verus!
