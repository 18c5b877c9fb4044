use vstd::prelude::*;

verus! {

/// The answer to the creation of a receipt: the key it was stored under.
#[derive(Clone, Copy, Debug, PartialEq, Eq, Structural)]
pub struct ResponseCreateReceipt {
    pub id: i32,
}

} // verus!
