use vstd::prelude::*;

verus! {

/// A partial update of a currency: each field is either left as it is (`None`)
/// or set to the value given.
#[derive(Clone, Debug, PartialEq, Eq)]
pub struct PatchCurrencyPayload {
    pub name: Option<String>,
}

/// A partial update of a store: each field is either left as it is (`None`) or
/// set to the value given.
#[derive(Clone, Debug, PartialEq, Eq)]
pub struct PatchStorePayload {
    pub name: Option<String>,
}

/// What a patched text field holds afterwards: the value that the patch sets,
/// or what was there before where the patch leaves the field alone.
pub open spec fn patched_text(current: Seq<char>, change: Option<String>) -> Seq<char> {
    match change {
        Some(value) => value@,
        None => current,
    }
}

/// Of two patches applied one after the other, the later one wins wherever it
/// sets a value, and the earlier one stands wherever the later one sets none.
pub proof fn lemma_later_patch_wins(current: Seq<char>, earlier: Option<String>, later: Option<String>)
    ensures
        patched_text(patched_text(current, earlier), later) == (match later {
            Some(value) => value@,
            None => patched_text(current, earlier),
        }),
{
}

impl PatchCurrencyPayload {
    /// Applies the patch to the name of a currency.
    pub fn apply_to(&self, name: &mut String)
        ensures
            final(name)@ == patched_text(old(name)@, self.name),
    {
        match &self.name {
            Some(value) => {
                *name = value.clone();
            },
            None => {},
        }
    }
}

impl PatchStorePayload {
    /// Applies the patch to the name of a store.
    pub fn apply_to(&self, name: &mut String)
        ensures
            final(name)@ == patched_text(old(name)@, self.name),
    {
        match &self.name {
            Some(value) => {
                *name = value.clone();
            },
            None => {},
        }
    }
}

} // verus!
