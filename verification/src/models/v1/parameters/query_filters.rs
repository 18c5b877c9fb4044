use vstd::prelude::*;

verus! {

/// The filter of a search by keyword, as it comes with the request.
#[derive(Clone, Debug, PartialEq, Eq)]
pub struct KeywordFilters {
    pub keyword: Option<String>,
}

} // verus!
