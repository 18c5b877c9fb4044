use vstd::prelude::*;

verus! {

/// Which page of a collection is looked up: how many items to pass over, and
/// how many to return at most.
#[derive(Clone, Copy, Debug, PartialEq, Eq, Structural)]
pub struct Pagination {
    pub offset: i64,
    pub limit: i64,
}

/// The page that is looked up where a request names none: the first twenty
/// items.
pub open spec fn default_page() -> Pagination {
    Pagination { offset: 0, limit: 20 }
}

/// The page that is looked up for a request: the page that the request names,
/// as it is, or the default page where it names none.
pub open spec fn page_of(asked: Option<Pagination>) -> Pagination {
    match asked {
        Some(page) => page,
        None => default_page(),
    }
}

/// A request that names no page is answered as one that names the default
/// page, and a page that a request names is looked up as it is.
pub proof fn lemma_page_of(page: Pagination)
    ensures
        page_of(None) == page_of(Some(default_page())),
        page_of(Some(page)) == page,
{
}

impl Default for Pagination {
    fn default() -> (page: Pagination)
        ensures
            page == default_page(),
    {
        Pagination { offset: 0, limit: 20 }
    }
}

impl Pagination {
    /// The page to look up for a request that may or may not name one.
    pub fn or_default(asked: Option<Pagination>) -> (page: Pagination)
        ensures
            page == page_of(asked),
    {
        match asked {
            Some(page) => page,
            None => Pagination::default(),
        }
    }
}

} // verus!
