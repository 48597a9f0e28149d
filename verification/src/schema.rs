//! What a reader of the canonical data may ask for.

use crate::decimal::Decimal;
use vstd::prelude::*;

verus! {

/// How a list is narrowed and paged.
#[derive(Debug)]
pub struct FilterOptions {
    /// The words to search for.
    pub query: Option<String>,
    pub page: Option<usize>,
    /// The number of entries to a page.
    pub limit: Option<usize>,
}

impl Default for FilterOptions {
    /// No narrowing and no paging.
    fn default() -> (options: Self)
        ensures
            options.query is None,
            options.page is None,
            options.limit is None,
    {
        FilterOptions { query: None, page: None, limit: None }
    }
}

/// The entry that a request names.
#[derive(Debug)]
pub struct ParamOptions {
    pub id: String,
}

/// A search for articles by store and by price.
#[derive(Debug)]
pub struct SearchArticleSchema {
    pub store_ids: Option<Vec<usize>>,
    pub price_min: Option<Decimal>,
    pub price_max: Option<Decimal>,
}

} // verus!
