//! The product search of SPAR, paged by links.

use crate::providers::factfinder::SearchResponse;
use crate::providers::{
    parameter, Adapter, Continuation, ContinuationState, PageRequest, Request,
};
use crate::text::{decimal_text, digits_of};
use vstd::prelude::*;

verus! {

/// The search interface of SPAR.
pub struct SparShopApi;

/// The request for the page of the search that `state` asks for, if it is a
/// link to a page: a search for everything, a thousand hits to the page, at
/// the page of the given number.
pub open spec fn search_request(state: Continuation) -> Option<Request> {
    match state {
        Continuation::PageLink(number) => Some(
            Request {
                url: SparShopApi::API_BASE_URL@ + "/search/products_lmos_at"@,
                query: seq![
                    ("q"@, "*"@),
                    ("query"@, "*"@),
                    ("hitsPerPage"@, "1000"@),
                    ("page"@, digits_of(number)),
                ],
            },
        ),
        _ => None,
    }
}

impl<T> Adapter<SearchResponse<T>> for SparShopApi {
    open spec fn request_for(state: Continuation) -> Option<Request> {
        search_request(state)
    }

    fn request_page(state: &ContinuationState) -> (request: Option<PageRequest>) {
        Self::request(state)
    }

    proof fn asks_while_listing_goes_on(state: Continuation) {
    }
}

impl SparShopApi {
    /// The address below which the interface answers.
    pub const API_BASE_URL: &'static str = "https://search-spar.spar-ics.com/fact-finder/rest/v5/";

    /// The request for the page that `state` asks for: a search for
    /// everything, a thousand hits to the page, at the page of the given
    /// number. There is none where `state` is not a link to a page.
    pub fn request(state: &ContinuationState) -> (request: Option<PageRequest>)
        ensures
            match request {
                Some(request) => search_request(state@) == Some(request@),
                None => search_request(state@) is None,
            },
    {
        match state {
            ContinuationState::PageLink(number) => {
                let mut url = String::from_str(Self::API_BASE_URL);
                url.append("/search/products_lmos_at");
                let mut query: Vec<(String, String)> = Vec::new();
                query.push(parameter("q", "*"));
                query.push(parameter("query", "*"));
                query.push(parameter("hitsPerPage", "1000"));
                query.push((String::from_str("page"), decimal_text(*number as usize)));
                let request = PageRequest { url, query };
                assert(request@.query =~= seq![
                    ("q"@, "*"@),
                    ("query"@, "*"@),
                    ("hitsPerPage"@, "1000"@),
                    ("page"@, digits_of(*number as nat)),
                ]);
                Some(request)
            },
            _ => None,
        }
    }
}

} // verus!
