//! The index of MPREIS, browsed with a cursor.

use crate::providers::algolia::AlgoliaBrowseResponse;
use crate::providers::{Adapter, Continuation, ContinuationState, PageRequest, Request};
use vstd::prelude::*;

verus! {

/// The browse interface of MPREIS.
pub struct MpreisShopApi;

/// The request for the page of the browse that `state` asks for, if it is a
/// cursor: the address of the browse, followed by the token where there is
/// one, as it was handed out.
pub open spec fn browse_request(state: Continuation) -> Option<Request> {
    match state {
        Continuation::Cursor(None) => Some(
            Request { url: MpreisShopApi::API_URL@, query: Seq::empty() },
        ),
        Continuation::Cursor(Some(token)) => Some(
            Request { url: MpreisShopApi::API_URL@ + "&cursor="@ + token, query: Seq::empty() },
        ),
        _ => None,
    }
}

impl<T> Adapter<AlgoliaBrowseResponse<T>> for MpreisShopApi {
    open spec fn request_for(state: Continuation) -> Option<Request> {
        browse_request(state)
    }

    fn request_page(state: &ContinuationState) -> (request: Option<PageRequest>) {
        Self::request(state)
    }

    proof fn asks_while_listing_goes_on(state: Continuation) {
    }
}

impl MpreisShopApi {
    /// The address of the browse, with the keys that the shop's own pages
    /// use.
    pub const API_URL: &'static str =
        "https://uzxors8tl2-dsn.algolia.net/1/indexes/prod_mpreis_8450/browse?X-Algolia-API-Key=6d27574257fd3a92542ff880585333f1&X-Algolia-Application-Id=UZXORS8TL2&X-Algolia-Agent=Vue.js";

    /// The request for the page that `state` asks for: the address of the
    /// browse, followed by the cursor where there is one, as it was handed
    /// out. There is none where `state` is not a cursor.
    pub fn request(state: &ContinuationState) -> (request: Option<PageRequest>)
        ensures
            match request {
                Some(request) => browse_request(state@) == Some(request@),
                None => browse_request(state@) is None,
            },
    {
        match state {
            ContinuationState::Cursor(cursor) => {
                let mut url = String::from_str(Self::API_URL);
                match cursor {
                    Some(token) => {
                        url.append("&cursor=");
                        url.append(token.as_str());
                    },
                    None => {},
                }
                let request = PageRequest { url, query: Vec::new() };
                assert(request@.query =~= Seq::empty());
                Some(request)
            },
            _ => None,
        }
    }
}

} // verus!
