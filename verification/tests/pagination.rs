use pricevista::decimal::Decimal;
use pricevista::error::Error;
use pricevista::pagination::{replay, Pagination, Step};
use pricevista::providers::algolia::AlgoliaBrowseResponse;
use pricevista::providers::billa::{
    BillaBadge, BillaPrice, BillaPriceInfo, BillaPriceItem, BillaProduct, BillaSearchResponse,
    BillaShopApi, BillaVolumeLabel,
};
use pricevista::providers::factfinder::{
    FieldRoles, PageLink, PagingMetadata, SearchRecord, SearchResponse,
};
use pricevista::providers::mpreis::MpreisShopApi;
use pricevista::providers::spar::SparShopApi;
use pricevista::providers::{Adapter, ContinuationState, Merge, Paginated};

fn shelf_product(id: usize, badges: &[&str]) -> BillaProduct {
    BillaProduct {
        age_required_in_months: None,
        amount: Decimal::parse("1.5").unwrap(),
        badges: badges.iter().map(|code| BillaBadge::from_code(code)).collect(),
        brand: None,
        category: String::from("Obst"),
        country_of_origin: None,
        deposit_type: None,
        description_short: None,
        description_long: None,
        drained_weight: None,
        images: vec![],
        max_quantity: None,
        medical: false,
        min_quantity: None,
        name: format!("Product {}", id),
        package_label: None,
        package_label_key: None,
        parent_categories: vec![],
        preparation_time: None,
        price: BillaPriceInfo {
            base_price_factor: None,
            base_unit_long: String::from("Kilogramm"),
            base_unit_short: String::from("kg"),
            crossed: None,
            discount_percentage: None,
            lowest_price: None,
            regular: BillaPriceItem {
                per_standardized_quantity: BillaPrice(199),
                promotion_quantity: None,
                promotion_text: None,
                promotion_type: None,
                promotion_value: None,
                promotion_value_per_standardized_quantity: None,
                tags: vec![],
                value: BillaPrice(299),
            },
        },
        product_id: format!("{}", id),
        product_marketing: None,
        purchased: false,
        quantity_step_size: None,
        sku: format!("00-{}", id),
        slug: format!("product-{}", id),
        upsell_sku: None,
        volume_label_key: BillaVolumeLabel::Kilogram,
        volume_label_long: BillaVolumeLabel::Kilogram,
        volume_label_short: Some(BillaVolumeLabel::Kilogram),
        weight: Decimal::parse("1.5").unwrap(),
        weight_article: true,
        weight_per_piece: Decimal::parse("0").unwrap(),
        weight_piece_article: false,
    }
}

fn shelf_page(from: usize, upto: usize, total: usize) -> BillaSearchResponse {
    BillaSearchResponse::page(
        Some(upto - from),
        total,
        (from..upto).map(|id| shelf_product(id, &[])).collect(),
        vec![],
    )
}

/// An upstream that holds `total` products and hands out the page of the
/// number asked for, of at most `page_size` of them.
fn shelf_upstream(page: usize, page_size: usize, total: usize) -> BillaSearchResponse {
    let from = (page * page_size).min(total);
    let upto = (page * page_size + page_size).min(total);
    shelf_page(from, upto, total)
}

fn page_of(state: &ContinuationState) -> usize {
    match state {
        ContinuationState::Offset(page) => *page,
        other => panic!("not an offset: {:?}", other),
    }
}

#[test]
fn offset_listing_of_120_in_pages_of_50() {
    let mut fetch = Pagination::<BillaSearchResponse>::begin();
    let mut asked: Vec<usize> = vec![];
    let mut carrying: Vec<usize> = vec![];
    let whole = loop {
        let request = fetch.next_request::<BillaShopApi>();
        let page = page_of(fetch.pending());
        assert_eq!(request.query[0], (String::from("page"), format!("{}", page)));
        asked.push(page);
        let answer = shelf_upstream(page, 50, 120);
        if !answer.results.is_empty() {
            carrying.push(page * 50);
        }
        let response = Ok(answer);
        assert!(fetch.admits(&response));
        match fetch.advance(response) {
            Step::Continue(next) => fetch = next,
            Step::Complete(whole) => break whole,
            Step::Abort(failure) => panic!("aborted: {:?}", failure),
        }
    };
    // Three requests carry the 120 results, at the offsets 0, 50 and 100.
    assert_eq!(carrying, vec![0, 50, 100]);
    assert_eq!(whole.results.len(), 120);
    assert_eq!(whole.total, 120);
    // The pages are asked for in turn. The listing ends with the page that
    // brings no results, which is the answer to one more request.
    assert_eq!(asked, vec![0, 1, 2, 3]);
    assert_eq!(whole.count, Some(0));
    assert_eq!(whole.pages, 4);
    assert_eq!(whole.before, 120);
    // The results stand in the order of arrival, none twice.
    for (place, product) in whole.results.iter().enumerate() {
        assert_eq!(product.product_id, format!("{}", place));
    }
}

#[test]
fn short_pages_do_not_hold_the_page_number_back() {
    let mut fetch = Pagination::<BillaSearchResponse>::begin();
    let mut asked: Vec<String> = vec![];
    for page in 0..3 {
        asked.push(fetch.next_request::<BillaShopApi>().query[0].1.clone());
        fetch = match fetch.advance(Ok(shelf_page(page, page + 1, 9))) {
            Step::Continue(next) => next,
            _ => panic!("the listing should go on"),
        };
    }
    asked.push(fetch.next_request::<BillaShopApi>().query[0].1.clone());
    assert_eq!(asked, vec!["0", "1", "2", "3"]);
}

#[test]
fn page_without_count_does_not_end_the_listing() {
    let mut first = shelf_page(0, 1, 3);
    first.count = None;
    let mut second = shelf_page(1, 3, 3);
    second.count = None;
    let mut last = shelf_page(3, 3, 3);
    last.count = None;
    let (end, requests) = replay(vec![Ok(first), Ok(second), Ok(last), Ok(shelf_page(0, 1, 3))]);
    assert_eq!(requests, 3);
    match end {
        Some(Step::Complete(whole)) => {
            let ids: Vec<&str> = whole.results.iter().map(|p| p.product_id.as_str()).collect();
            assert_eq!(ids, vec!["0", "1", "2"]);
            assert_eq!(whole.count, None);
        }
        _ => panic!("the listing did not complete"),
    }
}

#[test]
fn count_has_no_part_in_the_end_of_a_listing() {
    let mut lying = shelf_page(0, 2, 2);
    lying.count = Some(0);
    let (end, requests) = replay(vec![Ok(lying)]);
    assert_eq!(requests, 1);
    assert!(matches!(end, Some(Step::Continue(_))));
    let mut empty = shelf_page(0, 0, 2);
    empty.count = Some(7);
    let (end, requests) = replay(vec![Ok(empty)]);
    assert_eq!(requests, 1);
    assert!(matches!(end, Some(Step::Complete(_))));
}

#[test]
fn offset_listing_replayed_from_pages() {
    let script = vec![
        Ok(shelf_page(0, 50, 120)),
        Ok(shelf_page(50, 100, 120)),
        Ok(shelf_page(100, 120, 120)),
        Ok(shelf_page(120, 120, 120)),
        Ok(shelf_page(0, 50, 120)),
    ];
    let (end, requests) = replay(script);
    assert_eq!(requests, 4);
    match end {
        Some(Step::Complete(whole)) => {
            assert_eq!(whole.results.len(), 50 + 50 + 20);
            assert_eq!(whole.total, 120);
        }
        _ => panic!("the listing did not complete"),
    }
}

#[test]
fn offset_listing_goes_on_while_pages_report_results() {
    let script = vec![Ok(shelf_page(0, 50, 120)), Ok(shelf_page(50, 100, 120))];
    let (end, requests) = replay(script);
    assert_eq!(requests, 2);
    match end {
        Some(Step::Continue(fetch)) => {
            assert_eq!(page_of(fetch.pending()), 2);
        }
        _ => panic!("the listing should go on"),
    }
}

#[test]
fn replay_of_nothing_takes_no_step() {
    let (end, requests) = replay::<BillaSearchResponse>(vec![]);
    assert_eq!(requests, 0);
    assert!(end.is_none());
}

fn browse_page(hits: Vec<u32>, time: u32, cursor: Option<&str>) -> AlgoliaBrowseResponse<u32> {
    AlgoliaBrowseResponse { hits, processing_time_ms: time, cursor: cursor.map(String::from) }
}

#[test]
fn cursor_listing_ends_with_the_page_without_cursor() {
    let mut fetch = Pagination::<AlgoliaBrowseResponse<u32>>::begin();
    let mut asked: Vec<Option<String>> = vec![];
    let whole = loop {
        let cursor = match fetch.pending() {
            ContinuationState::Cursor(cursor) => cursor.clone(),
            other => panic!("not a cursor: {:?}", other),
        };
        let page = match cursor.as_deref() {
            None => browse_page(vec![1, 2, 3], 7, Some("abc")),
            Some("abc") => browse_page(vec![4, 5], 5, None),
            Some(other) => panic!("unknown cursor {}", other),
        };
        asked.push(cursor);
        match fetch.advance(Ok(page)) {
            Step::Continue(next) => fetch = next,
            Step::Complete(whole) => break whole,
            Step::Abort(failure) => panic!("aborted: {:?}", failure),
        }
    };
    assert_eq!(asked, vec![None, Some(String::from("abc"))]);
    assert_eq!(whole.hits, vec![1, 2, 3, 4, 5]);
    assert_eq!(whole.processing_time_ms, 12);
    assert_eq!(whole.cursor, None);
}

#[test]
fn cursor_listing_replayed_makes_two_requests() {
    let script = vec![
        Ok(browse_page(vec![1, 2, 3], 7, Some("abc"))),
        Ok(browse_page(vec![4, 5], 5, None)),
        Ok(browse_page(vec![6], 1, None)),
    ];
    let (end, requests) = replay(script);
    assert_eq!(requests, 2);
    match end {
        Some(Step::Complete(whole)) => assert_eq!(whole.hits, vec![1, 2, 3, 4, 5]),
        _ => panic!("the browse did not complete"),
    }
}

#[test]
fn engine_asks_the_interface_for_each_request() {
    let mut fetch = Pagination::<AlgoliaBrowseResponse<u32>>::begin();
    let first = fetch.next_request::<MpreisShopApi>();
    assert_eq!(first.url, MpreisShopApi::API_URL);
    fetch = match fetch.advance(Ok(browse_page(vec![1], 1, Some("abc")))) {
        Step::Continue(next) => next,
        _ => panic!("the browse should go on"),
    };
    let second = fetch.next_request::<MpreisShopApi>();
    assert_eq!(second.url, format!("{}&cursor=abc", MpreisShopApi::API_URL));

    let mut listing = Pagination::<BillaSearchResponse>::begin();
    let pages: Vec<String> = (0..3)
        .map(|page| {
            let request = listing.next_request::<BillaShopApi>();
            let from = page * 500;
            let taken = std::mem::replace(&mut listing, Pagination::begin());
            listing = match taken.advance(Ok(shelf_page(from, from + 500, 1200))) {
                Step::Continue(next) => next,
                _ => panic!("the listing should go on"),
            };
            request.query[0].1.clone()
        })
        .collect();
    assert_eq!(pages, vec!["0", "1", "2"]);
}

#[test]
fn interfaces_ask_in_their_own_style_only() {
    let offset = ContinuationState::Offset(1);
    let cursor = ContinuationState::Cursor(None);
    let link = ContinuationState::PageLink(2);
    let billa = <BillaShopApi as Adapter<BillaSearchResponse>>::request_page(&offset).unwrap();
    assert_eq!(billa.query[0], (String::from("page"), String::from("1")));
    assert!(<BillaShopApi as Adapter<BillaSearchResponse>>::request_page(&cursor).is_none());
    let mpreis =
        <MpreisShopApi as Adapter<AlgoliaBrowseResponse<u32>>>::request_page(&cursor).unwrap();
    assert_eq!(mpreis.url, MpreisShopApi::API_URL);
    assert!(<MpreisShopApi as Adapter<AlgoliaBrowseResponse<u32>>>::request_page(&link).is_none());
    let spar = <SparShopApi as Adapter<SearchResponse<u32>>>::request_page(&link).unwrap();
    assert_eq!(spar.query[3], (String::from("page"), String::from("2")));
    assert!(<SparShopApi as Adapter<SearchResponse<u32>>>::request_page(&offset).is_none());
    let first = Pagination::<SearchResponse<u32>>::begin().next_request::<SparShopApi>();
    assert_eq!(first.query[3], (String::from("page"), String::from("1")));
}

#[test]
fn cursor_requests_carry_the_token() {
    let first = MpreisShopApi::request(&ContinuationState::Cursor(None)).unwrap();
    assert_eq!(first.url, MpreisShopApi::API_URL);
    assert!(first.query.is_empty());
    let next =
        MpreisShopApi::request(&ContinuationState::Cursor(Some(String::from("abc")))).unwrap();
    assert_eq!(next.url, format!("{}&cursor=abc", MpreisShopApi::API_URL));
    assert!(MpreisShopApi::request(&ContinuationState::Offset(3)).is_none());
    assert!(MpreisShopApi::request(&ContinuationState::Done).is_none());
}

#[test]
fn inconsistent_total_aborts_the_fetch() {
    let script = vec![Ok(shelf_page(0, 25, 50)), Ok(shelf_page(25, 48, 48))];
    let (end, requests) = replay(script);
    assert_eq!(requests, 2);
    match end {
        Some(Step::Abort(Error::InconsistentTotal { expected, found })) => {
            assert_eq!(expected, 50);
            assert_eq!(found, 48);
        }
        _ => panic!("the fetch should have been aborted"),
    }
}

#[test]
fn inconsistent_total_leaves_the_accumulator_as_it_was() {
    let mut acc = shelf_page(0, 25, 50);
    let outcome = acc.merge(shelf_page(25, 48, 48));
    assert!(matches!(outcome, Err(Error::InconsistentTotal { expected: 50, found: 48 })));
    assert_eq!(acc.results.len(), 25);
    assert_eq!(acc.total, 50);
    assert_eq!(acc.count, Some(25));
    assert!(outcome.unwrap_err().is_retryable());
}

#[test]
fn failure_of_the_caller_aborts_the_fetch() {
    let script: Vec<Result<BillaSearchResponse, Error>> = vec![
        Ok(shelf_page(0, 50, 120)),
        Err(Error::Transport(String::from("connection reset"))),
        Ok(shelf_page(50, 100, 120)),
    ];
    let (end, requests) = replay(script);
    assert_eq!(requests, 2);
    match end {
        Some(Step::Abort(Error::Transport(text))) => assert_eq!(text, "connection reset"),
        _ => panic!("the fetch should have been aborted"),
    }
    let first: Vec<Result<BillaSearchResponse, Error>> =
        vec![Err(Error::Schema(String::from("missing field `total`")))];
    let (end, requests) = replay(first);
    assert_eq!(requests, 1);
    assert!(matches!(end, Some(Step::Abort(Error::Schema(_)))));
}

#[test]
fn unknown_badge_does_not_stop_the_fetch() {
    assert_eq!(BillaBadge::from_code("gs-never-heard-of"), BillaBadge::Unknown);
    let mut page = shelf_page(0, 2, 2);
    page.results[1] = shelf_product(1, &["gs-bio", "gs-never-heard-of"]);
    assert_eq!(page.results[1].badges, vec![BillaBadge::BioMark, BillaBadge::Unknown]);
    let (end, requests) = replay(vec![Ok(page), Ok(shelf_page(2, 2, 2))]);
    assert_eq!(requests, 2);
    match end {
        Some(Step::Complete(whole)) => {
            assert_eq!(whole.results.len(), 2);
            assert!(!whole.results[0].has_unknown_code());
            assert!(whole.results[1].has_unknown_code());
            assert_eq!(whole.products_with_unknown_codes(), 1);
        }
        _ => panic!("the listing did not complete"),
    }
}

fn search_page(ids: &[u32], total: usize, next: Option<u32>) -> SearchResponse<u32> {
    SearchResponse {
        facets: vec![],
        field_roles: FieldRoles::new(),
        follow_search: None,
        hits: ids
            .iter()
            .map(|id| SearchRecord {
                found_words: vec![],
                id: format!("{}", id),
                master_values: *id,
                position: *id,
                score: Decimal { mantissa: 1, scale: 0 },
            })
            .collect(),
        paging: PagingMetadata {
            current_page: 1,
            default_hits_per_page: 24,
            hits_per_page: 1000,
            next_link: next.map(|number| PageLink { current_page: false, number }),
            page_count: 3,
            previous_link: None,
        },
        timed_out: false,
        took_loop_54: 1,
        took_total: 2,
        took_worldmatch: 3,
        total_hits: total,
    }
}

#[test]
fn page_link_continuation_follows_the_merged_page() {
    let mut acc = search_page(&[1, 2], 5, Some(2));
    assert!(matches!(acc.continuation(), ContinuationState::PageLink(2)));
    acc.merge(search_page(&[3, 4], 5, Some(3))).unwrap();
    assert!(matches!(acc.continuation(), ContinuationState::PageLink(3)));
    acc.merge(search_page(&[5], 5, None)).unwrap();
    assert!(matches!(acc.continuation(), ContinuationState::Done));
    assert!(acc.continuation().is_done());
    let ids: Vec<u32> = acc.hits.iter().map(|hit| hit.master_values).collect();
    assert_eq!(ids, vec![1, 2, 3, 4, 5]);
}

#[test]
fn page_link_listing_replayed() {
    let script = vec![
        Ok(search_page(&[1, 2], 5, Some(2))),
        Ok(search_page(&[3, 4], 5, Some(3))),
        Ok(search_page(&[5], 5, None)),
    ];
    let (end, requests) = replay(script);
    assert_eq!(requests, 3);
    match end {
        Some(Step::Complete(whole)) => {
            assert_eq!(whole.hits.len(), 5);
            assert_eq!(whole.took_loop_54, 3);
            assert_eq!(whole.took_total, 6);
            assert_eq!(whole.took_worldmatch, 9);
            assert_eq!(whole.total_hits, 5);
        }
        _ => panic!("the search did not complete"),
    }
}

#[test]
fn initial_states_of_the_three_styles() {
    assert!(matches!(BillaSearchResponse::initial(), ContinuationState::Offset(0)));
    assert!(matches!(AlgoliaBrowseResponse::<u32>::initial(), ContinuationState::Cursor(None)));
    assert!(matches!(SearchResponse::<u32>::initial(), ContinuationState::PageLink(1)));
    let fetch = Pagination::<SearchResponse<u32>>::begin();
    assert!(matches!(fetch.pending(), ContinuationState::PageLink(1)));
    assert!(!fetch.pending().is_done());
}

#[test]
fn merge_is_associative_on_one_total() {
    let mut left = shelf_page(0, 2, 7);
    left.merge(shelf_page(2, 5, 7)).unwrap();
    left.merge(shelf_page(5, 7, 7)).unwrap();
    let mut tail = shelf_page(2, 5, 7);
    tail.merge(shelf_page(5, 7, 7)).unwrap();
    let mut right = shelf_page(0, 2, 7);
    right.merge(tail).unwrap();
    assert_eq!(left.count, right.count);
    assert_eq!(left.total, right.total);
    let left_ids: Vec<&String> = left.results.iter().map(|p| &p.product_id).collect();
    let right_ids: Vec<&String> = right.results.iter().map(|p| &p.product_id).collect();
    assert_eq!(left_ids, right_ids);
    assert_eq!(left_ids.len(), 7);
}

#[test]
fn merge_with_a_differing_total_fails_either_way() {
    let mut left = shelf_page(0, 2, 7);
    left.merge(shelf_page(2, 5, 7)).unwrap();
    assert!(left.merge(shelf_page(5, 7, 8)).is_err());
    let mut tail = shelf_page(2, 5, 7);
    assert!(tail.merge(shelf_page(5, 7, 8)).is_err());
}

#[test]
fn fetching_again_gives_the_same_response() {
    let script = || {
        vec![
            Ok(browse_page(vec![1, 2, 3], 7, Some("abc"))),
            Ok(browse_page(vec![4, 5], 5, Some("def"))),
            Ok(browse_page(vec![], 2, None)),
        ]
    };
    let (first, first_requests) = replay(script());
    let (second, second_requests) = replay(script());
    assert_eq!(first_requests, 3);
    assert_eq!(first_requests, second_requests);
    match (first, second) {
        (Some(Step::Complete(one)), Some(Step::Complete(other))) => {
            assert_eq!(one.hits, other.hits);
            assert_eq!(one.hits, vec![1, 2, 3, 4, 5]);
            assert_eq!(one.processing_time_ms, other.processing_time_ms);
            assert_eq!(one.processing_time_ms, 14);
            assert_eq!(one.cursor, other.cursor);
        }
        _ => panic!("both fetches should complete"),
    }
}

#[test]
fn browse_time_must_fit() {
    let acc = browse_page(vec![1], u32::MAX - 1, Some("abc"));
    assert!(acc.mergeable(&browse_page(vec![2], 1, None)));
    assert!(!acc.mergeable(&browse_page(vec![2], 2, None)));
    let fetch = Pagination::<AlgoliaBrowseResponse<u32>>::begin();
    assert!(fetch.admits(&Ok(browse_page(vec![1], u32::MAX, None))));
    match fetch.advance(Ok(acc)) {
        Step::Continue(next) => {
            assert!(next.admits(&Ok(browse_page(vec![2], 1, None))));
            assert!(!next.admits(&Ok(browse_page(vec![2], 2, None))));
            assert!(next.admits(&Err(Error::Transport(String::new()))));
        }
        _ => panic!("the browse should go on"),
    }
}

#[test]
fn add_assign_takes_hits_and_cursor() {
    let mut total = AlgoliaBrowseResponse::<u32>::default();
    assert!(total.hits.is_empty());
    assert_eq!(total.processing_time_ms, 0);
    assert_eq!(total.cursor, None);
    let mut page = browse_page(vec![1, 2], 3, Some("abc"));
    total.add_assign(&mut page);
    assert_eq!(total.hits, vec![1, 2]);
    assert_eq!(total.processing_time_ms, 3);
    assert_eq!(total.cursor, Some(String::from("abc")));
    assert!(page.hits.is_empty());
    assert_eq!(page.processing_time_ms, 3);
    assert_eq!(page.cursor, None);
}

#[test]
fn billa_requests_name_the_page() {
    let first = BillaShopApi::request(&ContinuationState::Offset(0)).unwrap();
    assert_eq!(first.url, "https://shop.billa.at/api/products");
    assert_eq!(
        first.query,
        vec![
            (String::from("page"), String::from("0")),
            (String::from("pageSize"), String::from("500")),
            (String::from("storeId"), String::from("00-10")),
        ]
    );
    let third = BillaShopApi::request(&ContinuationState::Offset(2)).unwrap();
    assert_eq!(third.query[0], (String::from("page"), String::from("2")));
    let late = BillaShopApi::request(&ContinuationState::Offset(usize::MAX)).unwrap();
    assert_eq!(late.query[0], (String::from("page"), format!("{}", usize::MAX)));
    assert!(BillaShopApi::request(&ContinuationState::Cursor(None)).is_none());
    assert!(BillaShopApi::request(&ContinuationState::PageLink(1)).is_none());
    assert!(BillaShopApi::request(&ContinuationState::Done).is_none());
}

#[test]
fn merged_pages_are_counted() {
    let mut acc = shelf_page(0, 2, 7);
    assert_eq!((acc.pages, acc.before), (1, 0));
    acc.merge(shelf_page(2, 5, 7)).unwrap();
    assert_eq!((acc.pages, acc.before), (2, 2));
    let mut tail = shelf_page(5, 6, 7);
    tail.merge(shelf_page(6, 7, 7)).unwrap();
    acc.merge(tail).unwrap();
    assert_eq!((acc.pages, acc.before), (4, 6));
    assert!(matches!(acc.continuation(), ContinuationState::Offset(4)));
    acc.merge(shelf_page(7, 7, 7)).unwrap();
    assert_eq!((acc.pages, acc.before), (5, 7));
    assert!(acc.continuation().is_done());
}

#[test]
fn pages_that_cannot_be_counted_are_not_admitted() {
    let mut acc = shelf_page(0, 2, 7);
    acc.pages = usize::MAX;
    assert!(!acc.mergeable(&shelf_page(2, 5, 7)));
    assert!(acc.mergeable(&shelf_page(2, 5, 8)));
    assert!(matches!(
        acc.merge(shelf_page(2, 5, 8)),
        Err(Error::InconsistentTotal { expected: 7, found: 8 })
    ));
    let mut page = shelf_page(2, 5, 7);
    page.before = usize::MAX;
    assert!(!shelf_page(0, 2, 7).mergeable(&page));
}
