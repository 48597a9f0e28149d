use pricevista::error::Error;
use pricevista::fetcher::{archive_name, archive_name_on, encode, FetchPersistType, FetchSourceType};
use pricevista::providers::roksh::{
    category_product_list_request, session_bearer, RokshSessionConfig,
    API_URL_CATEGORY_PRODUCT_LIST, API_URL_FULL_CATEGORY_LIST, API_URL_SESSION_CONFIGURE,
    SESSION_HEADER,
};
use std::io::Read;

#[test]
fn archive_names_hold_source_day_and_form() {
    assert_eq!(
        archive_name_on(FetchSourceType::Billa, "2024-02-29", FetchPersistType::Json),
        "Billa-2024-02-29.json"
    );
    assert_eq!(
        archive_name_on(FetchSourceType::Mpreis, "2024-02-29", FetchPersistType::JsonBrotli),
        "Mpreis-2024-02-29.json.br"
    );
    assert_eq!(archive_name_on(FetchSourceType::All, "", FetchPersistType::Json), "All-.json");
    assert_eq!(
        archive_name_on(FetchSourceType::HeissePreise, "d", FetchPersistType::Json),
        "HeissePreise-d.json"
    );
    assert_eq!(
        archive_name_on(FetchSourceType::Hofer, "d", FetchPersistType::Json),
        "Hofer-d.json"
    );
    assert_eq!(archive_name_on(FetchSourceType::Spar, "d", FetchPersistType::Json), "Spar-d.json");
}

#[test]
fn source_names_are_those_of_the_variants() {
    for source in [
        FetchSourceType::All,
        FetchSourceType::Billa,
        FetchSourceType::HeissePreise,
        FetchSourceType::Hofer,
        FetchSourceType::Mpreis,
        FetchSourceType::Spar,
    ] {
        assert_eq!(source.name(), format!("{:?}", source));
    }
    assert_eq!(FetchPersistType::Json.extension(), ".json");
    assert_eq!(FetchPersistType::JsonBrotli.extension(), ".json.br");
}

#[test]
fn archive_names_take_the_day_in_universal_time() {
    assert_eq!(
        archive_name(FetchSourceType::Billa, 0, FetchPersistType::Json),
        Some(String::from("Billa-1970-01-01.json"))
    );
    assert_eq!(
        archive_name(FetchSourceType::Spar, 1431648000, FetchPersistType::JsonBrotli),
        Some(String::from("Spar-2015-05-15.json.br"))
    );
    assert_eq!(
        archive_name(FetchSourceType::Spar, 1431648000 + 86399, FetchPersistType::Json),
        Some(String::from("Spar-2015-05-15.json"))
    );
    assert_eq!(
        archive_name(FetchSourceType::Spar, 1431648000 + 86400, FetchPersistType::Json),
        Some(String::from("Spar-2015-05-16.json"))
    );
    assert_eq!(
        archive_name(FetchSourceType::Hofer, -1, FetchPersistType::Json),
        Some(String::from("Hofer-1969-12-31.json"))
    );
    assert_eq!(archive_name(FetchSourceType::Hofer, i64::MAX, FetchPersistType::Json), None);
    assert_eq!(archive_name(FetchSourceType::Hofer, i64::MIN, FetchPersistType::Json), None);
}

#[test]
fn plain_form_keeps_the_text() {
    let content = "{\"total\": 3, \"name\": \"K\u{fc}bel\"}";
    assert_eq!(encode(content, FetchPersistType::Json), Some(content.as_bytes().to_vec()));
    assert_eq!(encode("", FetchPersistType::Json), Some(vec![]));
}

#[test]
fn brotli_form_unpacks_to_the_text() {
    let content = "{\"results\": [1, 2, 3], \"results\": [1, 2, 3], \"results\": [1, 2, 3]}"
        .repeat(100);
    let packed = encode(&content, FetchPersistType::JsonBrotli).unwrap();
    assert!(packed.len() < content.len());
    assert_ne!(packed, content.as_bytes());
    let mut unpacked = String::new();
    brotli::Decompressor::new(&packed[..], 4096).read_to_string(&mut unpacked).unwrap();
    assert_eq!(unpacked, content);
    let nothing = encode("", FetchPersistType::JsonBrotli).unwrap();
    let mut unpacked = String::new();
    brotli::Decompressor::new(&nothing[..], 4096).read_to_string(&mut unpacked).unwrap();
    assert_eq!(unpacked, "");
}

#[test]
fn session_config_is_for_one_shop() {
    let config = RokshSessionConfig::new("hofer");
    assert!(config.user_selected_shops.is_empty());
    assert!(!config.redirect_to_dashboard_needed);
    assert!(config.set_user_selected_shops_on_first_site_load);
    assert_eq!(config.shops_selected_for_root, "hofer");
    assert_eq!(config.own_webshop_provider_code, "");
}

#[test]
fn session_bearer_is_the_value_of_the_header() {
    assert_eq!(session_bearer(None), None);
    assert_eq!(session_bearer(Some(None)), Some(String::new()));
    assert_eq!(session_bearer(Some(Some(String::from("eyJ")))), Some(String::from("eyJ")));
}

#[test]
fn roksh_requests() {
    let request = category_product_list_request();
    assert_eq!(request.url, "https://shopservice.roksh.at/productlist/CategoryProductList");
    assert_eq!(request.url, API_URL_CATEGORY_PRODUCT_LIST);
    assert_eq!(
        request.query,
        vec![
            (String::from("progId"), String::new()),
            (String::from("firstLoadProductListResultNum"), String::from("4")),
            (String::from("listResultProductNum"), String::from("24")),
        ]
    );
    assert_eq!(API_URL_SESSION_CONFIGURE, "https://shopservice.roksh.at/session/configure");
    assert_eq!(
        API_URL_FULL_CATEGORY_LIST,
        "https://shopservice.roksh.at/category/GetFullCategoryList"
    );
    assert_eq!(SESSION_HEADER, "jwt-auth");
}

#[test]
fn failures_describe_themselves() {
    assert_eq!(Error::Transport(String::from("timed out")).describe(), "timed out");
    assert_eq!(Error::Schema(String::from("missing field")).describe(), "missing field");
    assert_eq!(
        Error::InconsistentTotal { expected: 50, found: 48 }.describe(),
        "inconsistent total: expected 50, found 48"
    );
    assert_eq!(
        Error::InconsistentTotal { expected: 0, found: usize::MAX }.describe(),
        format!("inconsistent total: expected 0, found {}", usize::MAX)
    );
    assert!(!Error::Transport(String::new()).is_retryable());
    assert!(!Error::Schema(String::new()).is_retryable());
    assert!(Error::InconsistentTotal { expected: 1, found: 2 }.is_retryable());
}
