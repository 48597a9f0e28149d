//! The shop service that Hofer sells through: a session is opened for one
//! shop, and its token goes with every request after that.

use crate::providers::{parameter, PageRequest, Request};
use vstd::prelude::*;

verus! {

/// The address at which a session is configured.
pub const API_URL_SESSION_CONFIGURE: &'static str =
    "https://shopservice.roksh.at/session/configure";

/// The address of the list of all categories.
pub const API_URL_FULL_CATEGORY_LIST: &'static str =
    "https://shopservice.roksh.at/category/GetFullCategoryList";

/// The address of the list of the products of a category.
pub const API_URL_CATEGORY_PRODUCT_LIST: &'static str =
    "https://shopservice.roksh.at/productlist/CategoryProductList";

/// The name of the response header that carries the token of the session.
pub const SESSION_HEADER: &'static str = "jwt-auth";

/// What a session is configured with.
#[derive(Debug)]
pub struct RokshSessionConfig<'a> {
    pub user_selected_shops: Vec<&'a str>,
    pub redirect_to_dashboard_needed: bool,
    pub set_user_selected_shops_on_first_site_load: bool,
    /// The shop that the session is for.
    pub shops_selected_for_root: &'a str,
    pub own_webshop_provider_code: &'a str,
}

impl<'a> RokshSessionConfig<'a> {
    /// The configuration of a session for the shop `shop_name` alone: no
    /// shops selected by the user, no redirect, the selection applied on the
    /// first load, and no provider of its own.
    pub fn new(shop_name: &'a str) -> (config: Self)
        ensures
            config.user_selected_shops@ == Seq::<&'a str>::empty(),
            !config.redirect_to_dashboard_needed,
            config.set_user_selected_shops_on_first_site_load,
            config.shops_selected_for_root@ == shop_name@,
            config.own_webshop_provider_code@ == Seq::<char>::empty(),
    {
        proof {
            reveal_strlit("");
        }
        let config = Self {
            user_selected_shops: Vec::new(),
            redirect_to_dashboard_needed: false,
            set_user_selected_shops_on_first_site_load: true,
            shops_selected_for_root: shop_name,
            own_webshop_provider_code: "",
        };
        config
    }
}

/// One category of the shop, with the categories below it.
#[derive(Debug)]
pub struct RokshCategoryItem {
    pub category_id: u32,
    pub category_name: String,
    pub prog_id: String,
    pub parent_category_id: Option<u32>,
    pub status_flag: bool,
    pub child_list: Vec<Box<RokshCategoryItem>>,
    pub url: String,
    pub category_icon_file_name: String,
    pub category_image_file_name: String,
}

/// The categories of the shop, from the top.
#[derive(Debug)]
pub struct RokshCategoryListResponse(pub Vec<RokshCategoryItem>);

/// The token of a session, as the response to its configuration carries it:
/// the value of the session header where it is readable text, the empty
/// token where it is not, and none where the header is absent.
pub fn session_bearer(header: Option<Option<String>>) -> (bearer: Option<String>)
    ensures
        match header {
            None => bearer is None,
            Some(None) => bearer is Some && bearer->0@ == Seq::<char>::empty(),
            Some(Some(value)) => bearer == Some(value),
        },
{
    match header {
        None => None,
        Some(None) => Some(String::new()),
        Some(Some(value)) => Some(value),
    }
}

/// The request for the products of the categories: the first four results on
/// the first load, twenty-four to the list, and no category named.
pub fn category_product_list_request() -> (request: PageRequest)
    ensures
        request@ == (Request {
            url: API_URL_CATEGORY_PRODUCT_LIST@,
            query: seq![
                ("progId"@, ""@),
                ("firstLoadProductListResultNum"@, "4"@),
                ("listResultProductNum"@, "24"@),
            ],
        }),
{
    let mut query: Vec<(String, String)> = Vec::new();
    query.push(parameter("progId", ""));
    query.push(parameter("firstLoadProductListResultNum", "4"));
    query.push(parameter("listResultProductNum", "24"));
    let request = PageRequest { url: String::from_str(API_URL_CATEGORY_PRODUCT_LIST), query };
    assert(request@.query =~= seq![
        ("progId"@, ""@),
        ("firstLoadProductListResultNum"@, "4"@),
        ("listResultProductNum"@, "24"@),
    ]);
    request
}

} // verus!
