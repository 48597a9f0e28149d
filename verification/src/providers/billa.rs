//! The shop interface that is paged by a counter of pages, and its products.

use crate::decimal::Decimal;
use crate::error::Error;
use crate::pagination::{
    answers, compatible, completes_with, ends_listing, first_failure_aborts,
    halts_at_first_final_page, merge_all, requests_spec, run_spec, Progress,
};
use crate::providers::{
    merges_left, merges_right, parameter, Adapter, Continuation, ContinuationState, Merge,
    PageRequest, Paginated, Request,
};
use crate::text::{
    absent_from, chars_of, decimal_text, digits_of, find, is_first, parse_u32, stands_at, u32_of,
};
use vstd::prelude::*;

verus! {

/// The shop interface of Billa.
pub struct BillaShopApi;

/// The request for the products of the store at the page that `state` asks
/// for, if it is an offset: by the number of the page, which is the number of
/// the pages before it, and by the length of a page.
pub open spec fn products_request(state: Continuation) -> Option<Request> {
    match state {
        Continuation::Offset(page) => Some(
            Request {
                url: "https://shop.billa.at/api"@ + "/products"@,
                query: seq![
                    ("page"@, digits_of(page)),
                    ("pageSize"@, "500"@),
                    ("storeId"@, "00-10"@),
                ],
            },
        ),
        _ => None,
    }
}

impl Adapter<BillaSearchResponse> for BillaShopApi {
    open spec fn request_for(state: Continuation) -> Option<Request> {
        products_request(state)
    }

    fn request_page(state: &ContinuationState) -> (request: Option<PageRequest>) {
        Self::request(state)
    }

    proof fn asks_while_listing_goes_on(state: Continuation) {
    }
}

impl BillaShopApi {
    /// The address below which the interface answers.
    pub const API_BASE_URL: &'static str = "https://shop.billa.at/api";

    /// The number of results asked for in one page, as the query writes it.
    pub const PAGE_SIZE: &'static str = "500";

    /// The shop whose products are listed.
    pub const STORE_ID: &'static str = "00-10";

    /// The request for the page that `state` asks for: the products of the
    /// store, by page number and page length. There is none where `state` is
    /// not an offset.
    pub fn request(state: &ContinuationState) -> (request: Option<PageRequest>)
        ensures
            match request {
                Some(request) => products_request(state@) == Some(request@),
                None => products_request(state@) is None,
            },
    {
        match state {
            ContinuationState::Offset(page) => {
                let mut url = String::from_str(Self::API_BASE_URL);
                url.append("/products");
                let page = decimal_text(*page);
                let mut query: Vec<(String, String)> = Vec::new();
                query.push((String::from_str("page"), page));
                query.push(parameter("pageSize", Self::PAGE_SIZE));
                query.push(parameter("storeId", Self::STORE_ID));
                let request = PageRequest { url, query };
                assert(request@.query =~= seq![
                    ("page"@, digits_of(state@->Offset_0)),
                    ("pageSize"@, "500"@),
                    ("storeId"@, "00-10"@),
                ]);
                Some(request)
            },
            _ => None,
        }
    }
}

/// A tag that marks a price as part of a promotion.
#[derive(Copy, Clone, Debug, PartialEq, Eq, Structural)]
pub enum BillaPromotionTag {
    Kurant,
    Multi,
    Discount,
    /// Buy the first number of items and get the second number for free.
    Bogo(u32, u32),
    /// A tag that this library does not know.
    Unknown,
}

/// Whether `term` holds the word "plus" once, so that it falls into the
/// text before the word and the text after it.
pub open spec fn splits_in_two(term: Seq<char>) -> bool {
    exists|at: int| is_first(term, "plus"@, at) && absent_from(term, "plus"@, at + 4)
}

/// The tag of a term of the form "2plus1": `Bogo` of the two numbers if the
/// term holds the word "plus" once and the texts on both sides are unsigned
/// 32-bit numbers, else `Unknown`.
pub open spec fn bogo_of(term: Seq<char>) -> BillaPromotionTag {
    let at = choose|at: int| is_first(term, "plus"@, at);
    if splits_in_two(term) {
        match (u32_of(term.subrange(0, at)), u32_of(term.subrange(at + 4, term.len() as int))) {
            (Some(buy), Some(free)) => BillaPromotionTag::Bogo(buy, free),
            _ => BillaPromotionTag::Unknown,
        }
    } else {
        BillaPromotionTag::Unknown
    }
}

/// The tag that the term after the prefix of a tag code stands for.
pub open spec fn tag_of(term: Seq<char>) -> BillaPromotionTag {
    if term == "kurant"@ {
        BillaPromotionTag::Kurant
    } else if term == "multi"@ {
        BillaPromotionTag::Multi
    } else if term == "abverkauf"@ || term == "aktion"@ || term == "extrem"@ || term
        == "satterrabatt"@ {
        BillaPromotionTag::Discount
    } else {
        bogo_of(term)
    }
}

/// Whether `code` begins with the prefix of the tag codes, "pt-".
pub open spec fn has_tag_prefix(code: Seq<char>) -> bool {
    code.len() >= 3 && code.subrange(0, 3) == "pt-"@
}

/// The term of a tag code: what follows its prefix.
pub open spec fn tag_term(code: Seq<char>) -> Seq<char> {
    code.subrange(3, code.len() as int)
}

impl BillaPromotionTag {
    /// Reads a tag code of the interface. A code without the prefix "pt-" is
    /// no tag code and fails; a term that is not known gives `Unknown`.
    pub fn from_code(code: &str) -> (read: Result<BillaPromotionTag, Error>)
        ensures
            match read {
                Ok(tag) => has_tag_prefix(code@) && tag == tag_of(tag_term(code@)),
                Err(failure) => !has_tag_prefix(code@) && failure is Schema
                    && failure->Schema_0@ == "Invalid Billa promotion tag"@,
            },
    {
        let chars = chars_of(code);
        let prefix = chars_of("pt-");
        proof {
            reveal_strlit("pt-");
        }
        if !stands_at(&chars, &prefix, 0) {
            return Err(Error::Schema(String::from_str("Invalid Billa promotion tag")));
        }
        let term = code.substring_char(3, chars.len());
        if term.eq("kurant") {
            Ok(BillaPromotionTag::Kurant)
        } else if term.eq("multi") {
            Ok(BillaPromotionTag::Multi)
        } else if term.eq("abverkauf") || term.eq("aktion") || term.eq("extrem") || term.eq(
            "satterrabatt",
        ) {
            Ok(BillaPromotionTag::Discount)
        } else {
            Ok(BillaPromotionTag::extract_bogo(term))
        }
    }

    /// Reads a term of the form "2plus1". A term that holds "plus" more than
    /// once or not at all, or that lacks a number on either side, gives
    /// `Unknown`.
    pub fn extract_bogo(term: &str) -> (tag: BillaPromotionTag)
        ensures
            tag == bogo_of(term@),
    {
        let chars = chars_of(term);
        let word = chars_of("plus");
        proof {
            reveal_strlit("plus");
        }
        let at = match find(&chars, &word, 0) {
            Some(at) => at,
            None => {
                return BillaPromotionTag::Unknown;
            },
        };
        assert(is_first(chars@, "plus"@, at as int));
        if find(&chars, &word, at + 4).is_some() {
            return BillaPromotionTag::Unknown;
        }
        match (parse_u32(&chars, 0, at), parse_u32(&chars, at + 4, chars.len())) {
            (Some(buy), Some(free)) => BillaPromotionTag::Bogo(buy, free),
            _ => BillaPromotionTag::Unknown,
        }
    }
}

/// A badge that the shop shows on a product: a seal of quality, a hint for a
/// diet, or how the product is kept.
#[derive(Copy, Clone, Debug, PartialEq, Eq, Structural)]
pub enum BillaBadge {
    /// The Austrian AMA seal for organic food.
    AMAMark,
    /// Appellation d'Origine Controlee.
    AOCMark,
    /// Appellation d'Origine Protegee.
    AOPMark,
    /// The Austrian ARGE Heumilch seal.
    ArgeMark,
    /// Aquaculture Stewardship Council.
    ASCMark,
    /// Organic food.
    BioMark,
    /// Demeter organic food.
    DemeterMark,
    /// Denominazione di Origine Controllata.
    DOCMark,
    /// Denominazione di Origine Protetta.
    DOPMark,
    /// The organic seal of the European Union.
    EUBioMark,
    /// The Austrian seal for animal welfare.
    FairZumTier,
    /// Forest Stewardship Council.
    FSCMark,
    /// FairTrade.
    FairTradeMark,
    /// Free from genetic engineering.
    GenTechMark,
    /// Protected Geographical Indication.
    PGIMark,
    /// Traditional Speciality Guaranteed.
    TSGMark,
    /// Protected Designation of Origin.
    PDOMark,
    /// Marine Stewardship Council.
    MSCMark,
    /// PRO PLAN pet food.
    ProPlanMark,
    /// Rainforest Alliance.
    RainforestMark,
    /// UTZ Certified.
    UTZCertifiedMark,
    /// Vegan, as a seal.
    VeganMark,
    /// A product from Austria.
    AustrianProduct,
    /// Organic, as a label.
    BioProduct,
    /// A product that is kept cool.
    CooledProduct,
    /// A product that is kept deep-frozen.
    DeepFrozenProduct,
    /// Free from gluten.
    GlutenFreeProduct,
    /// Free from lactose.
    LactoseFreeProduct,
    /// New in the shop.
    NewProduct,
    /// Vegan, as a label.
    VeganProduct,
    /// Vegetarian.
    VegetarianProduct,
    /// A badge that this library does not know.
    Unknown,
}

/// The badge that a code of the interface stands for.
pub open spec fn badge_of(code: Seq<char>) -> BillaBadge {
    if code == "gs-amabio"@ {
        BillaBadge::AMAMark
    } else if code == "gs-aoc"@ {
        BillaBadge::AOCMark
    } else if code == "gs-aop"@ {
        BillaBadge::AOPMark
    } else if code == "gs-argeheu"@ {
        BillaBadge::ArgeMark
    } else if code == "gs-asc"@ {
        BillaBadge::ASCMark
    } else if code == "gs-bio"@ {
        BillaBadge::BioMark
    } else if code == "gs-demeter"@ {
        BillaBadge::DemeterMark
    } else if code == "gs-doc"@ {
        BillaBadge::DOCMark
    } else if code == "gs-dop"@ {
        BillaBadge::DOPMark
    } else if code == "gs-eubio"@ {
        BillaBadge::EUBioMark
    } else if code == "gs-fairzumtier"@ {
        BillaBadge::FairZumTier
    } else if code == "gs-fsc"@ {
        BillaBadge::FSCMark
    } else if code == "gs-ft"@ {
        BillaBadge::FairTradeMark
    } else if code == "gs-gentech"@ {
        BillaBadge::GenTechMark
    } else if code == "gs-gga"@ {
        BillaBadge::PGIMark
    } else if code == "gs-gta"@ {
        BillaBadge::TSGMark
    } else if code == "gs-gu"@ {
        BillaBadge::PDOMark
    } else if code == "gs-msc"@ {
        BillaBadge::MSCMark
    } else if code == "gs-proplan"@ {
        BillaBadge::ProPlanMark
    } else if code == "gs-rainfor"@ {
        BillaBadge::RainforestMark
    } else if code == "gs-utz"@ {
        BillaBadge::UTZCertifiedMark
    } else if code == "gs-vegan"@ {
        BillaBadge::VeganMark
    } else if code == "homecountry"@ {
        BillaBadge::AustrianProduct
    } else if code == "pp-bio"@ {
        BillaBadge::BioProduct
    } else if code == "kuehlung"@ {
        BillaBadge::CooledProduct
    } else if code == "tiefkuehlung"@ {
        BillaBadge::DeepFrozenProduct
    } else if code == "pp-glutenfr"@ {
        BillaBadge::GlutenFreeProduct
    } else if code == "pp-lakto"@ {
        BillaBadge::LactoseFreeProduct
    } else if code == "eg-neu"@ {
        BillaBadge::NewProduct
    } else if code == "pp-vegan"@ {
        BillaBadge::VeganProduct
    } else if code == "pp-veget"@ {
        BillaBadge::VegetarianProduct
    } else {
        BillaBadge::Unknown
    }
}

/// Whether `code` is one of the badge codes that this library knows.
pub open spec fn is_badge_code(code: Seq<char>) -> bool {
    code == "gs-amabio"@ || code == "gs-aoc"@ || code == "gs-aop"@ || code == "gs-argeheu"@
        || code == "gs-asc"@ || code == "gs-bio"@ || code == "gs-demeter"@ || code == "gs-doc"@
        || code == "gs-dop"@ || code == "gs-eubio"@ || code == "gs-fairzumtier"@
        || code == "gs-fsc"@ || code == "gs-ft"@ || code == "gs-gentech"@ || code == "gs-gga"@
        || code == "gs-gta"@ || code == "gs-gu"@ || code == "gs-msc"@ || code == "gs-proplan"@
        || code == "gs-rainfor"@ || code == "gs-utz"@ || code == "gs-vegan"@
        || code == "homecountry"@ || code == "pp-bio"@ || code == "kuehlung"@
        || code == "tiefkuehlung"@ || code == "pp-glutenfr"@ || code == "pp-lakto"@
        || code == "eg-neu"@ || code == "pp-vegan"@ || code == "pp-veget"@
}

/// The badges that a list of codes stands for, each at the place of its
/// code.
pub open spec fn badges_of(codes: Seq<String>) -> Seq<BillaBadge> {
    codes.map_values(|code: String| badge_of(code@))
}

/// No badge code makes the reading of a page fail. A list of codes gives as
/// many badges, each at the place of its code: a code that is not known
/// gives `Unknown`, and the codes beside it give what they give without it.
pub proof fn unknown_badge_code_keeps_its_place(codes: Seq<String>, at: int)
    requires
        0 <= at < codes.len(),
    ensures
        badges_of(codes).len() == codes.len(),
        badges_of(codes)[at] == badge_of(codes[at]@),
        !is_badge_code(codes[at]@) ==> badges_of(codes)[at] is Unknown,
{
}

impl BillaBadge {
    /// Reads the badge codes of a product, in their order. There is a badge
    /// for every code, so that no code keeps a page from being read.
    pub fn from_codes(codes: &Vec<String>) -> (read: Vec<BillaBadge>)
        ensures
            read@ == badges_of(codes@),
    {
        let mut read: Vec<BillaBadge> = Vec::new();
        let mut i: usize = 0;
        while i < codes.len()
            invariant
                i <= codes.len(),
                read@ == badges_of(codes@.subrange(0, i as int)),
            decreases codes.len() - i,
        {
            read.push(BillaBadge::from_code(codes[i].as_str()));
            i = i + 1;
            assert(read@ =~= badges_of(codes@.subrange(0, i as int)));
        }
        assert(codes@.subrange(0, i as int) =~= codes@);
        read
    }

    /// Reads a code of the interface. A code that is not known gives
    /// `Unknown`: the interface adds codes without notice.
    pub fn from_code(code: &str) -> (read: BillaBadge)
        ensures
            read == badge_of(code@),
    {
        if code.eq("gs-amabio") {
            BillaBadge::AMAMark
        } else if code.eq("gs-aoc") {
            BillaBadge::AOCMark
        } else if code.eq("gs-aop") {
            BillaBadge::AOPMark
        } else if code.eq("gs-argeheu") {
            BillaBadge::ArgeMark
        } else if code.eq("gs-asc") {
            BillaBadge::ASCMark
        } else if code.eq("gs-bio") {
            BillaBadge::BioMark
        } else if code.eq("gs-demeter") {
            BillaBadge::DemeterMark
        } else if code.eq("gs-doc") {
            BillaBadge::DOCMark
        } else if code.eq("gs-dop") {
            BillaBadge::DOPMark
        } else if code.eq("gs-eubio") {
            BillaBadge::EUBioMark
        } else if code.eq("gs-fairzumtier") {
            BillaBadge::FairZumTier
        } else if code.eq("gs-fsc") {
            BillaBadge::FSCMark
        } else if code.eq("gs-ft") {
            BillaBadge::FairTradeMark
        } else if code.eq("gs-gentech") {
            BillaBadge::GenTechMark
        } else if code.eq("gs-gga") {
            BillaBadge::PGIMark
        } else if code.eq("gs-gta") {
            BillaBadge::TSGMark
        } else if code.eq("gs-gu") {
            BillaBadge::PDOMark
        } else if code.eq("gs-msc") {
            BillaBadge::MSCMark
        } else if code.eq("gs-proplan") {
            BillaBadge::ProPlanMark
        } else if code.eq("gs-rainfor") {
            BillaBadge::RainforestMark
        } else if code.eq("gs-utz") {
            BillaBadge::UTZCertifiedMark
        } else if code.eq("gs-vegan") {
            BillaBadge::VeganMark
        } else if code.eq("homecountry") {
            BillaBadge::AustrianProduct
        } else if code.eq("pp-bio") {
            BillaBadge::BioProduct
        } else if code.eq("kuehlung") {
            BillaBadge::CooledProduct
        } else if code.eq("tiefkuehlung") {
            BillaBadge::DeepFrozenProduct
        } else if code.eq("pp-glutenfr") {
            BillaBadge::GlutenFreeProduct
        } else if code.eq("pp-lakto") {
            BillaBadge::LactoseFreeProduct
        } else if code.eq("eg-neu") {
            BillaBadge::NewProduct
        } else if code.eq("pp-vegan") {
            BillaBadge::VeganProduct
        } else if code.eq("pp-veget") {
            BillaBadge::VegetarianProduct
        } else {
            BillaBadge::Unknown
        }
    }

    /// Whether the code that was read is one that this library knows.
    pub fn is_known(&self) -> (known: bool)
        ensures
            known == !(*self is Unknown),
    {
        match self {
            BillaBadge::Unknown => false,
            _ => true,
        }
    }
}
/// How the container of a product is returned.
#[derive(Copy, Clone, Debug, PartialEq, Eq, Structural)]
pub enum BillaDepositType {
    /// The container is thrown away.
    Oneway,
    /// The container goes back to the shop.
    Reusable,
    /// A kind of deposit that this library does not know.
    Unknown,
}

/// The kind of deposit that a code of the interface stands for.
pub open spec fn deposit_type_of(code: Seq<char>) -> BillaDepositType {
    if code == "ONEWAY"@ {
        BillaDepositType::Oneway
    } else if code == "REUSABLE"@ {
        BillaDepositType::Reusable
    } else {
        BillaDepositType::Unknown
    }
}

impl BillaDepositType {
    /// Reads a code of the interface. A code that is not known gives
    /// `Unknown`: the interface adds codes without notice.
    pub fn from_code(code: &str) -> (read: BillaDepositType)
        ensures
            read == deposit_type_of(code@),
    {
        if code.eq("ONEWAY") {
            BillaDepositType::Oneway
        } else if code.eq("REUSABLE") {
            BillaDepositType::Reusable
        } else {
            BillaDepositType::Unknown
        }
    }

    /// Whether the code that was read is one that this library knows.
    pub fn is_known(&self) -> (known: bool)
        ensures
            known == !(*self is Unknown),
    {
        match self {
            BillaDepositType::Unknown => false,
            _ => true,
        }
    }
}
/// How one item of a product is packed and counted.
#[derive(Copy, Clone, Debug, PartialEq, Eq, Structural)]
pub enum BillaPackageLabel {
    Bunch,
    Cup,
    Blister,
    Letter,
    Bag,
    Box,
    TinCan,
    Can,
    Bottle,
    Glas,
    Canister,
    Basket,
    Kilogram,
    Crate,
    Carton,
    Bucket,
    Net,
    Package,
    Slice,
    Bar,
    Roll,
    Sack,
    Tray,
    Spray,
    Piece,
    Tube,
    ChocolateBar,
    Jar,
    /// A package that this library does not know.
    Unknown,
}

/// The package that a code of the interface stands for, by its short or its
/// long form.
pub open spec fn package_label_of(code: Seq<char>) -> BillaPackageLabel {
    if code == "bd"@ || code == "Bund"@ {
        BillaPackageLabel::Bunch
    } else if code == "be"@ || code == "Becher"@ {
        BillaPackageLabel::Cup
    } else if code == "bl"@ || code == "Blister"@ {
        BillaPackageLabel::Blister
    } else if code == "br"@ || code == "Brief"@ {
        BillaPackageLabel::Letter
    } else if code == "bt"@ || code == "Beutel"@ {
        BillaPackageLabel::Bag
    } else if code == "bx"@ || code == "gk"@ || code == "sc"@ || code == "Box"@
        || code == "Geschenkkarton"@ || code == "Schachtel"@ {
        BillaPackageLabel::Box
    } else if code == "ct"@ || code == "Blechdose (ITA)"@ {
        BillaPackageLabel::TinCan
    } else if code == "ds"@ || code == "Dose"@ {
        BillaPackageLabel::Can
    } else if code == "fl"@ || code == "Flasche"@ {
        BillaPackageLabel::Bottle
    } else if code == "gl"@ || code == "Glas"@ {
        BillaPackageLabel::Glas
    } else if code == "ka"@ || code == "Kanister"@ {
        BillaPackageLabel::Canister
    } else if code == "kb"@ || code == "Korb"@ {
        BillaPackageLabel::Basket
    } else if code == "kg"@ || code == "Kilo"@ {
        BillaPackageLabel::Kilogram
    } else if code == "ki"@ || code == "Kiste"@ {
        BillaPackageLabel::Crate
    } else if code == "kt"@ || code == "Karton"@ {
        BillaPackageLabel::Carton
    } else if code == "ku"@ || code == "Kübel"@ {
        BillaPackageLabel::Bucket
    } else if code == "ne"@ || code == "nt"@ || code == "Netz"@ {
        BillaPackageLabel::Net
    } else if code == "pa"@ || code == "pk"@ || code == "pt"@ || code == "Packung"@
        || code == "Paket"@ {
        BillaPackageLabel::Package
    } else if code == "pl"@ || code == "Scheibe(SLK)"@ {
        BillaPackageLabel::Slice
    } else if code == "rg"@ || code == "Riegel"@ {
        BillaPackageLabel::Bar
    } else if code == "rl"@ || code == "Rolle"@ {
        BillaPackageLabel::Roll
    } else if code == "sa"@ || code == "Sack"@ {
        BillaPackageLabel::Sack
    } else if code == "se"@ || code == "ta"@ || code == "Schale"@ || code == "Tasse"@ {
        BillaPackageLabel::Tray
    } else if code == "sp"@ || code == "Spray"@ {
        BillaPackageLabel::Spray
    } else if code == "st"@ || code == "Stück"@ {
        BillaPackageLabel::Piece
    } else if code == "tb"@ || code == "Tube"@ {
        BillaPackageLabel::Tube
    } else if code == "tf"@ || code == "tu"@ || code == "Tafel"@ {
        BillaPackageLabel::ChocolateBar
    } else if code == "tg"@ || code == "Tiegel"@ {
        BillaPackageLabel::Jar
    } else {
        BillaPackageLabel::Unknown
    }
}

impl BillaPackageLabel {
    /// Reads a code of the interface. A code that is not known gives
    /// `Unknown`: the interface adds codes without notice.
    pub fn from_code(code: &str) -> (read: BillaPackageLabel)
        ensures
            read == package_label_of(code@),
    {
        if code.eq("bd") || code.eq("Bund") {
            BillaPackageLabel::Bunch
        } else if code.eq("be") || code.eq("Becher") {
            BillaPackageLabel::Cup
        } else if code.eq("bl") || code.eq("Blister") {
            BillaPackageLabel::Blister
        } else if code.eq("br") || code.eq("Brief") {
            BillaPackageLabel::Letter
        } else if code.eq("bt") || code.eq("Beutel") {
            BillaPackageLabel::Bag
        } else if code.eq("bx") || code.eq("gk") || code.eq("sc") || code.eq("Box")
            || code.eq("Geschenkkarton") || code.eq("Schachtel") {
            BillaPackageLabel::Box
        } else if code.eq("ct") || code.eq("Blechdose (ITA)") {
            BillaPackageLabel::TinCan
        } else if code.eq("ds") || code.eq("Dose") {
            BillaPackageLabel::Can
        } else if code.eq("fl") || code.eq("Flasche") {
            BillaPackageLabel::Bottle
        } else if code.eq("gl") || code.eq("Glas") {
            BillaPackageLabel::Glas
        } else if code.eq("ka") || code.eq("Kanister") {
            BillaPackageLabel::Canister
        } else if code.eq("kb") || code.eq("Korb") {
            BillaPackageLabel::Basket
        } else if code.eq("kg") || code.eq("Kilo") {
            BillaPackageLabel::Kilogram
        } else if code.eq("ki") || code.eq("Kiste") {
            BillaPackageLabel::Crate
        } else if code.eq("kt") || code.eq("Karton") {
            BillaPackageLabel::Carton
        } else if code.eq("ku") || code.eq("Kübel") {
            BillaPackageLabel::Bucket
        } else if code.eq("ne") || code.eq("nt") || code.eq("Netz") {
            BillaPackageLabel::Net
        } else if code.eq("pa") || code.eq("pk") || code.eq("pt") || code.eq("Packung")
            || code.eq("Paket") {
            BillaPackageLabel::Package
        } else if code.eq("pl") || code.eq("Scheibe(SLK)") {
            BillaPackageLabel::Slice
        } else if code.eq("rg") || code.eq("Riegel") {
            BillaPackageLabel::Bar
        } else if code.eq("rl") || code.eq("Rolle") {
            BillaPackageLabel::Roll
        } else if code.eq("sa") || code.eq("Sack") {
            BillaPackageLabel::Sack
        } else if code.eq("se") || code.eq("ta") || code.eq("Schale") || code.eq("Tasse") {
            BillaPackageLabel::Tray
        } else if code.eq("sp") || code.eq("Spray") {
            BillaPackageLabel::Spray
        } else if code.eq("st") || code.eq("Stück") {
            BillaPackageLabel::Piece
        } else if code.eq("tb") || code.eq("Tube") {
            BillaPackageLabel::Tube
        } else if code.eq("tf") || code.eq("tu") || code.eq("Tafel") {
            BillaPackageLabel::ChocolateBar
        } else if code.eq("tg") || code.eq("Tiegel") {
            BillaPackageLabel::Jar
        } else {
            BillaPackageLabel::Unknown
        }
    }

    /// Whether the code that was read is one that this library knows.
    pub fn is_known(&self) -> (known: bool)
        ensures
            known == !(*self is Unknown),
    {
        match self {
            BillaPackageLabel::Unknown => false,
            _ => true,
        }
    }
}
/// How a promotion applies to the number of items bought.
#[derive(Copy, Clone, Debug, PartialEq, Eq, Structural)]
pub enum BillaPromotionType {
    /// The lower price holds from a number of items on.
    From,
    /// The lower price holds for each full set of a number of items.
    PerSetOf,
    /// A kind of promotion that this library does not know.
    Unknown,
}

/// The kind of promotion that a code of the interface stands for.
pub open spec fn promotion_type_of(code: Seq<char>) -> BillaPromotionType {
    if code == "FROM"@ {
        BillaPromotionType::From
    } else if code == "PER_SET_OF"@ {
        BillaPromotionType::PerSetOf
    } else {
        BillaPromotionType::Unknown
    }
}

impl BillaPromotionType {
    /// Reads a code of the interface. A code that is not known gives
    /// `Unknown`: the interface adds codes without notice.
    pub fn from_code(code: &str) -> (read: BillaPromotionType)
        ensures
            read == promotion_type_of(code@),
    {
        if code.eq("FROM") {
            BillaPromotionType::From
        } else if code.eq("PER_SET_OF") {
            BillaPromotionType::PerSetOf
        } else {
            BillaPromotionType::Unknown
        }
    }

    /// Whether the code that was read is one that this library knows.
    pub fn is_known(&self) -> (known: bool)
        ensures
            known == !(*self is Unknown),
    {
        match self {
            BillaPromotionType::Unknown => false,
            _ => true,
        }
    }
}
/// The unit in which the amount of a product is counted.
#[derive(Copy, Clone, Debug, PartialEq, Eq, Structural)]
pub enum BillaVolumeLabel {
    Bunch,
    Sheet,
    Bag,
    Centimetre,
    Gram,
    Kilogram,
    Litre,
    Millilitre,
    Metre,
    Pair,
    Package,
    Portion,
    Roll,
    Piece,
    Teabag,
    Washload,
    /// A unit that this library does not know.
    Unknown,
}

/// The unit that a code of the interface stands for, by its short or its
/// long form.
pub open spec fn volume_label_of(code: Seq<char>) -> BillaVolumeLabel {
    if code == "bd"@ || code == "Bund"@ {
        BillaVolumeLabel::Bunch
    } else if code == "bl"@ || code == "Blatt"@ {
        BillaVolumeLabel::Sheet
    } else if code == "bt"@ || code == "Beutel"@ {
        BillaVolumeLabel::Bag
    } else if code == "cm"@ || code == "Zentimeter"@ {
        BillaVolumeLabel::Centimetre
    } else if code == "gr"@ || code == "g"@ || code == "Gramm"@ {
        BillaVolumeLabel::Gram
    } else if code == "kg"@ || code == "Kilogramm"@ {
        BillaVolumeLabel::Kilogram
    } else if code == "lt"@ || code == "liter"@ || code == "Liter"@ {
        BillaVolumeLabel::Litre
    } else if code == "ml"@ || code == "Milliliter"@ {
        BillaVolumeLabel::Millilitre
    } else if code == "mt"@ || code == "m"@ || code == "Meter"@ {
        BillaVolumeLabel::Metre
    } else if code == "pa"@ || code == "Paar"@ {
        BillaVolumeLabel::Pair
    } else if code == "pk"@ || code == "Packung"@ {
        BillaVolumeLabel::Package
    } else if code == "pt"@ || code == "Portion"@ {
        BillaVolumeLabel::Portion
    } else if code == "rl"@ || code == "Rollen"@ {
        BillaVolumeLabel::Roll
    } else if code == "st"@ || code == "stk"@ || code == "Stück"@ {
        BillaVolumeLabel::Piece
    } else if code == "tb"@ || code == "Teebeutel"@ {
        BillaVolumeLabel::Teabag
    } else if code == "wg"@ || code == "Waschgang"@ {
        BillaVolumeLabel::Washload
    } else {
        BillaVolumeLabel::Unknown
    }
}

impl BillaVolumeLabel {
    /// Reads a code of the interface. A code that is not known gives
    /// `Unknown`: the interface adds codes without notice.
    pub fn from_code(code: &str) -> (read: BillaVolumeLabel)
        ensures
            read == volume_label_of(code@),
    {
        if code.eq("bd") || code.eq("Bund") {
            BillaVolumeLabel::Bunch
        } else if code.eq("bl") || code.eq("Blatt") {
            BillaVolumeLabel::Sheet
        } else if code.eq("bt") || code.eq("Beutel") {
            BillaVolumeLabel::Bag
        } else if code.eq("cm") || code.eq("Zentimeter") {
            BillaVolumeLabel::Centimetre
        } else if code.eq("gr") || code.eq("g") || code.eq("Gramm") {
            BillaVolumeLabel::Gram
        } else if code.eq("kg") || code.eq("Kilogramm") {
            BillaVolumeLabel::Kilogram
        } else if code.eq("lt") || code.eq("liter") || code.eq("Liter") {
            BillaVolumeLabel::Litre
        } else if code.eq("ml") || code.eq("Milliliter") {
            BillaVolumeLabel::Millilitre
        } else if code.eq("mt") || code.eq("m") || code.eq("Meter") {
            BillaVolumeLabel::Metre
        } else if code.eq("pa") || code.eq("Paar") {
            BillaVolumeLabel::Pair
        } else if code.eq("pk") || code.eq("Packung") {
            BillaVolumeLabel::Package
        } else if code.eq("pt") || code.eq("Portion") {
            BillaVolumeLabel::Portion
        } else if code.eq("rl") || code.eq("Rollen") {
            BillaVolumeLabel::Roll
        } else if code.eq("st") || code.eq("stk") || code.eq("Stück") {
            BillaVolumeLabel::Piece
        } else if code.eq("tb") || code.eq("Teebeutel") {
            BillaVolumeLabel::Teabag
        } else if code.eq("wg") || code.eq("Waschgang") {
            BillaVolumeLabel::Washload
        } else {
            BillaVolumeLabel::Unknown
        }
    }

    /// Whether the code that was read is one that this library knows.
    pub fn is_known(&self) -> (known: bool)
        ensures
            known == !(*self is Unknown),
    {
        match self {
            BillaVolumeLabel::Unknown => false,
            _ => true,
        }
    }
}
/// The brand of a product.
#[derive(Debug)]
pub struct BillaBrand {
    pub name: String,
    pub slug: String,
}

/// One step of the path from the root of the categories to a product.
#[derive(Debug)]
pub struct BillaParentCategory {
    /// The key of the category, five digits.
    pub key: String,
    pub name: String,
    /// The name in lower case with hyphens, followed by the key.
    pub slug: String,
    pub order_hint: String,
}

/// A price in the minor unit of the currency, that is in cents.
#[derive(Copy, Clone, Debug, PartialEq, Eq, Structural)]
pub struct BillaPrice(pub u32);

/// The current price of a product and the promotion it is part of.
#[derive(Debug)]
pub struct BillaPriceItem {
    /// The price of one unit of measure, as it holds now.
    pub per_standardized_quantity: BillaPrice,
    /// The number of items from which the promotion applies.
    pub promotion_quantity: Option<BillaPrice>,
    pub promotion_text: Option<String>,
    pub promotion_type: Option<BillaPromotionType>,
    /// The price where the promotion does not apply.
    pub promotion_value: Option<BillaPrice>,
    /// The price of one unit of measure where the promotion does not apply.
    pub promotion_value_per_standardized_quantity: Option<BillaPrice>,
    pub tags: Vec<BillaPromotionTag>,
    /// The price of one item, as it holds now.
    pub value: BillaPrice,
}

/// What a product costs.
#[derive(Debug)]
pub struct BillaPriceInfo {
    /// The quantity that the price of one unit of measure refers to; absent
    /// where the shop shows no such price.
    pub base_price_factor: Option<String>,
    pub base_unit_long: String,
    pub base_unit_short: String,
    /// The price before the discount, where there is one.
    pub crossed: Option<BillaPrice>,
    /// The discount in percent, a negative number, where there is one.
    pub discount_percentage: Option<i32>,
    pub lowest_price: Option<BillaPrice>,
    pub regular: BillaPriceItem,
}

/// One product of the shop, as a page of results holds it.
#[derive(Debug)]
pub struct BillaProduct {
    /// The age in months from which the product may be bought.
    pub age_required_in_months: Option<u32>,
    /// The net quantity, in the unit of `volume_label_short` or
    /// `volume_label_key`. The interface writes it as text.
    pub amount: Decimal,
    pub badges: Vec<BillaBadge>,
    pub brand: Option<BillaBrand>,
    /// The name of the main category.
    pub category: String,
    /// One country, or several with commas between them.
    pub country_of_origin: Option<String>,
    pub deposit_type: Option<BillaDepositType>,
    pub description_short: Option<String>,
    pub description_long: Option<String>,
    /// The weight without the liquid that the product lies in.
    pub drained_weight: Option<Decimal>,
    pub images: Vec<String>,
    pub max_quantity: Option<Decimal>,
    pub medical: bool,
    pub min_quantity: Option<Decimal>,
    pub name: String,
    pub package_label: Option<BillaPackageLabel>,
    pub package_label_key: Option<BillaPackageLabel>,
    /// The paths of categories that lead to the product, each from the top
    /// down.
    pub parent_categories: Vec<Vec<BillaParentCategory>>,
    pub preparation_time: Option<Decimal>,
    pub price: BillaPriceInfo,
    pub product_id: String,
    pub product_marketing: Option<String>,
    pub purchased: bool,
    /// The step by which the quantity to buy goes up and down; in grams
    /// where the product is sold by weight and counted in kilograms.
    pub quantity_step_size: Option<Decimal>,
    /// The stock keeping unit.
    pub sku: String,
    /// The name and the stock keeping unit in one word; the address of the
    /// product's page ends in it.
    pub slug: String,
    pub upsell_sku: Option<String>,
    /// The unit in which `amount` is counted, which may be an arbitrary one
    /// such as tea bags.
    pub volume_label_key: BillaVolumeLabel,
    pub volume_label_long: BillaVolumeLabel,
    /// The metric unit of `amount`.
    pub volume_label_short: Option<BillaVolumeLabel>,
    /// The gross weight in kilograms.
    pub weight: Decimal,
    /// Whether the product is sold by weight.
    pub weight_article: bool,
    pub weight_per_piece: Decimal,
    pub weight_piece_article: bool,
}

/// Whether one of the tags is not known.
pub open spec fn has_unknown_tag(tags: Seq<BillaPromotionTag>) -> bool {
    exists|i: int| 0 <= i < tags.len() && tags[i] is Unknown
}

/// Whether one of the badges is not known.
pub open spec fn has_unknown_badge(badges: Seq<BillaBadge>) -> bool {
    exists|i: int| 0 <= i < badges.len() && badges[i] is Unknown
}

/// Whether the product carries a code that this library does not know: as a
/// badge, as the kind of its deposit, as the label of its package or volume,
/// or as the kind or a tag of its promotion.
pub open spec fn carries_unknown_code(product: BillaProduct) -> bool {
    ||| has_unknown_badge(product.badges@)
    ||| product.deposit_type == Some(BillaDepositType::Unknown)
    ||| product.package_label == Some(BillaPackageLabel::Unknown)
    ||| product.package_label_key == Some(BillaPackageLabel::Unknown)
    ||| product.price.regular.promotion_type == Some(BillaPromotionType::Unknown)
    ||| has_unknown_tag(product.price.regular.tags@)
    ||| product.volume_label_key is Unknown
    ||| product.volume_label_long is Unknown
    ||| product.volume_label_short == Some(BillaVolumeLabel::Unknown)
}

/// Tests whether one of the badges is not known.
fn any_unknown_badge(badges: &Vec<BillaBadge>) -> (found: bool)
    ensures
        found == has_unknown_badge(badges@),
{
    let mut i: usize = 0;
    while i < badges.len()
        invariant
            i <= badges.len(),
            forall|k: int| 0 <= k < i ==> !(badges@[k] is Unknown),
        decreases badges.len() - i,
    {
        if !badges[i].is_known() {
            return true;
        }
        i = i + 1;
    }
    false
}

/// Tests whether one of the tags is not known.
fn any_unknown_tag(tags: &Vec<BillaPromotionTag>) -> (found: bool)
    ensures
        found == has_unknown_tag(tags@),
{
    let mut i: usize = 0;
    while i < tags.len()
        invariant
            i <= tags.len(),
            forall|k: int| 0 <= k < i ==> !(tags@[k] is Unknown),
        decreases tags.len() - i,
    {
        match tags[i] {
            BillaPromotionTag::Unknown => {
                return true;
            },
            _ => {},
        }
        i = i + 1;
    }
    false
}

impl BillaProduct {
    /// Tests whether the product carries a code that this library does not
    /// know. Such a product is complete otherwise; the caller may count it.
    pub fn has_unknown_code(&self) -> (unknown: bool)
        ensures
            unknown == carries_unknown_code(*self),
    {
        let deposit = match self.deposit_type {
            Some(BillaDepositType::Unknown) => true,
            _ => false,
        };
        let package = match self.package_label {
            Some(BillaPackageLabel::Unknown) => true,
            _ => false,
        };
        let package_key = match self.package_label_key {
            Some(BillaPackageLabel::Unknown) => true,
            _ => false,
        };
        let promotion = match self.price.regular.promotion_type {
            Some(BillaPromotionType::Unknown) => true,
            _ => false,
        };
        let volume_short = match self.volume_label_short {
            Some(BillaVolumeLabel::Unknown) => true,
            _ => false,
        };
        any_unknown_badge(&self.badges) || deposit || package || package_key || promotion
            || any_unknown_tag(&self.price.regular.tags) || !self.volume_label_key.is_known()
            || !self.volume_label_long.is_known() || volume_short
    }
}

/// One value of a facet, with the number of products that have it.
#[derive(Debug)]
pub struct BillaFacetTerm {
    pub key: String,
    pub label: String,
    pub term: String,
    pub count: usize,
}

/// The range of a facet whose values are numbers.
#[derive(Debug)]
pub struct BillaFacetRange {
    pub key: String,
    pub label: String,
    pub count: usize,
    pub label_symbol: String,
    pub min: Decimal,
    pub max: Decimal,
}

/// A property of the products by which the results can be narrowed.
#[derive(Debug)]
pub struct BillaResultFacet {
    pub key: String,
    pub label: String,
    pub is_multi_select: bool,
    pub terms: Option<Vec<BillaFacetTerm>>,
    pub comparison_terms: Option<Vec<BillaFacetTerm>>,
    pub range: Option<BillaFacetRange>,
}

/// One page of search results, or the pages merged so far.
#[derive(Debug)]
pub struct BillaSearchResponse {
    /// The number of results that the last page said it holds, if it said so.
    pub count: Option<usize>,
    /// The number of results that the whole listing has.
    pub total: usize,
    /// The products found, in the order of arrival.
    pub results: Vec<BillaProduct>,
    /// The facets of each page, in the order of arrival.
    pub facets: Vec<BillaResultFacet>,
    /// The number of pages that are merged in this response: 1 in a page as
    /// it was received.
    pub pages: usize,
    /// The number of results that the pages before the last one brought: 0
    /// in a page as it was received.
    pub before: usize,
}

/// The mathematical value of a [`BillaSearchResponse`].
pub ghost struct BillaSearch {
    pub count: Option<nat>,
    pub total: usize,
    pub results: Seq<BillaProduct>,
    pub facets: Seq<BillaResultFacet>,
    pub pages: nat,
    pub before: nat,
}

/// Whether the response is one page as it was received.
pub open spec fn is_page(response: BillaSearch) -> bool {
    response.pages == 1 && response.before == 0
}

/// The number of results that the page merged last brought.
pub open spec fn brought(response: BillaSearch) -> nat {
    if response.before <= response.results.len() {
        (response.results.len() - response.before) as nat
    } else {
        0
    }
}

impl View for BillaSearchResponse {
    type V = BillaSearch;

    open spec fn view(&self) -> BillaSearch {
        BillaSearch {
            count: match self.count {
                Some(count) => Some(count as nat),
                None => None,
            },
            total: self.total,
            results: self.results@,
            facets: self.facets@,
            pages: self.pages as nat,
            before: self.before as nat,
        }
    }
}

impl BillaSearchResponse {
    /// One page as it was received, with the count and the total that it
    /// reports, its results and its facets.
    pub fn page(
        count: Option<usize>,
        total: usize,
        results: Vec<BillaProduct>,
        facets: Vec<BillaResultFacet>,
    ) -> (page: Self)
        ensures
            is_page(page@),
            page.count == count,
            page.total == total,
            page.results == results,
            page.facets == facets,
    {
        BillaSearchResponse { count, total, results, facets, pages: 1, before: 0 }
    }

    /// The number of products that carry a code which this library does not
    /// know.
    pub fn products_with_unknown_codes(&self) -> (count: usize)
        ensures
            count == self.results@.filter(
                |product: BillaProduct| carries_unknown_code(product),
            ).len(),
    {
        let ghost unknown = |product: BillaProduct| carries_unknown_code(product);
        let mut count: usize = 0;
        let mut i: usize = 0;
        while i < self.results.len()
            invariant
                i <= self.results.len(),
                count <= i,
                unknown == |product: BillaProduct| carries_unknown_code(product),
                count == self.results@.subrange(0, i as int).filter(unknown).len(),
            decreases self.results.len() - i,
        {
            proof {
                let seen = self.results@.subrange(0, i as int);
                assert(self.results@.subrange(0, i + 1) =~= seen.push(self.results@[i as int]));
                seen.lemma_filter_push(self.results@[i as int], unknown);
            }
            if self.results[i].has_unknown_code() {
                count = count + 1;
            }
            i = i + 1;
        }
        assert(self.results@.subrange(0, i as int) =~= self.results@);
        count
    }
}

impl Merge for BillaSearchResponse {
    /// Pages of one listing report the same total.
    open spec fn conflict(acc: BillaSearch, page: BillaSearch) -> Option<Error> {
        if acc.total == page.total {
            None
        } else {
            Some(
                Error::InconsistentTotal { expected: acc.total, found: page.total },
            )
        }
    }

    /// The pages of both and the results before the last page can be
    /// counted.
    open spec fn fits(acc: BillaSearch, page: BillaSearch) -> bool {
        acc.pages + page.pages <= usize::MAX && acc.results.len() + page.before <= usize::MAX
    }

    /// Results and facets follow one another in the order of arrival; the
    /// count is the page's; the pages of both are counted together; and the
    /// results before the last page are those of the accumulator and those
    /// before the last page of what is merged in.
    open spec fn merged(acc: BillaSearch, page: BillaSearch) -> BillaSearch {
        BillaSearch {
            count: page.count,
            total: acc.total,
            results: acc.results + page.results,
            facets: acc.facets + page.facets,
            pages: acc.pages + page.pages,
            before: acc.results.len() + page.before,
        }
    }

    fn mergeable(&self, rhs: &Self) -> (admitted: bool) {
        self.total != rhs.total || (rhs.pages <= usize::MAX - self.pages && rhs.before
            <= usize::MAX - self.results.len())
    }

    fn merge(&mut self, rhs: Self) -> (outcome: Result<(), Error>) {
        if self.total != rhs.total {
            return Err(Error::InconsistentTotal { expected: self.total, found: rhs.total });
        }
        let mut rhs = rhs;
        self.count = rhs.count;
        self.pages = self.pages + rhs.pages;
        self.before = self.results.len() + rhs.before;
        self.results.append(&mut rhs.results);
        self.facets.append(&mut rhs.facets);
        Ok(())
    }
}

impl Paginated for BillaSearchResponse {
    open spec fn initial_state() -> Continuation {
        Continuation::Offset(0)
    }

    /// The listing is done where the page merged last brought no results,
    /// whatever count it gave. Until then it goes on at the page whose number
    /// is the number of the pages merged so far.
    open spec fn continuation_of(acc: BillaSearch) -> Continuation {
        if brought(acc) == 0 {
            Continuation::Done
        } else {
            Continuation::Offset(acc.pages)
        }
    }

    fn initial() -> (state: ContinuationState) {
        ContinuationState::Offset(0)
    }

    fn continuation(&self) -> (state: ContinuationState) {
        if self.before >= self.results.len() {
            ContinuationState::Done
        } else {
            ContinuationState::Offset(self.pages)
        }
    }

    proof fn last_page_decides(acc: BillaSearch, page: BillaSearch) {
    }

    proof fn merge_associative(a: BillaSearch, b: BillaSearch, c: BillaSearch) {
        assert((a.results + b.results) + c.results =~= a.results + (b.results + c.results));
        assert((a.facets + b.facets) + c.facets =~= a.facets + (b.facets + c.facets));
    }
}

/// The results of each page, page by page.
pub open spec fn results_by_page(pages: Seq<BillaSearch>) -> Seq<Seq<BillaProduct>> {
    pages.map_values(|page: BillaSearch| page.results)
}

/// The number of results that the pages hold, taken together.
pub open spec fn results_in(pages: Seq<BillaSearch>) -> nat
    decreases pages.len(),
{
    if pages.len() == 0 {
        0
    } else {
        pages[0].results.len() + results_in(pages.drop_first())
    }
}

/// Whether all the pages report the total that the first of them reports.
pub open spec fn same_total(pages: Seq<BillaSearch>) -> bool {
    forall|i: int| 0 <= i < pages.len() ==> (#[trigger] pages[i]).total == pages[0].total
}

/// Whether each of the responses is one page as it was received.
pub open spec fn received(pages: Seq<BillaSearch>) -> bool {
    forall|i: int| 0 <= i < pages.len() ==> is_page(#[trigger] pages[i])
}

proof fn lemma_merge_all_results(first: BillaSearch, rest: Seq<BillaSearch>)
    requires
        forall|i: int| 0 <= i < rest.len() ==> (#[trigger] rest[i]).total == first.total,
        received(rest),
    ensures
        compatible::<BillaSearchResponse>(first, rest),
        merge_all::<BillaSearchResponse>(first, rest).results == first.results + results_by_page(
            rest,
        ).flatten(),
        merge_all::<BillaSearchResponse>(first, rest).results.len() == first.results.len()
            + results_in(rest),
        merge_all::<BillaSearchResponse>(first, rest).total == first.total,
        merge_all::<BillaSearchResponse>(first, rest).pages == first.pages + rest.len(),
        brought(merge_all::<BillaSearchResponse>(first, rest)) == if rest.len() == 0 {
            brought(first)
        } else {
            rest.last().results.len()
        },
    decreases rest.len(),
{
    if rest.len() > 0 {
        let tail = rest.drop_first();
        assert(is_page(rest[0]));
        assert forall|i: int| 0 <= i < tail.len() implies is_page(#[trigger] tail[i]) by {
            assert(tail[i] == rest[i + 1]);
        }
        lemma_merge_all_results(BillaSearchResponse::merged(first, rest[0]), tail);
        assert(results_by_page(rest).drop_first() =~= results_by_page(tail));
        assert(results_by_page(rest).first() == rest[0].results);
        if tail.len() > 0 {
            assert(tail.last() == rest.last());
        }
    }
}

/// Pages that report one total are gathered whole and in order. The first
/// `n` of them merge; the merged response holds the results of all of them
/// in the order of arrival, as many as the pages hold together; and a fetch
/// that receives the pages is complete after exactly `n` requests if and
/// only if the `n`-th page is the first that brings no results. Whether a
/// page gives a count, and which, has no part in it.
pub proof fn listing_is_gathered_until_empty_page(pages: Seq<BillaSearch>, n: int)
    requires
        1 <= n <= pages.len(),
        same_total(pages.take(n)),
        received(pages.take(n)),
    ensures
        compatible::<BillaSearchResponse>(pages[0], pages.subrange(1, n)),
        ({
            let whole = merge_all::<BillaSearchResponse>(pages[0], pages.subrange(1, n));
            &&& whole.results == results_by_page(pages.take(n)).flatten()
            &&& whole.results.len() == results_in(pages.take(n))
            &&& whole.total == pages[0].total
            &&& whole.pages == n
            &&& completes_with::<BillaSearchResponse>(None, answers(pages), n, whole) <==> {
                &&& pages[n - 1].results.len() == 0
                &&& forall|i: int| 0 <= i < n - 1 ==> (#[trigger] pages[i]).results.len() > 0
            }
        }),
{
    let first = pages[0];
    let rest = pages.subrange(1, n);
    let taken = pages.take(n);
    assert(is_page(taken[0]));
    assert forall|i: int| 0 <= i < rest.len() implies (#[trigger] rest[i]).total == first.total
        && is_page(rest[i]) by {
        assert(rest[i] == taken[i + 1]);
        assert(taken[0] == first);
    }
    lemma_merge_all_results(first, rest);
    assert(taken.drop_first() =~= rest);
    assert(results_by_page(taken).drop_first() =~= results_by_page(rest));
    assert forall|i: int| 0 <= i < n implies (ends_listing::<BillaSearchResponse>(
        #[trigger] pages[i],
    ) <==> pages[i].results.len() == 0) by {
        assert(is_page(taken[i]));
    }
    halts_at_first_final_page::<BillaSearchResponse>(pages, n);
}

/// The pages are asked for in turn. After `n` pages that report one total
/// and bring results, the listing goes on at the page of the number `n`, and
/// the request for it names that page: the first request asks for page 0,
/// and each request asks for the page after the one asked for before.
pub proof fn pages_are_asked_for_in_turn(pages: Seq<BillaSearch>, n: int)
    requires
        1 <= n <= pages.len(),
        same_total(pages.take(n)),
        received(pages.take(n)),
        forall|i: int| 0 <= i < n ==> (#[trigger] pages[i]).results.len() > 0,
    ensures
        products_request(BillaSearchResponse::initial_state())->0.query[0] == (
            "page"@,
            digits_of(0),
        ),
        BillaSearchResponse::continuation_of(
            merge_all::<BillaSearchResponse>(pages[0], pages.subrange(1, n)),
        ) == Continuation::Offset(n as nat),
        products_request(Continuation::Offset(n as nat))->0.query[0] == (
            "page"@,
            digits_of(n as nat),
        ),
{
    let first = pages[0];
    let rest = pages.subrange(1, n);
    let taken = pages.take(n);
    assert(is_page(taken[0]));
    assert forall|i: int| 0 <= i < rest.len() implies (#[trigger] rest[i]).total == first.total
        && is_page(rest[i]) by {
        assert(rest[i] == taken[i + 1]);
        assert(taken[0] == first);
    }
    lemma_merge_all_results(first, rest);
    if rest.len() > 0 {
        assert(rest.last() == pages[n - 1]);
    }
}

/// A changed total aborts the fetch. After pages that report one total and
/// bring results, a page that reports another total ends the fetch with the
/// failure that names both totals, at the request that the page answers.
pub proof fn changed_total_aborts_the_fetch(
    script: Seq<Result<BillaSearch, Error>>,
    pages: Seq<BillaSearch>,
    page: BillaSearch,
)
    requires
        1 <= pages.len() < script.len(),
        same_total(pages),
        received(pages),
        forall|i: int|
            0 <= i < pages.len() ==> script[i] == Ok::<BillaSearch, Error>(pages[i]) && (
            #[trigger] pages[i]).results.len() > 0,
        script[pages.len() as int] == Ok::<BillaSearch, Error>(page),
        page.total != pages[0].total,
    ensures
        run_spec::<BillaSearchResponse>(None, script) == Some(
            Progress::<BillaSearch>::Abort(
                Error::InconsistentTotal { expected: pages[0].total, found: page.total },
            ),
        ),
        requests_spec::<BillaSearchResponse>(None, script) == pages.len() + 1,
{
    let rest = pages.drop_first();
    assert forall|i: int| 0 <= i < rest.len() implies (#[trigger] rest[i]).total
        == pages[0].total && is_page(rest[i]) by {
        assert(rest[i] == pages[i + 1]);
    }
    lemma_merge_all_results(pages[0], rest);
    assert forall|i: int| 0 <= i < pages.len() implies !ends_listing::<BillaSearchResponse>(
        #[trigger] pages[i],
    ) by {
        assert(is_page(pages[i]));
    }
    first_failure_aborts::<BillaSearchResponse>(
        script,
        pages,
        Error::InconsistentTotal { expected: pages[0].total, found: page.total },
    );
}

/// Merging is associative when and only when the pages report one total.
/// Three pages merge, from the left as from the right, exactly if they report
/// the same total, and then both ways give the same response. Two pages with
/// differing totals do not merge: the attempt fails with both totals.
pub proof fn merge_is_associative_on_one_total(a: BillaSearch, b: BillaSearch, c: BillaSearch)
    ensures
        merges_left::<BillaSearchResponse>(a, b, c) <==> a.total == b.total && b.total == c.total,
        merges_right::<BillaSearchResponse>(a, b, c) <==> a.total == b.total && b.total == c.total,
        a.total == b.total && b.total == c.total ==> BillaSearchResponse::merged(
            BillaSearchResponse::merged(a, b),
            c,
        ) == BillaSearchResponse::merged(a, BillaSearchResponse::merged(b, c)),
        a.total != b.total ==> BillaSearchResponse::conflict(a, b) == Some(
            Error::InconsistentTotal { expected: a.total, found: b.total },
        ),
{
    BillaSearchResponse::merge_associative(a, b, c);
}

} // verus!
