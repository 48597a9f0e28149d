//! The canonical model: what every upstream listing is brought to.
//!
//! The entities hold no behaviour. Each says of itself what makes it well
//! formed, and a test for that stands beside it.

use crate::decimal::Decimal;
use vstd::prelude::*;
use vstd::string::StrSliceExecFns;

verus! {

/// A moment in universal time: the seconds since the start of 1970 and the
/// nanoseconds into the second.
#[derive(Copy, Clone, Debug, PartialEq, Eq, Structural)]
pub struct Timestamp {
    pub seconds: i64,
    pub nanos: u32,
}

impl Timestamp {
    /// Whether the nanoseconds are less than a second.
    pub open spec fn well_formed(&self) -> bool {
        self.nanos < 1_000_000_000
    }

    /// Tests whether the moment is well formed.
    pub fn is_valid(&self) -> (valid: bool)
        ensures
            valid == self.well_formed(),
    {
        self.nanos < 1_000_000_000
    }
}

/// A country of ISO 3166-1.
#[derive(Debug)]
pub struct Country {
    /// The numeric code.
    pub id: usize,
    /// The code of two letters.
    pub alpha2: String,
    /// The code of three letters.
    pub alpha3: String,
    /// The English name.
    pub name: String,
}

impl Country {
    /// Whether the codes have two and three characters.
    pub open spec fn well_formed(&self) -> bool {
        self.alpha2@.len() == 2 && self.alpha3@.len() == 3
    }

    /// Tests whether the country is well formed.
    pub fn is_valid(&self) -> (valid: bool)
        ensures
            valid == self.well_formed(),
    {
        self.alpha2.as_str().unicode_len() == 2 && self.alpha3.as_str().unicode_len() == 3
    }
}

/// A currency of ISO 4217.
#[derive(Debug)]
pub struct Currency {
    /// The numeric code.
    pub id: usize,
    /// The code of three letters.
    pub alpha3: String,
    /// The number of digits of the minor unit.
    pub scale: usize,
    pub symbol: String,
    /// The symbol of the minor unit.
    pub minor: Option<String>,
    /// The English name.
    pub name: String,
}

impl Currency {
    /// Whether the code has three characters.
    pub open spec fn well_formed(&self) -> bool {
        self.alpha3@.len() == 3
    }

    /// Tests whether the currency is well formed.
    pub fn is_valid(&self) -> (valid: bool)
        ensures
            valid == self.well_formed(),
    {
        self.alpha3.as_str().unicode_len() == 3
    }
}

/// A language of ISO 639.
#[derive(Debug)]
pub struct Language {
    /// The numeric code.
    pub id: usize,
    /// The code of two letters of ISO 639-1.
    pub alpha2: String,
    /// The code of three letters of ISO 639-2.
    pub alpha3: String,
    /// The English name.
    pub name: String,
}

impl Language {
    /// Whether the codes have two and three characters.
    pub open spec fn well_formed(&self) -> bool {
        self.alpha2@.len() == 2 && self.alpha3@.len() == 3
    }

    /// Tests whether the language is well formed.
    pub fn is_valid(&self) -> (valid: bool)
        ensures
            valid == self.well_formed(),
    {
        self.alpha2.as_str().unicode_len() == 2 && self.alpha3.as_str().unicode_len() == 3
    }
}

/// A unit in which stores measure their packages.
#[derive(Debug)]
pub struct MeasurementUnit {
    pub id: usize,
    pub symbol: String,
    /// The English name.
    pub name: String,
}

/// Whether `symbol` is the symbol of a unit of weight: of the milligram,
/// the gram, the decagram, the kilogram or the tonne.
pub open spec fn is_weight_symbol(symbol: Seq<char>) -> bool {
    symbol == "mg"@ || symbol == "g"@ || symbol == "dag"@ || symbol == "kg"@ || symbol == "t"@
}

impl MeasurementUnit {
    /// Whether the unit measures weight, which its symbol says.
    pub open spec fn weight_like(&self) -> bool {
        is_weight_symbol(self.symbol@)
    }

    /// Tests whether the unit measures weight.
    pub fn is_weight_like(&self) -> (weight: bool)
        ensures
            weight == self.weight_like(),
    {
        let symbol = self.symbol.as_str();
        symbol.eq("mg") || symbol.eq("g") || symbol.eq("dag") || symbol.eq("kg") || symbol.eq("t")
    }
}

/// A place in the world. Only the country is always known.
#[derive(Debug)]
pub struct Place {
    pub id: usize,
    pub country: Country,
    /// The region, county or state.
    pub admin_area: Option<String>,
    /// The city, municipality or town.
    pub locality: Option<String>,
    pub postal_code: Option<String>,
    pub street_address: Option<String>,
}

impl Place {
    /// Whether the country of the place is well formed.
    pub open spec fn well_formed(&self) -> bool {
        self.country.well_formed()
    }

    /// Tests whether the place is well formed.
    pub fn is_valid(&self) -> (valid: bool)
        ensures
            valid == self.well_formed(),
    {
        self.country.is_valid()
    }
}

/// A company somewhere in the supply chain: a retailer or a brand.
#[derive(Debug)]
pub struct Company {
    pub id: usize,
    pub long_name: Option<String>,
    /// The name by which the company is found again.
    pub short_name: String,
    /// Where the company has its seat.
    pub place: Option<Place>,
}

impl Company {
    /// Whether the company has a short name, and a well-formed seat where it
    /// has one.
    pub open spec fn well_formed(&self) -> bool {
        &&& self.short_name@.len() > 0
        &&& self.place matches Some(place) ==> place.well_formed()
    }

    /// Tests whether the company is well formed.
    pub fn is_valid(&self) -> (valid: bool)
        ensures
            valid == self.well_formed(),
    {
        let seated = match &self.place {
            Some(place) => place.is_valid(),
            None => true,
        };
        self.short_name.as_str().unicode_len() > 0 && seated
    }
}

/// The interest that one company takes in another.
#[derive(Debug)]
pub struct CompanyParticipation {
    pub stakeholder: Company,
    pub company: Company,
}

/// A company that runs stores.
#[derive(Debug)]
pub struct Retailer {
    pub company: Company,
    pub website_url: Option<String>,
}

/// A company under whose name articles are sold.
#[derive(Debug)]
pub struct Brand {
    pub company: Company,
    pub logo_url: Option<String>,
}

/// A category that articles belong to.
#[derive(Debug)]
pub struct Category {
    pub id: usize,
    pub name: String,
    pub description: Option<String>,
}

/// An article that stores sell.
#[derive(Debug)]
pub struct Article {
    pub id: usize,
    pub brand: Option<Brand>,
    /// The name without brand, quantity or unit.
    pub name: String,
    pub description: Option<String>,
    pub origin_country: Option<Country>,
    pub unit: MeasurementUnit,
    /// The quantity in the unit, which is more than nothing.
    pub quantity: Decimal,
    /// Whether the article is sold by weight; then its unit is one of
    /// weight.
    pub weightable: bool,
}

impl Article {
    /// Whether the quantity is greater than 0, an article that is sold by
    /// weight is measured in a unit of weight, and the brand and the country
    /// of origin are well formed where they are known.
    pub open spec fn well_formed(&self) -> bool {
        &&& self.quantity.mantissa > 0
        &&& self.weightable ==> self.unit.weight_like()
        &&& self.brand matches Some(brand) ==> brand.company.well_formed()
        &&& self.origin_country matches Some(country) ==> country.well_formed()
    }

    /// Tests whether the article is well formed.
    pub fn is_valid(&self) -> (valid: bool)
        ensures
            valid == self.well_formed(),
    {
        let branded = match &self.brand {
            Some(brand) => brand.company.is_valid(),
            None => true,
        };
        let rooted = match &self.origin_country {
            Some(country) => country.is_valid(),
            None => true,
        };
        let weighed = !self.weightable || self.unit.is_weight_like();
        self.quantity.is_positive() && weighed && branded && rooted
    }
}

/// That an article belongs to a category.
#[derive(Debug)]
pub struct ArticleCategory {
    pub article: Article,
    pub category: Category,
}

/// An image that is known of an article.
#[derive(Debug)]
pub struct ArticleImage {
    pub article: Article,
    pub id: usize,
    pub image_url: String,
}

/// A place where a retailer sells, be it a shop or an online store. Of an
/// online store the location names at least the country it sells to.
#[derive(Debug)]
pub struct Store {
    pub id: usize,
    pub retailer: Retailer,
    pub location: Place,
    pub currency: Currency,
    pub language: Language,
}

impl Store {
    /// Whether the retailer, the location, the currency and the language are
    /// well formed.
    pub open spec fn well_formed(&self) -> bool {
        &&& self.retailer.company.well_formed()
        &&& self.location.well_formed()
        &&& self.currency.well_formed()
        &&& self.language.well_formed()
    }

    /// Tests whether the store is well formed.
    pub fn is_valid(&self) -> (valid: bool)
        ensures
            valid == self.well_formed(),
    {
        self.retailer.company.is_valid() && self.location.is_valid() && self.currency.is_valid()
            && self.language.is_valid()
    }
}

/// The article that a store means by one of its own identifiers.
#[derive(Debug)]
pub struct StoreArticleMap {
    pub store: Store,
    /// The identifier that the store uses.
    pub store_article_id: String,
    pub article: Article,
    /// When the article was first seen at the store.
    pub since: Timestamp,
}

/// The category that a store means by one of its own identifiers.
#[derive(Debug)]
pub struct StoreCategoryMap {
    pub store: Store,
    /// The identifier that the store uses.
    pub store_category_id: String,
    pub category: Category,
}

/// What an article costs at a store now, in the minor unit of the store's
/// currency.
#[derive(Debug)]
pub struct CurrentPrice {
    pub store: Store,
    pub article: Article,
    pub value: u64,
    /// When the value last became another.
    pub changed_at: Timestamp,
    /// When the value was last looked up.
    pub updated_at: Timestamp,
}

/// What an article cost at a store from some moment on, in the minor unit of
/// the store's currency. Recorded prices are added and never changed.
#[derive(Debug)]
pub struct RecordedPrice {
    pub store: Store,
    pub article: Article,
    pub changed_at: Timestamp,
    pub value: u64,
}

} // verus!
