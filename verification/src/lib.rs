//! Normalisation of product and price listings from several retail search
//! interfaces: the canonical data model, the wire shapes of each upstream
//! family, the merge of successive result pages and the pagination engine
//! that decides when a listing is complete.

pub mod error;
pub mod providers;
pub mod pagination;
pub mod decimal;
pub mod text;
pub mod fetcher;
pub mod importer;
pub mod models;
pub mod schema;
