//! The records the service reads from its store and answers with.

use vstd::prelude::*;
use crate::lang_table::LangTable;

verus! {

/// An item, known by its unique name.
#[derive(Clone, Debug, PartialEq, Eq)]
pub struct Item {
    pub unique_name: String,
}

/// The name of an item in one language.
#[derive(Clone, Debug, PartialEq, Eq)]
pub struct LocalizedName {
    pub item_unique_name: String,
    pub lang: String,
    pub name: String,
}

/// The description of an item in one language.
#[derive(Clone, Debug, PartialEq, Eq)]
pub struct LocalizedDescription {
    pub item_unique_name: String,
    pub lang: String,
    pub description: String,
}

/// All names and descriptions of an item, each keyed by language.
#[derive(Debug)]
pub struct Localizations {
    pub unique_name: String,
    pub names: LangTable,
    pub descriptions: LangTable,
}

/// The name and description of an item in one language, where known.
#[derive(Clone, Debug, PartialEq, Eq)]
pub struct LocalizationResponse {
    pub unique_name: String,
    pub name: Option<LocalizedName>,
    pub description: Option<LocalizedDescription>,
}

/// The number of market orders.
#[derive(Clone, Copy, Debug, PartialEq, Eq)]
pub struct MarketOrderCount {
    pub count: Option<i64>,
}

/// The number of market history records.
#[derive(Clone, Copy, Debug, PartialEq, Eq)]
pub struct MarketHistoryCount {
    pub count: Option<i64>,
}

/// The number of market orders for one item.
#[derive(Clone, Debug, PartialEq, Eq)]
pub struct MarketOrderCountByItem {
    pub item_unique_name: String,
    pub count: Option<i64>,
}

/// The number of market orders at one location.
#[derive(Clone, Debug, PartialEq, Eq)]
pub struct MarketOrderCountByLocation {
    pub location: Option<String>,
    pub count: Option<i64>,
}

/// The number of market orders of one auction type.
#[derive(Clone, Debug, PartialEq, Eq)]
pub struct MarketOrderCountByAuctionType {
    pub auction_type: String,
    pub count: Option<i64>,
}

/// The number of market orders at one quality level.
#[derive(Clone, Copy, Debug, PartialEq, Eq)]
pub struct MarketOrderCountByQualityLevel {
    pub quality_level: i32,
    pub count: Option<i64>,
}

/// The number of market orders at one enchantment level.
#[derive(Clone, Copy, Debug, PartialEq, Eq)]
pub struct MarketOrderCountByEnchantmentLevel {
    pub enchantment_level: i32,
    pub count: Option<i64>,
}

/// A market location.
#[derive(Clone, Debug, PartialEq, Eq)]
pub struct Location {
    pub id: i16,
    pub name: String,
}

} // verus!
