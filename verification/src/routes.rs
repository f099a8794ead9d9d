//! What each endpoint asks the store for, and what it answers when the
//! store does not give it rows. The service runs the query a request is
//! planned into and answers with the rows, or with the status that the
//! planned query's failure calls for.

use vstd::prelude::*;
use crate::params::{effective_lang, page_limit, page_offset, spec_lang, spec_page_limit, spec_page_offset};
use crate::stats::{parse_grouping, spec_grouping, Interval};
use crate::status::{QueryFailure, Status};

verus! {

/// The text view of an optional string.
pub open spec fn opt_view(o: Option<String>) -> Option<Seq<char>> {
    match o {
        None => None,
        Some(s) => Some(s@),
    }
}

/// A query against the store, with the values bound into it.
#[derive(Clone, Debug, PartialEq, Eq)]
pub enum DbRequest {
    /// The ten names in `lang` most similar to `item`.
    SearchItemsByLocalizedName { lang: String, item: String },
    /// The item data of an item group.
    ItemDataByGroupName { item_group_name: String },
    /// The live market orders of an item, filtered, cheapest first, paged.
    MarketOrders {
        unique_name: String,
        location_id: Option<i16>,
        auction_type: Option<String>,
        quality_level: Option<i16>,
        enchantment_level: Option<i16>,
        tier: Option<i16>,
        limit: i64,
        offset: i64,
    },
    /// Live market orders in `lang`, closest name first, filtered, paged.
    MarketOrdersWithLocalizedName {
        localized_name: Option<String>,
        lang: String,
        location_id: Option<i16>,
        auction_type: Option<String>,
        quality_level: Option<i16>,
        enchantment_level: Option<i16>,
        tier: Option<i16>,
        limit: i64,
        offset: i64,
    },
    /// All names of an item.
    LocalizedNames { unique_name: String },
    /// All descriptions of an item.
    LocalizedDescriptions { unique_name: String },
    /// The number of market orders, of one auction type if given.
    MarketOrdersCount { auction_type: Option<String> },
    /// The approximate number of market history records.
    MarketHistoriesCount,
    /// Market order counts per time bucket.
    MarketOrdersCountByDate { interval: Interval },
    /// Market order counts per time bucket and location.
    MarketOrdersCountByDateAndLocation { interval: Interval },
    /// Locations with at least the given number of market orders, if given.
    Locations { min_market_orders: Option<i32> },
    /// One location.
    LocationById { id: i16 },
    /// Price statistics of an item per time bucket.
    ItemStatsByDate { unique_name: String, interval: Interval },
    /// Price statistics of an item per time bucket and location.
    ItemStatsByDateAndLocation { unique_name: String, interval: Interval },
    /// Daily market history of an item, filtered.
    ItemMarketHistory {
        unique_name: String,
        location_id: Option<i16>,
        quality_level: Option<i16>,
    },
}

/// The status a request is answered with when its query fails: the two
/// counts, which the service always has, answer 500; every other query
/// answers 404.
pub open spec fn spec_failure_status(r: DbRequest) -> Status {
    match r {
        DbRequest::MarketOrdersCount { .. } => Status::InternalServerError,
        DbRequest::MarketHistoriesCount => Status::InternalServerError,
        _ => Status::NotFound,
    }
}

impl DbRequest {
    /// The status this request is answered with when its query fails.
    pub fn failure_status(&self) -> (s: Status)
        ensures
            s == spec_failure_status(*self),
    {
        match self {
            DbRequest::MarketOrdersCount { .. } => Status::InternalServerError,
            DbRequest::MarketHistoriesCount => Status::InternalServerError,
            _ => Status::NotFound,
        }
    }
}

/// The answer to a request given the outcome of its query: the rows when
/// the query gave them, the request's failure status when it failed.
pub fn answer<T>(request: &DbRequest, outcome: Result<T, QueryFailure>) -> (r: Result<T, Status>)
    ensures
        match outcome {
            Ok(rows) => r == Ok::<T, Status>(rows),
            Err(_) => r == Err::<T, Status>(spec_failure_status(*request)),
        },
{
    match outcome {
        Ok(rows) => Ok(rows),
        Err(_) => Err(request.failure_status()),
    }
}

/// `GET /items?name=..&lang=..`: search names in the asked language,
/// "EN-US" when none is asked for.
pub fn search_items(name: String, lang: Option<String>) -> (r: DbRequest)
    ensures
        r matches DbRequest::SearchItemsByLocalizedName { lang: l, item } && l@ == spec_lang(
            opt_view(lang),
        ) && item == name,
{
    DbRequest::SearchItemsByLocalizedName { lang: effective_lang(lang), item: name }
}

/// `GET /items/:id/data`: the item data of the named item group.
pub fn get_item_data(item_group_name: String) -> (r: DbRequest)
    ensures
        r == (DbRequest::ItemDataByGroupName { item_group_name }),
{
    DbRequest::ItemDataByGroupName { item_group_name }
}

/// `GET /items/:id/history`: the item's daily history, filtered by
/// location and quality where asked. The `timescale` parameter is read
/// but does not narrow the query.
pub fn get_item_market_history(
    unique_name: String,
    timescale: i16,
    location_id: Option<i16>,
    quality_level: Option<i16>,
) -> (r: DbRequest)
    ensures
        r == (DbRequest::ItemMarketHistory { unique_name, location_id, quality_level }),
{
    DbRequest::ItemMarketHistory { unique_name, location_id, quality_level }
}

/// `GET /items/:id/orders`: the item's live orders, filtered where asked,
/// in pages of at most 100 rows (100 when no limit is given), from the
/// start when no offset is given.
pub fn get_item_market_orders(
    unique_name: String,
    location_id: Option<i16>,
    auction_type: Option<String>,
    quality_level: Option<i16>,
    enchantment_level: Option<i16>,
    tier: Option<i16>,
    limit: Option<i64>,
    offset: Option<i64>,
) -> (r: DbRequest)
    ensures
        r == (DbRequest::MarketOrders {
            unique_name,
            location_id,
            auction_type,
            quality_level,
            enchantment_level,
            tier,
            limit: spec_page_limit(limit),
            offset: spec_page_offset(offset),
        }),
{
    DbRequest::MarketOrders {
        unique_name,
        location_id,
        auction_type,
        quality_level,
        enchantment_level,
        tier,
        limit: page_limit(limit),
        offset: page_offset(offset),
    }
}

/// `GET /orders`: live orders whose item name in the asked language
/// ("EN-US" when none is asked for) is closest to `item_name`, filtered
/// where asked, in pages of at most 100 rows, from the start when no
/// offset is given.
pub fn get_market_orders(
    item_name: Option<String>,
    lang: Option<String>,
    location_id: Option<i16>,
    auction_type: Option<String>,
    quality_level: Option<i16>,
    enchantment_level: Option<i16>,
    tier: Option<i16>,
    limit: Option<i64>,
    offset: Option<i64>,
) -> (r: DbRequest)
    ensures
        r matches DbRequest::MarketOrdersWithLocalizedName {
            localized_name: n,
            lang: l,
            location_id: loc,
            auction_type: a,
            quality_level: q,
            enchantment_level: e,
            tier: t,
            limit: lim,
            offset: off,
        } && n == item_name && l@ == spec_lang(opt_view(lang)) && loc == location_id && a
            == auction_type && q == quality_level && e == enchantment_level && t == tier && lim
            == spec_page_limit(limit) && off == spec_page_offset(offset),
{
    DbRequest::MarketOrdersWithLocalizedName {
        localized_name: item_name,
        lang: effective_lang(lang),
        location_id,
        auction_type,
        quality_level,
        enchantment_level,
        tier,
        limit: page_limit(limit),
        offset: page_offset(offset),
    }
}

/// `GET /locations?min_market_orders=..`.
pub fn get_locations(min_market_orders: Option<i32>) -> (r: DbRequest)
    ensures
        r == (DbRequest::Locations { min_market_orders }),
{
    DbRequest::Locations { min_market_orders }
}

/// `GET /locations/:id`.
pub fn get_location_by_id(location_id: i16) -> (r: DbRequest)
    ensures
        r == (DbRequest::LocationById { id: location_id }),
{
    DbRequest::LocationById { id: location_id }
}

/// The query a market-order statistics request with this `group_by` makes.
pub open spec fn spec_market_order_statistics(group_by: Seq<char>) -> Result<DbRequest, Status> {
    match spec_grouping(group_by) {
        Err(s) => Err(s),
        Ok(g) => if g.by_location {
            Ok(DbRequest::MarketOrdersCountByDateAndLocation { interval: g.interval })
        } else {
            Ok(DbRequest::MarketOrdersCountByDate { interval: g.interval })
        },
    }
}

/// `GET /statistics/orders?group_by=..`: order counts per hour, day, week
/// or month (the first of these words that occurs in `group_by`), also
/// per location when "location" occurs in it; 400 when it names no
/// interval.
pub fn get_market_order_statistics(group_by: &str) -> (r: Result<DbRequest, Status>)
    ensures
        r == spec_market_order_statistics(group_by@),
        match spec_grouping(group_by@) {
            Err(s) => r == Err::<DbRequest, Status>(s),
            Ok(g) => if g.by_location {
                r == Ok::<DbRequest, Status>(
                    DbRequest::MarketOrdersCountByDateAndLocation { interval: g.interval },
                )
            } else {
                r == Ok::<DbRequest, Status>(
                    DbRequest::MarketOrdersCountByDate { interval: g.interval },
                )
            },
        },
{
    match parse_grouping(group_by) {
        Err(s) => Err(s),
        Ok(g) => if g.by_location {
            Ok(DbRequest::MarketOrdersCountByDateAndLocation { interval: g.interval })
        } else {
            Ok(DbRequest::MarketOrdersCountByDate { interval: g.interval })
        },
    }
}

/// `GET /statistics/orders/count`: the number of orders, of one auction
/// type when one is given.
pub fn get_market_order_count(auction_type: Option<String>) -> (r: DbRequest)
    ensures
        r == (DbRequest::MarketOrdersCount { auction_type }),
{
    DbRequest::MarketOrdersCount { auction_type }
}

/// `GET /statistics/histories/count`.
pub fn get_market_history_count() -> (r: DbRequest)
    ensures
        r == DbRequest::MarketHistoriesCount,
{
    DbRequest::MarketHistoriesCount
}

/// `GET /statistics/items/:id?group_by=..`: the item's price statistics
/// per hour, day, week or month, also per location when "location" occurs
/// in `group_by`; 400 when it names no interval.
pub fn get_item_stats(unique_name: String, group_by: &str) -> (r: Result<DbRequest, Status>)
    ensures
        match spec_grouping(group_by@) {
            Err(s) => r == Err::<DbRequest, Status>(s),
            Ok(g) => if g.by_location {
                r == Ok::<DbRequest, Status>(
                    DbRequest::ItemStatsByDateAndLocation { unique_name, interval: g.interval },
                )
            } else {
                r == Ok::<DbRequest, Status>(
                    DbRequest::ItemStatsByDate { unique_name, interval: g.interval },
                )
            },
        },
{
    match parse_grouping(group_by) {
        Err(s) => Err(s),
        Ok(g) => if g.by_location {
            Ok(DbRequest::ItemStatsByDateAndLocation { unique_name, interval: g.interval })
        } else {
            Ok(DbRequest::ItemStatsByDate { unique_name, interval: g.interval })
        },
    }
}

/// A market-order statistics request counts in the buckets of the interval
/// its `group_by` names, split by location exactly when it asks so, and a
/// `group_by` that names no interval is refused.
pub proof fn law_order_statistics_follow_grouping(group_by: Seq<char>)
    ensures
        spec_grouping(group_by) matches Ok(g) ==> (g.by_location ==> spec_market_order_statistics(
            group_by,
        ) == Ok::<DbRequest, Status>(
            DbRequest::MarketOrdersCountByDateAndLocation { interval: g.interval },
        )),
        spec_grouping(group_by) matches Ok(g) ==> (!g.by_location ==> spec_market_order_statistics(
            group_by,
        ) == Ok::<DbRequest, Status>(DbRequest::MarketOrdersCountByDate { interval: g.interval })),
        spec_grouping(group_by) is Err ==> spec_market_order_statistics(group_by) == Err::<
            DbRequest,
            Status,
        >(Status::BadRequest),
{
}

/// Only the two counts, which the service always has, answer a failed
/// query with 500; a failed query of every other kind answers 404.
pub proof fn law_failure_status_by_kind(r: DbRequest)
    ensures
        spec_failure_status(r) == Status::InternalServerError <==> (r is MarketOrdersCount
            || r is MarketHistoriesCount),
        spec_failure_status(r) == Status::NotFound <==> !(r is MarketOrdersCount
            || r is MarketHistoriesCount),
        spec_failure_status(r) != Status::BadRequest,
{
}

/// A statistics request is never answered with 500: it is refused with
/// 400 before any query, or its query's failure answers 404.
pub proof fn law_statistics_failures(group_by: Seq<char>)
    ensures
        spec_market_order_statistics(group_by) matches Err(s) ==> s == Status::BadRequest,
        spec_market_order_statistics(group_by) matches Ok(req) ==> spec_failure_status(req)
            == Status::NotFound,
{
}

} // verus!
