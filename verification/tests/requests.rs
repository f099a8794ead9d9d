use albion_market::routes::{
    answer, get_item_data, get_item_market_history, get_item_market_orders, get_location_by_id,
    get_locations, get_market_history_count, get_market_order_count, get_market_orders,
    search_items, DbRequest,
};
use albion_market::status::{QueryFailure, Status};

#[test]
fn status_codes() {
    assert_eq!(Status::BadRequest.code(), 400);
    assert_eq!(Status::NotFound.code(), 404);
    assert_eq!(Status::InternalServerError.code(), 500);
}

#[test]
fn search_items_defaults_language() {
    assert_eq!(
        search_items("bag".to_string(), None),
        DbRequest::SearchItemsByLocalizedName { lang: "EN-US".to_string(), item: "bag".to_string() }
    );
    assert_eq!(
        search_items("Tasche".to_string(), Some("DE-DE".to_string())),
        DbRequest::SearchItemsByLocalizedName {
            lang: "DE-DE".to_string(),
            item: "Tasche".to_string()
        }
    );
}

#[test]
fn item_market_orders_page_is_capped() {
    let r = get_item_market_orders(
        "T4_BAG".to_string(),
        Some(3005),
        Some("offer".to_string()),
        Some(2),
        None,
        Some(4),
        Some(500),
        None,
    );
    assert_eq!(
        r,
        DbRequest::MarketOrders {
            unique_name: "T4_BAG".to_string(),
            location_id: Some(3005),
            auction_type: Some("offer".to_string()),
            quality_level: Some(2),
            enchantment_level: None,
            tier: Some(4),
            limit: 100,
            offset: 0,
        }
    );
}

#[test]
fn item_market_orders_defaults() {
    let r = get_item_market_orders("X".to_string(), None, None, None, None, None, None, Some(20));
    assert_eq!(
        r,
        DbRequest::MarketOrders {
            unique_name: "X".to_string(),
            location_id: None,
            auction_type: None,
            quality_level: None,
            enchantment_level: None,
            tier: None,
            limit: 100,
            offset: 20,
        }
    );
}

#[test]
fn market_orders_defaults_language_and_page() {
    let r = get_market_orders(
        Some("bag".to_string()),
        None,
        None,
        Some("request".to_string()),
        None,
        Some(1),
        None,
        Some(10),
        Some(5),
    );
    assert_eq!(
        r,
        DbRequest::MarketOrdersWithLocalizedName {
            localized_name: Some("bag".to_string()),
            lang: "EN-US".to_string(),
            location_id: None,
            auction_type: Some("request".to_string()),
            quality_level: None,
            enchantment_level: Some(1),
            tier: None,
            limit: 10,
            offset: 5,
        }
    );
}

#[test]
fn single_item_requests() {
    assert_eq!(
        get_item_data("T4_BAG".to_string()),
        DbRequest::ItemDataByGroupName { item_group_name: "T4_BAG".to_string() }
    );
    assert_eq!(
        get_item_market_history("T4_BAG".to_string(), 2, Some(7), None),
        DbRequest::ItemMarketHistory {
            unique_name: "T4_BAG".to_string(),
            location_id: Some(7),
            quality_level: None
        }
    );
    assert_eq!(get_locations(Some(10)), DbRequest::Locations { min_market_orders: Some(10) });
    assert_eq!(get_location_by_id(3005), DbRequest::LocationById { id: 3005 });
}

#[test]
fn counts_fail_with_internal_error() {
    let c = get_market_order_count(Some("offer".to_string()));
    assert_eq!(c, DbRequest::MarketOrdersCount { auction_type: Some("offer".to_string()) });
    assert_eq!(c.failure_status(), Status::InternalServerError);
    assert_eq!(get_market_history_count(), DbRequest::MarketHistoriesCount);
    assert_eq!(get_market_history_count().failure_status(), Status::InternalServerError);
}

#[test]
fn lookups_fail_with_not_found() {
    assert_eq!(get_locations(None).failure_status(), Status::NotFound);
    assert_eq!(get_location_by_id(1).failure_status(), Status::NotFound);
    assert_eq!(search_items("a".to_string(), None).failure_status(), Status::NotFound);
    assert_eq!(get_item_data("a".to_string()).failure_status(), Status::NotFound);
}

#[test]
fn answer_passes_rows_or_failure_status() {
    let req = get_locations(None);
    assert_eq!(answer(&req, Ok::<Vec<i32>, QueryFailure>(vec![1, 2])), Ok(vec![1, 2]));
    assert_eq!(answer(&req, Err::<Vec<i32>, QueryFailure>(QueryFailure)), Err(Status::NotFound));
    let count = get_market_history_count();
    assert_eq!(
        answer(&count, Err::<Option<i64>, QueryFailure>(QueryFailure)),
        Err(Status::InternalServerError)
    );
}
