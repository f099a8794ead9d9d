use albion_market::routes::{get_item_stats, get_market_order_statistics, DbRequest};
use albion_market::stats::{interval_for, parse_grouping, Grouping, Interval};
use albion_market::status::Status;

#[test]
fn interval_words_are_found_anywhere() {
    assert_eq!(interval_for("hour"), Some(Interval::Hour));
    assert_eq!(interval_for("by_day"), Some(Interval::Day));
    assert_eq!(interval_for("weekly"), Some(Interval::Week));
    assert_eq!(interval_for("month_and_location"), Some(Interval::Month));
}

#[test]
fn interval_earlier_word_wins() {
    assert_eq!(interval_for("month_day_hour"), Some(Interval::Hour));
    assert_eq!(interval_for("week_day"), Some(Interval::Day));
    assert_eq!(interval_for("month_week"), Some(Interval::Week));
}

#[test]
fn interval_absent_or_other_case() {
    assert_eq!(interval_for("year"), None);
    assert_eq!(interval_for("HOUR"), None);
    assert_eq!(interval_for(""), None);
    assert_eq!(interval_for("location"), None);
}

#[test]
fn interval_text_for_buckets() {
    assert_eq!(Interval::Hour.as_str(), "1 hour");
    assert_eq!(Interval::Day.as_str(), "1 day");
    assert_eq!(Interval::Week.as_str(), "1 week");
    assert_eq!(Interval::Month.as_str(), "1 month");
}

#[test]
fn grouping_splits_by_location_when_asked() {
    assert_eq!(
        parse_grouping("day_location"),
        Ok(Grouping { interval: Interval::Day, by_location: true })
    );
    assert_eq!(
        parse_grouping("day"),
        Ok(Grouping { interval: Interval::Day, by_location: false })
    );
    assert_eq!(parse_grouping("location"), Err(Status::BadRequest));
}

#[test]
fn order_statistics_requests() {
    assert_eq!(
        get_market_order_statistics("hour"),
        Ok(DbRequest::MarketOrdersCountByDate { interval: Interval::Hour })
    );
    assert_eq!(
        get_market_order_statistics("week,location"),
        Ok(DbRequest::MarketOrdersCountByDateAndLocation { interval: Interval::Week })
    );
    assert_eq!(get_market_order_statistics("quarter"), Err(Status::BadRequest));
}

#[test]
fn item_statistics_requests() {
    assert_eq!(
        get_item_stats("T4_BAG".to_string(), "month"),
        Ok(DbRequest::ItemStatsByDate { unique_name: "T4_BAG".to_string(), interval: Interval::Month })
    );
    assert_eq!(
        get_item_stats("T4_BAG".to_string(), "location_day"),
        Ok(DbRequest::ItemStatsByDateAndLocation {
            unique_name: "T4_BAG".to_string(),
            interval: Interval::Day
        })
    );
    assert_eq!(get_item_stats("T4_BAG".to_string(), "minute"), Err(Status::BadRequest));
}

#[test]
fn statistics_failure_answers_not_found() {
    let req = get_market_order_statistics("day").unwrap();
    assert_eq!(req.failure_status(), Status::NotFound);
}
