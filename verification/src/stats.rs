//! How a statistics request's `group_by` parameter selects the time bucket
//! and whether counts are split by location.

use vstd::prelude::*;
use crate::status::Status;
use crate::text::{contains_str, seq_contains};

verus! {

/// The width of the time buckets statistics are summed over.
#[derive(Clone, Copy, Debug, PartialEq, Eq)]
pub enum Interval {
    Hour,
    Day,
    Week,
    Month,
}

/// The interval text handed to the store's time bucketing.
pub open spec fn interval_text(i: Interval) -> Seq<char> {
    match i {
        Interval::Hour => "1 hour"@,
        Interval::Day => "1 day"@,
        Interval::Week => "1 week"@,
        Interval::Month => "1 month"@,
    }
}

impl Interval {
    /// The interval text handed to the store's time bucketing.
    pub fn as_str(&self) -> (s: &'static str)
        ensures
            s@ == interval_text(*self),
    {
        match self {
            Interval::Hour => "1 hour",
            Interval::Day => "1 day",
            Interval::Week => "1 week",
            Interval::Month => "1 month",
        }
    }
}

/// The interval a `group_by` value names: the first of "hour", "day",
/// "week" and "month", in that order, that occurs anywhere in it.
pub open spec fn spec_interval_for(group_by: Seq<char>) -> Option<Interval> {
    if seq_contains(group_by, "hour"@) {
        Some(Interval::Hour)
    } else if seq_contains(group_by, "day"@) {
        Some(Interval::Day)
    } else if seq_contains(group_by, "week"@) {
        Some(Interval::Week)
    } else if seq_contains(group_by, "month"@) {
        Some(Interval::Month)
    } else {
        None
    }
}

/// A statistics grouping: the bucket width, and whether counts are
/// also split by location.
#[derive(Clone, Copy, Debug, PartialEq, Eq)]
pub struct Grouping {
    pub interval: Interval,
    pub by_location: bool,
}

/// The grouping a `group_by` value asks for: its interval, split by
/// location exactly when "location" occurs in it; a value that names no
/// interval is a bad request.
pub open spec fn spec_grouping(group_by: Seq<char>) -> Result<Grouping, Status> {
    match spec_interval_for(group_by) {
        None => Err(Status::BadRequest),
        Some(interval) => Ok(
            Grouping { interval, by_location: seq_contains(group_by, "location"@) },
        ),
    }
}

/// The interval a `group_by` value names, if any.
pub fn interval_for(group_by: &str) -> (r: Option<Interval>)
    ensures
        r == spec_interval_for(group_by@),
{
    if contains_str(group_by, "hour") {
        Some(Interval::Hour)
    } else if contains_str(group_by, "day") {
        Some(Interval::Day)
    } else if contains_str(group_by, "week") {
        Some(Interval::Week)
    } else if contains_str(group_by, "month") {
        Some(Interval::Month)
    } else {
        None
    }
}

/// The grouping a `group_by` value asks for, or `BadRequest` when it
/// names no interval.
pub fn parse_grouping(group_by: &str) -> (r: Result<Grouping, Status>)
    ensures
        r == spec_grouping(group_by@),
{
    match interval_for(group_by) {
        None => Err(Status::BadRequest),
        Some(interval) => Ok(Grouping { interval, by_location: contains_str(group_by, "location") }),
    }
}

/// A `group_by` value is refused exactly when none of the four interval
/// words occurs in it, and an earlier word in the order hour, day, week,
/// month wins over a later one.
pub proof fn law_grouping_priority(group_by: Seq<char>)
    ensures
        spec_grouping(group_by) is Err <==> (!seq_contains(group_by, "hour"@) && !seq_contains(
            group_by,
            "day"@,
        ) && !seq_contains(group_by, "week"@) && !seq_contains(group_by, "month"@)),
        spec_grouping(group_by) is Err ==> spec_grouping(group_by) == Err::<Grouping, Status>(
            Status::BadRequest,
        ),
        seq_contains(group_by, "hour"@) ==> (spec_grouping(group_by) matches Ok(g)
            && g.interval == Interval::Hour),
        !seq_contains(group_by, "hour"@) && seq_contains(group_by, "day"@) ==> (spec_grouping(
            group_by,
        ) matches Ok(g) && g.interval == Interval::Day),
        !seq_contains(group_by, "hour"@) && !seq_contains(group_by, "day"@) && seq_contains(
            group_by,
            "week"@,
        ) ==> (spec_grouping(group_by) matches Ok(g) && g.interval == Interval::Week),
        !seq_contains(group_by, "hour"@) && !seq_contains(group_by, "day"@) && !seq_contains(
            group_by,
            "week"@,
        ) && seq_contains(group_by, "month"@) ==> (spec_grouping(group_by) matches Ok(g)
            && g.interval == Interval::Month),
        spec_grouping(group_by) matches Ok(g) ==> g.by_location == seq_contains(
            group_by,
            "location"@,
        ),
{
}

/// The four intervals are bucketed by four different texts: one hour, one
/// day, one week and one month.
pub proof fn law_interval_texts(i: Interval, j: Interval)
    ensures
        i == Interval::Hour ==> interval_text(i) == "1 hour"@,
        i == Interval::Day ==> interval_text(i) == "1 day"@,
        i == Interval::Week ==> interval_text(i) == "1 week"@,
        i == Interval::Month ==> interval_text(i) == "1 month"@,
        interval_text(i) == interval_text(j) ==> i == j,
{
    reveal_strlit("1 hour");
    reveal_strlit("1 day");
    reveal_strlit("1 week");
    reveal_strlit("1 month");
    if i != j {
        assert(interval_text(i).len() != interval_text(j).len() || interval_text(i)[2]
            != interval_text(j)[2]);
    }
}

} // verus!
