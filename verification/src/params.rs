//! Defaults and bounds applied to the query parameters of list endpoints.

use vstd::prelude::*;

verus! {

/// The most rows a page of market orders holds, and the page size when
/// none is asked for.
pub const MAX_PAGE_SIZE: i64 = 100;

/// The page size served for a requested `limit`: 100 when none is given,
/// the requested value capped at 100 otherwise. A value at or below the cap
/// (zero and negative values included) is passed on unchanged.
pub open spec fn spec_page_limit(limit: Option<i64>) -> i64 {
    match limit {
        None => MAX_PAGE_SIZE,
        Some(l) => if l > MAX_PAGE_SIZE { MAX_PAGE_SIZE } else { l },
    }
}

/// The number of rows skipped for a requested `offset`: 0 when none is given.
pub open spec fn spec_page_offset(offset: Option<i64>) -> i64 {
    match offset {
        None => 0,
        Some(o) => o,
    }
}

/// The page size served for a requested `limit`.
pub fn page_limit(limit: Option<i64>) -> (r: i64)
    ensures
        r == spec_page_limit(limit),
        r <= MAX_PAGE_SIZE,
{
    match limit {
        None => MAX_PAGE_SIZE,
        Some(l) => if l > MAX_PAGE_SIZE { MAX_PAGE_SIZE } else { l },
    }
}

/// The number of rows skipped for a requested `offset`.
pub fn page_offset(offset: Option<i64>) -> (r: i64)
    ensures
        r == spec_page_offset(offset),
        offset is None ==> r == 0,
        offset matches Some(o) ==> r == o,
{
    match offset {
        None => 0,
        Some(o) => o,
    }
}

/// The language searched in when none is asked for.
pub open spec fn spec_default_lang() -> Seq<char> {
    seq!['E', 'N', '-', 'U', 'S']
}

/// The language served for a requested `lang`: the request's own, or
/// `"EN-US"` when none is given.
pub open spec fn spec_lang(lang: Option<Seq<char>>) -> Seq<char> {
    match lang {
        None => spec_default_lang(),
        Some(l) => l,
    }
}

/// The language served for a requested `lang`.
pub fn effective_lang(lang: Option<String>) -> (r: String)
    ensures
        r@ == spec_lang(
            match lang {
                None => None,
                Some(l) => Some(l@),
            },
        ),
{
    match lang {
        Some(l) => l,
        None => {
            let r = String::from_str("EN-US");
            proof {
                reveal_strlit("EN-US");
            }
            r
        },
    }
}

/// A page asked for with no limit holds the full 100 rows, a page never
/// holds more than 100, and a limit within the cap is kept as asked.
pub proof fn law_page_limit_bounded(limit: Option<i64>)
    ensures
        spec_page_limit(limit) <= MAX_PAGE_SIZE,
        MAX_PAGE_SIZE == 100,
        spec_page_limit(limit) <= 100,
        limit is None ==> spec_page_limit(limit) == 100,
        limit matches Some(l) ==> (l <= 100 ==> spec_page_limit(limit) == l),
        limit matches Some(l) ==> (l >= 100 ==> spec_page_limit(limit) == 100),
        limit is None ==> spec_page_limit(limit) == MAX_PAGE_SIZE,
        limit matches Some(l) ==> (l <= MAX_PAGE_SIZE ==> spec_page_limit(limit) == l),
        limit matches Some(l) ==> (l > MAX_PAGE_SIZE ==> spec_page_limit(limit) == MAX_PAGE_SIZE),
{
}

/// A page asked for with no offset starts at the first row, and an
/// offset that is given, whatever its size or sign, is passed on unchanged.
pub proof fn law_page_offset_passed_on(offset: Option<i64>)
    ensures
        offset is None ==> spec_page_offset(offset) == 0,
        offset matches Some(o) ==> spec_page_offset(offset) == o,
{
}

/// A request with no language is served in "EN-US", and a request with a
/// language is served in that language.
pub proof fn law_lang_default(lang: Option<Seq<char>>)
    ensures
        lang is None ==> spec_lang(lang) == "EN-US"@,
        lang matches Some(l) ==> spec_lang(lang) == l,
{
    reveal_strlit("EN-US");
}

} // verus!
