//! `GET /items/:id/localizations`: the names of an item are read first,
//! then its descriptions; a failed read answers 404 at once, and otherwise
//! the answer holds, per language, the text of the last row read in that
//! language.

use vstd::prelude::*;
use crate::lang_table::{keys_of, lemma_pairs_to_map_domain, pairs_to_map, LangTable};
use crate::models::{LocalizedDescription, LocalizedName, Localizations};
use crate::routes::{answer, DbRequest};
use crate::status::{QueryFailure, Status};

verus! {

/// The (language, name) pairs of name rows, in row order.
pub open spec fn name_pairs(rows: Seq<LocalizedName>) -> Seq<(Seq<char>, Seq<char>)> {
    rows.map_values(|r: LocalizedName| (r.lang@, r.name@))
}

/// The (language, description) pairs of description rows, in row order.
pub open spec fn description_pairs(rows: Seq<LocalizedDescription>) -> Seq<(Seq<char>, Seq<char>)> {
    rows.map_values(|r: LocalizedDescription| (r.lang@, r.description@))
}

/// The table of an item's names, the last row in a language giving its name.
pub fn names_table(rows: &Vec<LocalizedName>) -> (t: LangTable)
    ensures
        t@ == pairs_to_map(name_pairs(rows@)),
{
    let mut t = LangTable::new();
    let n = rows.len();
    let mut i: usize = 0;
    while i < n
        invariant
            n == rows@.len(),
            i <= n,
            t@ == pairs_to_map(name_pairs(rows@).take(i as int)),
        decreases n - i,
    {
        let lang = rows[i].lang.clone();
        let name = rows[i].name.clone();
        proof {
            assert(name_pairs(rows@).take(i + 1).drop_last() =~= name_pairs(rows@).take(i as int));
        }
        t.insert(lang, name);
        i = i + 1;
    }
    assert(name_pairs(rows@).take(n as int) =~= name_pairs(rows@));
    t
}

/// The table of an item's descriptions, the last row in a language giving
/// its description.
pub fn descriptions_table(rows: &Vec<LocalizedDescription>) -> (t: LangTable)
    ensures
        t@ == pairs_to_map(description_pairs(rows@)),
{
    let mut t = LangTable::new();
    let n = rows.len();
    let mut i: usize = 0;
    while i < n
        invariant
            n == rows@.len(),
            i <= n,
            t@ == pairs_to_map(description_pairs(rows@).take(i as int)),
        decreases n - i,
    {
        let lang = rows[i].lang.clone();
        let description = rows[i].description.clone();
        proof {
            assert(description_pairs(rows@).take(i + 1).drop_last() =~= description_pairs(
                rows@,
            ).take(i as int));
        }
        t.insert(lang, description);
        i = i + 1;
    }
    assert(description_pairs(rows@).take(n as int) =~= description_pairs(rows@));
    t
}

/// The state between the two reads: the item asked for and its names.
#[derive(Debug)]
pub struct AwaitingDescriptions {
    pub unique_name: String,
    pub names: LangTable,
}

/// What follows the read of an item's names.
#[derive(Debug)]
pub enum AfterNames {
    /// Read the descriptions with `request`, then finish from `state`.
    FetchDescriptions { state: AwaitingDescriptions, request: DbRequest },
    /// Answer with this status; nothing more is read.
    Respond(Status),
}

/// The first read a localization request makes: the item's names.
pub fn get_item_localizations(unique_name: String) -> (r: DbRequest)
    ensures
        r == (DbRequest::LocalizedNames { unique_name }),
{
    DbRequest::LocalizedNames { unique_name }
}

/// The step after the names were read: a failed read answers 404; rows go
/// into the names table and the descriptions are read next.
pub fn localizations_after_names(
    unique_name: String,
    names: Result<Vec<LocalizedName>, QueryFailure>,
) -> (r: AfterNames)
    ensures
        match names {
            Err(_) => r == AfterNames::Respond(Status::NotFound),
            Ok(rows) => r matches AfterNames::FetchDescriptions { state, request }
                && state.unique_name == unique_name && state.names@ == pairs_to_map(
                name_pairs(rows@),
            ) && request == (DbRequest::LocalizedDescriptions { unique_name }),
        },
{
    let names_request = DbRequest::LocalizedNames { unique_name: unique_name.clone() };
    match answer(&names_request, names) {
        Err(s) => AfterNames::Respond(s),
        Ok(rows) => {
            let table = names_table(&rows);
            let request = DbRequest::LocalizedDescriptions { unique_name: unique_name.clone() };
            AfterNames::FetchDescriptions {
                state: AwaitingDescriptions { unique_name, names: table },
                request,
            }
        },
    }
}

/// The step after the descriptions were read: a failed read answers 404;
/// otherwise the answer is the item's names and descriptions tables.
pub fn localizations_after_descriptions(
    state: AwaitingDescriptions,
    descriptions: Result<Vec<LocalizedDescription>, QueryFailure>,
) -> (r: Result<Localizations, Status>)
    ensures
        match descriptions {
            Err(_) => r matches Err(s) && s == Status::NotFound,
            Ok(rows) => r matches Ok(l) && l.unique_name == state.unique_name && l.names@
                == state.names@ && l.descriptions@ == pairs_to_map(description_pairs(rows@)),
        },
{
    let request = DbRequest::LocalizedDescriptions { unique_name: state.unique_name.clone() };
    match answer(&request, descriptions) {
        Err(s) => Err(s),
        Ok(rows) => {
            let table = descriptions_table(&rows);
            Ok(Localizations { unique_name: state.unique_name, names: state.names, descriptions: table })
        },
    }
}

/// Building a table from pairs one after another keeps, for each key, the
/// value of the last pair with that key.
pub proof fn law_last_pair_wins(s: Seq<(Seq<char>, Seq<char>)>, i: int)
    requires
        0 <= i < s.len(),
        forall|j: int| i < j < s.len() ==> #[trigger] s[j].0 != s[i].0,
    ensures
        pairs_to_map(s).contains_key(s[i].0),
        pairs_to_map(s)[s[i].0] == s[i].1,
    decreases s.len(),
{
    if i < s.len() - 1 {
        let d = s.drop_last();
        assert forall|j: int| i < j < d.len() implies #[trigger] d[j].0 != d[i].0 by {
            assert(s[j].0 != s[i].0);
        }
        law_last_pair_wins(d, i);
        assert(s[s.len() - 1].0 != s[i].0);
    }
}

/// The names of a localization answer hold exactly the languages of the
/// name rows, and each language's name is that of the last row in it.
pub proof fn law_names_from_last_row(rows: Seq<LocalizedName>, i: int)
    requires
        0 <= i < rows.len(),
        forall|j: int| i < j < rows.len() ==> #[trigger] rows[j].lang@ != rows[i].lang@,
    ensures
        pairs_to_map(name_pairs(rows)).dom() == keys_of(name_pairs(rows)),
        pairs_to_map(name_pairs(rows)).contains_key(rows[i].lang@),
        pairs_to_map(name_pairs(rows))[rows[i].lang@] == rows[i].name@,
{
    let s = name_pairs(rows);
    lemma_pairs_to_map_domain(s);
    assert forall|j: int| i < j < s.len() implies #[trigger] s[j].0 != s[i].0 by {
        assert(rows[j].lang@ != rows[i].lang@);
    }
    law_last_pair_wins(s, i);
}

/// The descriptions of a localization answer hold exactly the languages of
/// the description rows, and each language's description is that of the
/// last row in it.
pub proof fn law_descriptions_from_last_row(rows: Seq<LocalizedDescription>, i: int)
    requires
        0 <= i < rows.len(),
        forall|j: int| i < j < rows.len() ==> #[trigger] rows[j].lang@ != rows[i].lang@,
    ensures
        pairs_to_map(description_pairs(rows)).dom() == keys_of(description_pairs(rows)),
        pairs_to_map(description_pairs(rows)).contains_key(rows[i].lang@),
        pairs_to_map(description_pairs(rows))[rows[i].lang@] == rows[i].description@,
{
    let s = description_pairs(rows);
    lemma_pairs_to_map_domain(s);
    assert forall|j: int| i < j < s.len() implies #[trigger] s[j].0 != s[i].0 by {
        assert(rows[j].lang@ != rows[i].lang@);
    }
    law_last_pair_wins(s, i);
}

} // verus!
