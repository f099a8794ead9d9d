//! A table from language code to text, as a localization response carries
//! it: each language occurs once, and a later entry for a language replaces
//! an earlier one.

use vstd::prelude::*;

verus! {

/// The text views of a sequence of (language, text) pairs.
pub open spec fn pair_views(s: Seq<(String, String)>) -> Seq<(Seq<char>, Seq<char>)> {
    s.map_values(|p: (String, String)| (p.0@, p.1@))
}

/// The map that inserting the pairs of `s` one after another, from the
/// first to the last, into an empty map gives: a later pair for a key
/// replaces an earlier one.
pub open spec fn pairs_to_map(s: Seq<(Seq<char>, Seq<char>)>) -> Map<Seq<char>, Seq<char>>
    decreases s.len(),
{
    if s.len() == 0 {
        Map::empty()
    } else {
        pairs_to_map(s.drop_last()).insert(s.last().0, s.last().1)
    }
}

/// No key occurs twice among the pairs of `s`.
pub open spec fn distinct_keys(s: Seq<(Seq<char>, Seq<char>)>) -> bool {
    forall|i: int, j: int|
        0 <= i < s.len() && 0 <= j < s.len() && i != j ==> #[trigger] s[i].0 != #[trigger] s[j].0
}

/// The keys of the pairs of `s`.
pub open spec fn keys_of(s: Seq<(Seq<char>, Seq<char>)>) -> Set<Seq<char>> {
    Set::new(|k: Seq<char>| exists|i: int| 0 <= i < s.len() && #[trigger] s[i].0 == k)
}

/// The map built from pairs is finite, its keys are exactly the pairs'
/// keys, and with distinct keys it has one entry per pair.
pub proof fn lemma_pairs_to_map_domain(s: Seq<(Seq<char>, Seq<char>)>)
    ensures
        pairs_to_map(s).dom().finite(),
        pairs_to_map(s).dom() == keys_of(s),
        distinct_keys(s) ==> pairs_to_map(s).dom().len() == s.len(),
    decreases s.len(),
{
    if s.len() == 0 {
        assert(keys_of(s) =~= Set::empty());
    } else {
        let d = s.drop_last();
        lemma_pairs_to_map_domain(d);
        assert(keys_of(s) =~= keys_of(d).insert(s.last().0)) by {
            assert forall|k: Seq<char>| keys_of(s).contains(k) implies #[trigger] keys_of(
                d,
            ).insert(s.last().0).contains(k) by {
                let i = choose|i: int| 0 <= i < s.len() && s[i].0 == k;
                if i < s.len() - 1 {
                    assert(d[i].0 == k);
                }
            }
            assert forall|k: Seq<char>| keys_of(d).insert(s.last().0).contains(k) implies #[trigger] keys_of(
                s,
            ).contains(k) by {
                if k == s.last().0 {
                    assert(s[s.len() - 1].0 == k);
                } else {
                    let i = choose|i: int| 0 <= i < d.len() && d[i].0 == k;
                    assert(s[i].0 == k);
                }
            }
        }
        if distinct_keys(s) {
            assert(distinct_keys(d)) by {
                assert forall|i: int, j: int|
                    0 <= i < d.len() && 0 <= j < d.len() && i != j implies #[trigger] d[i].0
                    != #[trigger] d[j].0 by {
                    assert(s[i].0 != s[j].0);
                }
            }
            assert(!keys_of(d).contains(s.last().0)) by {
                if keys_of(d).contains(s.last().0) {
                    let i = choose|i: int| 0 <= i < d.len() && d[i].0 == s.last().0;
                    assert(s[i].0 == s[s.len() - 1].0);
                }
            }
        }
    }
}

/// With distinct keys, the map gives each pair's key that pair's value.
pub proof fn lemma_pairs_to_map_lookup(s: Seq<(Seq<char>, Seq<char>)>, i: int)
    requires
        distinct_keys(s),
        0 <= i < s.len(),
    ensures
        pairs_to_map(s).contains_key(s[i].0),
        pairs_to_map(s)[s[i].0] == s[i].1,
    decreases s.len(),
{
    if i < s.len() - 1 {
        let d = s.drop_last();
        assert(distinct_keys(d)) by {
            assert forall|a: int, b: int|
                0 <= a < d.len() && 0 <= b < d.len() && a != b implies #[trigger] d[a].0
                != #[trigger] d[b].0 by {
                assert(s[a].0 != s[b].0);
            }
        }
        assert(s[i].0 != s[s.len() - 1].0);
        lemma_pairs_to_map_lookup(d, i);
        assert(d[i] == s[i]);
    }
}

/// Replacing the value of one pair, when keys are distinct, is the same as
/// inserting that key with the new value into the map.
pub proof fn lemma_pairs_to_map_update(
    s: Seq<(Seq<char>, Seq<char>)>,
    i: int,
    v: Seq<char>,
)
    requires
        distinct_keys(s),
        0 <= i < s.len(),
    ensures
        pairs_to_map(s.update(i, (s[i].0, v))) == pairs_to_map(s).insert(s[i].0, v),
    decreases s.len(),
{
    let u = s.update(i, (s[i].0, v));
    let d = s.drop_last();
    if i == s.len() - 1 {
        assert(u.drop_last() =~= d);
        assert(pairs_to_map(u) =~= pairs_to_map(s).insert(s[i].0, v));
    } else {
        assert(distinct_keys(d)) by {
            assert forall|a: int, b: int|
                0 <= a < d.len() && 0 <= b < d.len() && a != b implies #[trigger] d[a].0
                != #[trigger] d[b].0 by {
                assert(s[a].0 != s[b].0);
            }
        }
        lemma_pairs_to_map_update(d, i, v);
        assert(u.drop_last() =~= d.update(i, (d[i].0, v)));
        assert(s[i].0 != s[s.len() - 1].0);
        assert(u.last() == s.last());
        assert(pairs_to_map(u) =~= pairs_to_map(s).insert(s[i].0, v));
    }
}

/// Reading a language after setting it gives the text just set; other
/// languages keep their text; setting a language twice keeps only the
/// later text, and the table gains an entry only for a new language.
pub proof fn law_read_after_write(
    table: Map<Seq<char>, Seq<char>>,
    lang: Seq<char>,
    first: Seq<char>,
    second: Seq<char>,
    other: Seq<char>,
)
    requires
        table.dom().finite(),
        other != lang,
    ensures
        table.insert(lang, first).contains_key(lang),
        table.insert(lang, first)[lang] == first,
        table.insert(lang, first).contains_key(other) == table.contains_key(other),
        table.contains_key(other) ==> table.insert(lang, first)[other] == table[other],
        table.insert(lang, first).insert(lang, second) == table.insert(lang, second),
        table.insert(lang, first).len() == if table.contains_key(lang) {
            table.len()
        } else {
            table.len() + 1
        },
{
    assert(table.insert(lang, first).insert(lang, second) =~= table.insert(lang, second));
    if table.contains_key(lang) {
        assert(table.insert(lang, first).dom() =~= table.dom());
    }
}

/// A table from language code to text in which each language occurs once.
#[derive(Debug)]
pub struct LangTable {
    entries: Vec<(String, String)>,
}

impl LangTable {
    /// The table's (language, text) pairs, in the order they were first added.
    pub closed spec fn pairs(&self) -> Seq<(Seq<char>, Seq<char>)> {
        pair_views(self.entries@)
    }

    #[verifier::type_invariant]
    closed spec fn languages_distinct(self) -> bool {
        distinct_keys(pair_views(self.entries@))
    }

    /// An empty table.
    pub fn new() -> (t: LangTable)
        ensures
            t@ == Map::<Seq<char>, Seq<char>>::empty(),
            t.pairs().len() == 0,
    {
        let t = LangTable { entries: Vec::new() };
        assert(pair_views(t.entries@) =~= Seq::<(Seq<char>, Seq<char>)>::empty());
        t
    }

    /// The position of `lang` among the table's pairs, if it occurs.
    fn position(&self, lang: &String) -> (r: Option<usize>)
        ensures
            match r {
                Some(i) => i < self.pairs().len() && self.pairs()[i as int].0 == lang@,
                None => forall|i: int|
                    0 <= i < self.pairs().len() ==> #[trigger] self.pairs()[i].0 != lang@,
            },
    {
        let n = self.entries.len();
        let mut i: usize = 0;
        while i < n
            invariant
                n == self.entries@.len(),
                i <= n,
                self.pairs().len() == n,
                forall|k: int| 0 <= k < i ==> #[trigger] self.pairs()[k].0 != lang@,
            decreases n - i,
        {
            if self.entries[i].0 == *lang {
                return Some(i);
            }
            i = i + 1;
        }
        None
    }

    /// Sets the text of `lang` to `text`, replacing any text it had.
    pub fn insert(&mut self, lang: String, text: String)
        ensures
            final(self)@ == old(self)@.insert(lang@, text@),
    {
        proof {
            use_type_invariant(&*self);
        }
        let ghost before = self.pairs();
        let pos = self.position(&lang);
        let mut entries: Vec<(String, String)> = Vec::new();
        std::mem::swap(&mut entries, &mut self.entries);
        let ghost lv = lang@;
        let ghost tv = text@;
        match pos {
            Some(i) => {
                entries.set(i, (lang, text));
                proof {
                    assert(pair_views(entries@) =~= before.update(i as int, (before[i as int].0, tv)));
                    lemma_pairs_to_map_update(before, i as int, tv);
                    assert(distinct_keys(pair_views(entries@)));
                }
            },
            None => {
                entries.push((lang, text));
                proof {
                    assert(pair_views(entries@) =~= before.push((lv, tv)));
                    assert(pair_views(entries@).drop_last() =~= before);
                    assert(distinct_keys(pair_views(entries@))) by {
                        let p = pair_views(entries@);
                        assert forall|a: int, b: int|
                            0 <= a < p.len() && 0 <= b < p.len() && a != b implies #[trigger] p[a].0
                            != #[trigger] p[b].0 by {
                            if a < before.len() && b < before.len() {
                                assert(before[a].0 != before[b].0);
                            } else if a < before.len() {
                                assert(before[a].0 != lv);
                            } else {
                                assert(before[b].0 != lv);
                            }
                        }
                    }
                }
            },
        }
        self.entries = entries;
    }

    /// The text of `lang`, if the table has one.
    pub fn get(&self, lang: &String) -> (r: Option<&String>)
        ensures
            match r {
                Some(t) => self@.contains_key(lang@) && self@[lang@] == t@,
                None => !self@.contains_key(lang@),
            },
    {
        proof {
            use_type_invariant(self);
            lemma_pairs_to_map_domain(self.pairs());
        }
        match self.position(lang) {
            Some(i) => {
                proof {
                    lemma_pairs_to_map_lookup(self.pairs(), i as int);
                }
                Some(&self.entries[i].1)
            },
            None => {
                proof {
                    if self@.contains_key(lang@) {
                        let i = choose|i: int|
                            0 <= i < self.pairs().len() && #[trigger] self.pairs()[i].0 == lang@;
                    }
                }
                None
            },
        }
    }

    /// The number of languages in the table.
    pub fn len(&self) -> (n: usize)
        ensures
            n == self@.len(),
    {
        proof {
            use_type_invariant(self);
            lemma_pairs_to_map_domain(self.pairs());
        }
        self.entries.len()
    }

    /// The table's (language, text) pairs, each language once.
    pub fn entries(&self) -> (e: &Vec<(String, String)>)
        ensures
            pair_views(e@) == self.pairs(),
            distinct_keys(pair_views(e@)),
            pairs_to_map(pair_views(e@)) == self@,
    {
        proof {
            use_type_invariant(self);
        }
        &self.entries
    }

    /// The table holding the given pairs, a later pair for a language
    /// replacing an earlier one.
    pub fn from_pairs(pairs: Vec<(String, String)>) -> (t: LangTable)
        ensures
            t@ == pairs_to_map(pair_views(pairs@)),
    {
        let mut t = LangTable::new();
        let n = pairs.len();
        let mut i: usize = 0;
        while i < n
            invariant
                n == pairs@.len(),
                i <= n,
                t@ == pairs_to_map(pair_views(pairs@).take(i as int)),
            decreases n - i,
        {
            let lang = pairs[i].0.clone();
            let text = pairs[i].1.clone();
            proof {
                assert(pair_views(pairs@).take(i + 1).drop_last() =~= pair_views(pairs@).take(
                    i as int,
                ));
            }
            t.insert(lang, text);
            i = i + 1;
        }
        assert(pair_views(pairs@).take(n as int) =~= pair_views(pairs@));
        t
    }
}

impl View for LangTable {
    type V = Map<Seq<char>, Seq<char>>;

    /// The table as a map from language to text.
    closed spec fn view(&self) -> Map<Seq<char>, Seq<char>> {
        pairs_to_map(self.pairs())
    }
}

} // verus!
