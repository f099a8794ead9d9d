//! Character-level text helpers used when reading query parameters.

use vstd::prelude::*;
use vstd::string::*;

verus! {

/// `needle` occurs as a contiguous run of characters inside `haystack`.
pub open spec fn seq_contains(haystack: Seq<char>, needle: Seq<char>) -> bool {
    exists|i: int|
        0 <= i <= haystack.len() - needle.len() && #[trigger] haystack.subrange(
            i,
            i + needle.len(),
        ) == needle
}

/// The characters of `s`, in order.
pub fn chars_of(s: &str) -> (out: Vec<char>)
    ensures
        out@ == s@,
{
    let n = s.unicode_len();
    let mut out: Vec<char> = Vec::new();
    let mut i: usize = 0;
    while i < n
        invariant
            n == s@.len(),
            i <= n,
            out@ == s@.subrange(0, i as int),
        decreases n - i,
    {
        let c = s.get_char(i);
        out.push(c);
        i = i + 1;
    }
    out
}

/// Whether `needle` matches `haystack` starting at character `start`.
fn matches_at(haystack: &Vec<char>, needle: &Vec<char>, start: usize) -> (r: bool)
    requires
        start + needle@.len() <= haystack@.len(),
    ensures
        r == (haystack@.subrange(start as int, start + needle@.len()) == needle@),
{
    let hl = haystack.len();
    let mut j: usize = 0;
    while j < needle.len()
        invariant
            hl == haystack@.len(),
            start + needle@.len() <= haystack@.len(),
            j <= needle@.len(),
            forall|k: int| 0 <= k < j ==> haystack@[start + k] == needle@[k],
        decreases needle@.len() - j,
    {
        if haystack[start + j] != needle[j] {
            assert(haystack@.subrange(start as int, start + needle@.len())[j as int]
                != needle@[j as int]);
            return false;
        }
        j = j + 1;
    }
    assert(haystack@.subrange(start as int, start + needle@.len()) =~= needle@);
    true
}

/// Whether `needle` occurs inside `haystack`, as `str::contains` answers it.
pub fn contains_str(haystack: &str, needle: &str) -> (r: bool)
    ensures
        r == seq_contains(haystack@, needle@),
{
    let h = chars_of(haystack);
    let n = chars_of(needle);
    if n.len() > h.len() {
        return false;
    }
    let last = h.len() - n.len();
    let mut i: usize = 0;
    while i <= last
        invariant
            h@ == haystack@,
            n@ == needle@,
            last == h@.len() - n@.len(),
            i <= last + 1,
            forall|k: int|
                0 <= k < i ==> #[trigger] h@.subrange(k, k + n@.len()) != n@,
        decreases last + 1 - i,
    {
        if matches_at(&h, &n, i) {
            return true;
        }
        if i == last {
            return false;
        }
        i = i + 1;
    }
    false
}

/// A needle occurs in any text that has it between some prefix and some
/// suffix, and never in a text shorter than itself.
pub proof fn law_contains_embedded(prefix: Seq<char>, needle: Seq<char>, suffix: Seq<char>, h: Seq<char>)
    ensures
        seq_contains(prefix + needle + suffix, needle),
        h.len() < needle.len() ==> !seq_contains(h, needle),
{
    let t = prefix + needle + suffix;
    assert(t.subrange(prefix.len() as int, (prefix.len() + needle.len()) as int) =~= needle);
}

/// A needle occurs in a text exactly when the text is some prefix, the
/// needle, and some suffix.
pub proof fn law_contains_means_embedded(h: Seq<char>, needle: Seq<char>)
    ensures
        seq_contains(h, needle) <==> exists|a: Seq<char>, b: Seq<char>| #[trigger] (a + needle + b)
            == h,
{
    if seq_contains(h, needle) {
        let i = choose|i: int|
            0 <= i <= h.len() - needle.len() && #[trigger] h.subrange(i, i + needle.len())
                == needle;
        let a = h.subrange(0, i);
        let b = h.subrange(i + needle.len(), h.len() as int);
        assert(a + needle + b =~= h);
    }
    if exists|a: Seq<char>, b: Seq<char>| #[trigger] (a + needle + b) == h {
        let (a, b) = choose|a: Seq<char>, b: Seq<char>| #[trigger] (a + needle + b) == h;
        law_contains_embedded(a, needle, b, h);
    }
}

} // verus!
