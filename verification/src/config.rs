//! The service's configuration: the port it listens on and the database it
//! reads, given as text settings.

use vstd::prelude::*;
use crate::text::chars_of;

verus! {

/// `c` is an ASCII decimal digit.
pub open spec fn is_digit(c: char) -> bool {
    '0' <= c && c <= '9'
}

/// Every character of `s` is an ASCII decimal digit.
pub open spec fn all_digits(s: Seq<char>) -> bool {
    forall|i: int| 0 <= i < s.len() ==> is_digit(#[trigger] s[i])
}

/// The number that the decimal digits `s` write.
pub open spec fn digits_value(s: Seq<char>) -> int
    decreases s.len(),
{
    if s.len() == 0 {
        0
    } else {
        10 * digits_value(s.drop_last()) + (s.last() as int - '0' as int)
    }
}

/// The `i32` that `s` writes in decimal, as `i32::from_str` reads it: an
/// optional leading `+` or `-`, then one or more ASCII digits, and a value
/// within `i32`'s range; anything else writes none.
pub open spec fn spec_parse_i32(s: Seq<char>) -> Option<i32> {
    let signed = s.len() > 0 && (s[0] == '-' || s[0] == '+');
    let body = if signed { s.drop_first() } else { s };
    let value = if s.len() > 0 && s[0] == '-' { -digits_value(body) } else { digits_value(body) };
    if body.len() == 0 || !all_digits(body) {
        None
    } else if i32::MIN <= value && value <= i32::MAX {
        Some(value as i32)
    } else {
        None
    }
}

proof fn lemma_digits_value_nonneg(s: Seq<char>)
    requires
        all_digits(s),
    ensures
        digits_value(s) >= 0,
    decreases s.len(),
{
    if s.len() > 0 {
        assert(all_digits(s.drop_last())) by {
            assert forall|i: int| 0 <= i < s.drop_last().len() implies is_digit(
                #[trigger] s.drop_last()[i],
            ) by {
                assert(is_digit(s[i]));
            }
        }
        lemma_digits_value_nonneg(s.drop_last());
        assert(is_digit(s[s.len() - 1]));
    }
}

/// The largest magnitude tracked while reading digits: one more than any
/// `i32` magnitude.
const CAP: i64 = 2147483649;

/// The `i32` that `s` writes in decimal, if any.
pub fn parse_i32(s: &str) -> (r: Option<i32>)
    ensures
        r == spec_parse_i32(s@),
{
    let cs = chars_of(s);
    let n = cs.len();
    let negative = n > 0 && cs[0] == '-';
    let signed = n > 0 && (cs[0] == '-' || cs[0] == '+');
    let start: usize = if signed { 1 } else { 0 };
    let ghost body = if signed { s@.drop_first() } else { s@ };
    if start == n {
        return None;
    }
    let mut acc: i64 = 0;
    let mut i: usize = start;
    while i < n
        invariant
            cs@ == s@,
            n == cs@.len(),
            start <= i <= n,
            start == (if signed { 1int } else { 0int }),
            body == cs@.subrange(start as int, n as int),
            signed == (s@.len() > 0 && (s@[0] == '-' || s@[0] == '+')),
            negative == (s@.len() > 0 && s@[0] == '-'),
            body == (if signed { s@.drop_first() } else { s@ }),
            all_digits(cs@.subrange(start as int, i as int)),
            0 <= acc <= CAP,
            acc == (if digits_value(cs@.subrange(start as int, i as int)) < CAP {
                digits_value(cs@.subrange(start as int, i as int))
            } else {
                CAP as int
            }),
        decreases n - i,
    {
        let c = cs[i];
        if !(c >= '0' && c <= '9') {
            proof {
                assert(body[i - start] == c);
                assert(!is_digit(body[i - start]));
                assert(!all_digits(body));
                assert(body.len() > 0);
            }
            return None;
        }
        let d = (c as u32 - '0' as u32) as i64;
        let ghost prev = cs@.subrange(start as int, i as int);
        let ghost next = cs@.subrange(start as int, i + 1);
        proof {
            assert(next.drop_last() =~= prev);
            assert(next.last() == c);
            assert(all_digits(next)) by {
                assert forall|k: int| 0 <= k < next.len() implies is_digit(#[trigger] next[k]) by {
                    if k < prev.len() {
                        assert(next[k] == prev[k]);
                    }
                }
            }
            lemma_digits_value_nonneg(prev);
        }
        let grown = 10 * acc + d;
        acc = if grown < CAP { grown } else { CAP };
        i = i + 1;
    }
    proof {
        assert(cs@.subrange(start as int, n as int) =~= body);
        lemma_digits_value_nonneg(body);
    }
    if acc >= CAP {
        return None;
    }
    if negative {
        Some((-acc) as i32)
    } else if acc <= 2147483647 {
        Some(acc as i32)
    } else {
        None
    }
}

/// The character of a decimal digit `d` (0 through 9).
pub open spec fn digit_char(d: int) -> char {
    if d == 0 {
        '0'
    } else if d == 1 {
        '1'
    } else if d == 2 {
        '2'
    } else if d == 3 {
        '3'
    } else if d == 4 {
        '4'
    } else if d == 5 {
        '5'
    } else if d == 6 {
        '6'
    } else if d == 7 {
        '7'
    } else if d == 8 {
        '8'
    } else {
        '9'
    }
}

/// `c` is one of the ten characters `0 1 2 3 4 5 6 7 8 9`.
pub open spec fn is_one_of_ten_digits(c: char) -> bool {
    c == '0' || c == '1' || c == '2' || c == '3' || c == '4' || c == '5' || c == '6' || c == '7'
        || c == '8' || c == '9'
}

/// The usual decimal writing of `n`: no sign, no leading zero.
pub open spec fn decimal(n: nat) -> Seq<char>
    decreases n,
{
    if n < 10 {
        seq![digit_char(n as int)]
    } else {
        decimal(n / 10).push(digit_char((n % 10) as int))
    }
}

proof fn lemma_digit_char(d: int)
    requires
        0 <= d < 10,
    ensures
        is_digit(digit_char(d)),
        is_one_of_ten_digits(digit_char(d)),
        digit_char(d) as int - '0' as int == d,
{
}

proof fn lemma_decimal(n: nat)
    ensures
        decimal(n).len() > 0,
        all_digits(decimal(n)),
        digits_value(decimal(n)) == n,
        is_one_of_ten_digits(decimal(n)[0]),
    decreases n,
{
    if n < 10 {
        lemma_digit_char(n as int);
        let s = decimal(n);
        assert(s.drop_last() =~= Seq::<char>::empty());
        assert(digits_value(s.drop_last()) == 0);
        assert(s.last() == digit_char(n as int));
    } else {
        lemma_decimal(n / 10);
        lemma_digit_char((n % 10) as int);
        let s = decimal(n);
        let p = decimal(n / 10);
        assert(s.drop_last() =~= p);
        assert(s.last() == digit_char((n % 10) as int));
        assert(n == 10 * (n / 10) + n % 10) by (nonlinear_arith);
        assert(all_digits(s)) by {
            assert forall|i: int| 0 <= i < s.len() implies is_digit(#[trigger] s[i]) by {
                if i < p.len() {
                    assert(s[i] == p[i]);
                }
            }
        }
        assert(s[0] == p[0]);
    }
}

/// A character is a digit exactly when it is one of the ten characters
/// `0` through `9`.
pub proof fn law_digits_are_the_ten(c: char)
    ensures
        is_digit(c) <==> is_one_of_ten_digits(c),
{
}

/// Every `i32` written in decimal reads back as itself, with or without a
/// `+` sign, and its negation reads back from `-` followed by its digits;
/// a magnitude beyond `i32` reads as none.
pub proof fn law_parse_reads_decimal(n: nat)
    ensures
        n <= i32::MAX ==> spec_parse_i32(decimal(n)) == Some(n as i32),
        n <= i32::MAX ==> spec_parse_i32(seq!['+'] + decimal(n)) == Some(n as i32),
        n <= 2147483648 ==> spec_parse_i32(seq!['-'] + decimal(n)) == Some((-n) as i32),
        n > i32::MAX ==> spec_parse_i32(decimal(n)) is None,
        n > 2147483648 ==> spec_parse_i32(seq!['-'] + decimal(n)) is None,
{
    lemma_decimal(n);
    let d = decimal(n);
    lemma_digit_char(0);
    assert(d[0] != '-' && d[0] != '+');
    assert((seq!['+'] + d).drop_first() =~= d);
    assert((seq!['-'] + d).drop_first() =~= d);
    assert((seq!['+'] + d)[0] == '+');
    assert((seq!['-'] + d)[0] == '-');
}

/// Whatever reads as a number is an optional sign followed by one or more
/// of the ten digit characters.
pub proof fn law_parse_accepts_only_digits(s: Seq<char>)
    ensures
        spec_parse_i32(s) is Some ==> {
            let start: int = if s[0] == '-' || s[0] == '+' { 1 } else { 0 };
            &&& start < s.len()
            &&& forall|i: int| start <= i < s.len() ==> is_one_of_ten_digits(#[trigger] s[i])
        },
{
    if spec_parse_i32(s) is Some {
        let signed = s.len() > 0 && (s[0] == '-' || s[0] == '+');
        let body = if signed { s.drop_first() } else { s };
        let start: int = if s[0] == '-' || s[0] == '+' { 1 } else { 0 };
        assert forall|i: int| start <= i < s.len() implies is_one_of_ten_digits(#[trigger] s[i]) by {
            assert(s[i] == body[i - start]);
            assert(is_digit(body[i - start]));
        }
    }
}

/// The port the service listens on and the database it reads.
#[derive(Clone, Debug, PartialEq, Eq)]
pub struct Config {
    pub port: i32,
    pub database_url: String,
}

impl Config {
    /// The configuration the given settings describe: both must be present
    /// and the port must be an `i32` written in decimal.
    pub fn from_settings(port: Option<String>, database_url: Option<String>) -> (r: Option<Config>)
        ensures
            r is Some <==> (port matches Some(p) && spec_parse_i32(p@) is Some
                && database_url is Some),
            r matches Some(c) ==> (port matches Some(p) && spec_parse_i32(p@) == Some(c.port))
                && database_url == Some(c.database_url),
    {
        match (port, database_url) {
            (Some(p), Some(url)) => match parse_i32(p.as_str()) {
                Some(port) => Some(Config { port, database_url: url }),
                None => None,
            },
            _ => None,
        }
    }
}

} // verus!
