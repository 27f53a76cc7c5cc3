//! Favourite works, stored as settings keys of the form `favorite:<id>`.

use vstd::prelude::*;
use crate::text::{has_prefix, starts_with_text};

verus! {

/// Prefix of the settings key that marks a work as a favourite.
pub const FAVORITE_PREFIX: &'static str = "favorite:";

/// The ASCII digit of value `d`.
pub open spec fn digit_char(d: int) -> char {
    if d == 0 {
        '0'
    } else if d == 1 {
        '1'
    } else if d == 2 {
        '2'
    } else if d == 3 {
        '3'
    } else if d == 4 {
        '4'
    } else if d == 5 {
        '5'
    } else if d == 6 {
        '6'
    } else if d == 7 {
        '7'
    } else if d == 8 {
        '8'
    } else {
        '9'
    }
}

/// The decimal digits of `n`, without leading zeros.
pub open spec fn digits_text(n: nat) -> Seq<char>
    decreases n,
{
    if n < 10 {
        seq![digit_char(n as int)]
    } else {
        digits_text(n / 10).push(digit_char((n % 10) as int))
    }
}

/// `n` in decimal, with a leading `-` where it is negative.
pub open spec fn decimal(n: int) -> Seq<char> {
    if n < 0 {
        seq!['-'] + digits_text((-n) as nat)
    } else {
        digits_text(n as nat)
    }
}

/// Relies on the `Display` of `i64` (through `ToString`): the decimal
/// digits of the value, with `-` before a negative one.
#[verifier::external_body]
fn decimal_text(n: i64) -> (r: String)
    ensures
        r@ == decimal(n as int),
{
    n.to_string()
}

/// Whether `c` is an ASCII digit.
pub open spec fn is_digit(c: char) -> bool {
    '0' <= c && c <= '9'
}

/// The value of the ASCII digit `c`.
pub open spec fn digit_value(c: char) -> int {
    (c as u32) as int - ('0' as u32) as int
}

/// The value of a run of ASCII digits.
pub open spec fn digits_value(s: Seq<char>) -> int
    decreases s.len(),
{
    if s.len() == 0 {
        0
    } else {
        digits_value(s.drop_last()) * 10 + digit_value(s.last())
    }
}

/// Whether `s` is a non-empty run of ASCII digits.
pub open spec fn is_digits(s: Seq<char>) -> bool {
    s.len() > 0 && forall|i: int| 0 <= i < s.len() ==> is_digit(#[trigger] s[i])
}

/// The integer that `s` writes: digits, optionally after one `+` or `-`.
pub open spec fn integer_value(s: Seq<char>) -> Option<int> {
    if is_digits(s) {
        Some(digits_value(s))
    } else if s.len() > 0 && s[0] == '+' && is_digits(s.drop_first()) {
        Some(digits_value(s.drop_first()))
    } else if s.len() > 0 && s[0] == '-' && is_digits(s.drop_first()) {
        Some(-digits_value(s.drop_first()))
    } else {
        None
    }
}

/// The `i64` that `s` writes, where it writes one in range.
pub open spec fn i64_value(s: Seq<char>) -> Option<int> {
    match integer_value(s) {
        Some(v) => if i64::MIN <= v <= i64::MAX {
            Some(v)
        } else {
            None
        },
        None => None,
    }
}

/// Relies on `str::parse::<i64>`: optional sign, then ASCII digits, and a
/// value in range; anything else is refused.
#[verifier::external_body]
fn parse_i64(s: &str) -> (r: Option<i64>)
    ensures
        match r {
            Some(n) => i64_value(s@) == Some(n as int),
            None => i64_value(s@) is None,
        },
{
    s.parse::<i64>().ok()
}

/// The settings key that marks work `work_id` as a favourite.
pub fn favorite_key(work_id: i64) -> (r: String)
    ensures
        r@ == FAVORITE_PREFIX@ + decimal(work_id as int),
{
    let mut key = String::from_str(FAVORITE_PREFIX);
    let digits = decimal_text(work_id);
    key.append(digits.as_str());
    key
}

/// The work that settings key `key` marks as a favourite, if it is such a
/// key with a valid id.
pub open spec fn favorite_id_of(key: Seq<char>) -> Option<int> {
    if has_prefix(key, FAVORITE_PREFIX@) {
        i64_value(key.skip(FAVORITE_PREFIX@.len() as int))
    } else {
        None
    }
}

/// The favourite ids of `keys`, in order.
pub open spec fn favorite_ids_of(keys: Seq<Seq<char>>) -> Seq<int>
    decreases keys.len(),
{
    if keys.len() == 0 {
        Seq::empty()
    } else {
        match favorite_id_of(keys.last()) {
            Some(id) => favorite_ids_of(keys.drop_last()).push(id),
            None => favorite_ids_of(keys.drop_last()),
        }
    }
}

/// The ids of the favourite works among settings keys; other keys, and keys
/// whose id does not parse, are skipped.
pub fn favorite_ids(keys: &Vec<String>) -> (r: Vec<i64>)
    ensures
        r@.map_values(|n: i64| n as int) == favorite_ids_of(keys.deep_view()),
{
    let mut ids: Vec<i64> = Vec::new();
    let mut i: usize = 0;
    let prefix_len = FAVORITE_PREFIX.unicode_len();
    while i < keys.len()
        invariant
            i <= keys.len(),
            prefix_len == FAVORITE_PREFIX@.len(),
            ids@.map_values(|n: i64| n as int) == favorite_ids_of(keys.deep_view().take(i as int)),
        decreases keys.len() - i,
    {
        let key = keys[i].as_str();
        let ghost kv = keys.deep_view().take(i + 1);
        proof {
            assert(kv.drop_last() =~= keys.deep_view().take(i as int));
            assert(kv.last() == key@);
        }
        if starts_with_text(key, FAVORITE_PREFIX) {
            let rest = key.substring_char(prefix_len, key.unicode_len());
            assert(rest@ =~= key@.skip(FAVORITE_PREFIX@.len() as int));
            if let Some(id) = parse_i64(rest) {
                let ghost before = ids@;
                ids.push(id);
                assert(ids@.map_values(|n: i64| n as int) =~= before.map_values(|n: i64| n as int).push(id as int));
            }
        }
        i += 1;
    }
    proof {
        assert(keys.deep_view().take(keys.len() as int) =~= keys.deep_view());
    }
    ids
}

proof fn digit_char_reads_back(d: int)
    requires
        0 <= d < 10,
    ensures
        is_digit(digit_char(d)),
        digit_value(digit_char(d)) == d,
{
}

proof fn digits_text_reads_back(n: nat)
    ensures
        is_digits(digits_text(n)),
        digits_value(digits_text(n)) == n,
    decreases n,
{
    if n < 10 {
        digit_char_reads_back(n as int);
        let s = digits_text(n);
        assert(s.drop_last() =~= Seq::<char>::empty());
        assert(digits_value(s.drop_last()) == 0);
        assert(s.last() == digit_char(n as int));
        assert(digits_value(s) == digits_value(s.drop_last()) * 10 + digit_value(s.last()));
    } else {
        digits_text_reads_back(n / 10);
        digit_char_reads_back((n % 10) as int);
        let s = digits_text(n);
        assert(s.drop_last() =~= digits_text(n / 10));
        assert(s.last() == digit_char((n % 10) as int));
        assert((n / 10) * 10 + n % 10 == n) by (nonlinear_arith);
        assert(digits_value(s) == digits_value(s.drop_last()) * 10 + digit_value(s.last()));
        assert forall|i: int| 0 <= i < s.len() implies is_digit(#[trigger] s[i]) by {
            if i < s.len() - 1 {
                assert(s[i] == digits_text(n / 10)[i]);
            }
        }
    }
}

/// The key under which a work is marked as a favourite reads back as that
/// work's id.
pub proof fn favorite_key_reads_back(work_id: i64)
    ensures
        favorite_id_of(FAVORITE_PREFIX@ + decimal(work_id as int)) == Some(work_id as int),
{
    let p = FAVORITE_PREFIX@;
    let d = decimal(work_id as int);
    let key = p + d;
    assert(key.take(p.len() as int) =~= p);
    assert(key.skip(p.len() as int) =~= d);
    if work_id < 0 {
        let m = (-(work_id as int)) as nat;
        digits_text_reads_back(m);
        assert(d.drop_first() =~= digits_text(m));
        assert(!is_digit(d[0]));
    } else {
        digits_text_reads_back(work_id as nat);
    }
}

} // verus!
