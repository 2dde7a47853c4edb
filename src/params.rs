//! Reading `key: 'value'` entries out of a step's parameter blob, and unsigned numbers.

use vstd::prelude::*;

use crate::text::{
    chars_of, find_char, has_char, has_lit, lit_at, seek_char, skip_spaces, space_end, string_of,
};

verus! {

/// The span of the quoted value when `key:\s*'value'` starts at position `i` of `b`.
pub open spec fn quoted_span(b: Seq<char>, key: Seq<char>, i: int) -> Option<(int, int)> {
    let colon = i + key.len();
    if lit_at(b, i, key) && colon < b.len() && b[colon] == ':' {
        let open = space_end(b, colon + 1);
        if open < b.len() && b[open] == '\'' {
            let close = find_char(b, open + 1, '\'');
            if close < b.len() {
                Some((open + 1, close))
            } else {
                None
            }
        } else {
            None
        }
    } else {
        None
    }
}

/// The value of the leftmost `key:\s*'value'` that starts at or after position `i`.
pub open spec fn param_from(b: Seq<char>, key: Seq<char>, i: int) -> Option<Seq<char>>
    decreases b.len() - i,
{
    if i < 0 || i > b.len() {
        None
    } else {
        match quoted_span(b, key, i) {
            Some(span) => Some(b.subrange(span.0, span.1)),
            None => if i < b.len() {
                param_from(b, key, i + 1)
            } else {
                None
            },
        }
    }
}

/// The value that a parameter blob gives to `key`: the text between the quotes of
/// the first `key: 'value'` in it, or nothing.
pub open spec fn param_value(blob: Seq<char>, key: Seq<char>) -> Option<Seq<char>> {
    param_from(blob, key, 0)
}

fn quoted_at(b: &Vec<char>, key: &str, i: usize) -> (r: Option<(usize, usize)>)
    requires
        i <= b@.len(),
    ensures
        match r {
            Some(span) => quoted_span(b@, key@, i as int) == Some((span.0 as int, span.1 as int))
                && span.0 <= span.1 <= b@.len(),
            None => quoted_span(b@, key@, i as int) is None,
        },
{
    if !has_lit(b, i, key) {
        return None;
    }
    let _len = b.len(); // positions below stay within the blob
    let colon = i + key.unicode_len();
    if !has_char(b, colon, ':') {
        return None;
    }
    let open = skip_spaces(b, colon + 1);
    if !has_char(b, open, '\'') {
        return None;
    }
    let close = seek_char(b, open + 1, '\'');
    if close < b.len() {
        Some((open + 1, close))
    } else {
        None
    }
}

/// Extracts the value of `key` from a parameter blob such as `{ms:'5', url:'x'}`:
/// the text between the quotes of the first `key: 'value'`; `None` when there is no
/// such entry.
pub fn arg_parse(node_para: &str, key: &str) -> (r: Option<String>)
    ensures
        match r {
            Some(v) => param_value(node_para@, key@) == Some(v@),
            None => param_value(node_para@, key@) is None,
        },
{
    let b = chars_of(node_para);
    let mut i: usize = 0;
    while i <= b.len()
        invariant
            i <= b@.len() + 1,
            b@ == node_para@,
            param_from(b@, key@, 0) == param_from(b@, key@, i as int),
        decreases b@.len() + 1 - i,
    {
        match quoted_at(&b, key, i) {
            Some(span) => {
                return Some(string_of(&b, span.0, span.1));
            },
            None => {
                if i == b.len() {
                    return None;
                }
            },
        }
        i += 1;
    }
    None
}

/// Extracting a key twice from one blob gives the same value both times.
pub proof fn lemma_extraction_repeatable(blob: Seq<char>, key: Seq<char>, first: Option<Seq<char>>, second: Option<Seq<char>>)
    requires
        first == param_value(blob, key),
        second == param_value(blob, key),
    ensures
        first == second,
{
}

/// The number that a run of decimal digits writes.
pub open spec fn decimal_value(d: Seq<char>) -> int
    decreases d.len(),
{
    if d.len() == 0 {
        0
    } else {
        decimal_value(d.drop_last()) * 10 + ((d.last() as u32) as int - 48)
    }
}

pub open spec fn all_digits(d: Seq<char>) -> bool {
    forall|i: int| 0 <= i < d.len() ==> '0' <= #[trigger] d[i] && d[i] <= '9'
}

/// The digits of an unsigned number: the text without one leading `+`.
pub open spec fn unsigned_digits(s: Seq<char>) -> Seq<char> {
    if s.len() > 0 && s[0] == '+' {
        s.drop_first()
    } else {
        s
    }
}

/// The `u64` that a text writes in decimal, with an optional leading `+`, or nothing
/// when the text is empty, holds another character, or writes a larger number.
pub open spec fn u64_of(s: Seq<char>) -> Option<u64> {
    let d = unsigned_digits(s);
    if d.len() > 0 && all_digits(d) && decimal_value(d) <= u64::MAX {
        Some(decimal_value(d) as u64)
    } else {
        None
    }
}

proof fn lemma_decimal_nonneg(d: Seq<char>)
    requires
        all_digits(d),
    ensures
        decimal_value(d) >= 0,
    decreases d.len(),
{
    if d.len() > 0 {
        assert(all_digits(d.drop_last()));
        lemma_decimal_nonneg(d.drop_last());
        assert('0' <= d[d.len() - 1]);
    }
}

proof fn lemma_decimal_grows(d: Seq<char>, j: int, k: int)
    requires
        all_digits(d),
        0 <= j <= k <= d.len(),
    ensures
        0 <= decimal_value(d.take(j)) <= decimal_value(d.take(k)),
    decreases k - j,
{
    if j < k {
        lemma_decimal_grows(d, j, k - 1);
        assert(d.take(k).drop_last() == d.take(k - 1));
        assert(d.take(k).last() == d[k - 1]);
        assert('0' <= d[k - 1]);
    } else {
        assert(all_digits(d.take(j)));
        lemma_decimal_nonneg(d.take(j));
    }
}

/// Reads an unsigned decimal number, as `str::parse::<u64>` does: an optional `+`,
/// then one or more ASCII digits, with a value that fits in a `u64`.
pub fn parse_u64(s: &str) -> (r: Option<u64>)
    ensures
        r == u64_of(s@),
{
    let b = chars_of(s);
    let start: usize = if b.len() > 0 && b[0] == '+' { 1 } else { 0 };
    let ghost d = unsigned_digits(s@);
    assert(d == b@.subrange(start as int, b@.len() as int));
    if start == b.len() {
        return None;
    }
    let mut value: u64 = 0;
    let mut k: usize = start;
    while k < b.len()
        invariant
            start <= k <= b@.len(),
            d == unsigned_digits(s@),
            d == b@.subrange(start as int, b@.len() as int),
            all_digits(d.take(k - start)),
            value == decimal_value(d.take(k - start)),
        decreases b@.len() - k,
    {
        let c = b[k];
        if c < '0' || c > '9' {
            assert(d[k - start] == c);
            assert(!all_digits(d));
            return None;
        }
        let digit = (c as u32 - '0' as u32) as u64;
        assert(d.take(k + 1 - start).drop_last() == d.take(k - start));
        assert(d.take(k + 1 - start).last() == c);
        assert(all_digits(d.take(k + 1 - start)));
        if value > (u64::MAX - digit) / 10 {
            proof {
                if all_digits(d) {
                    lemma_decimal_grows(d, k + 1 - start, d.len() as int);
                    assert(d.take(d.len() as int) == d);
                }
            }
            return None;
        }
        value = value * 10 + digit;
        k += 1;
    }
    assert(d.take(d.len() as int) == d);
    Some(value)
}

} // verus!
