//! Character classes and small text helpers shared by the grammar and the extractor.

use vstd::prelude::*;

verus! {

/// Relies on `String::push`: it appends one character.
pub assume_specification[ String::push ](s: &mut String, ch: char)
    ensures
        final(s)@ == old(s)@.push(ch),
;

/// Characters with the Unicode `White_Space` property.
pub open spec fn space_char(c: char) -> bool {
    let u = c as u32;
    ||| u == 0x20
    ||| 0x09 <= u <= 0x0d
    ||| u == 0x85
    ||| u == 0xa0
    ||| u == 0x1680
    ||| 0x2000 <= u <= 0x200a
    ||| u == 0x2028
    ||| u == 0x2029
    ||| u == 0x202f
    ||| u == 0x205f
    ||| u == 0x3000
}

/// ASCII letters, digits and the underscore.
pub open spec fn ascii_word_char(c: char) -> bool {
    ||| ('a' <= c && c <= 'z')
    ||| ('A' <= c && c <= 'Z')
    ||| ('0' <= c && c <= '9')
    ||| c == '_'
}

/// Whether a character belongs to the Unicode word class (`\w`): letters, marks,
/// decimal digits, connector punctuation and join controls.
pub uninterp spec fn word_char(c: char) -> bool;

pub fn is_space(c: char) -> (r: bool)
    ensures
        r == space_char(c),
{
    let u = c as u32;
    u == 0x20 || (0x09 <= u && u <= 0x0d) || u == 0x85 || u == 0xa0 || u == 0x1680 || (0x2000
        <= u && u <= 0x200a) || u == 0x2028 || u == 0x2029 || u == 0x202f || u == 0x205f || u
        == 0x3000
}

/// Relies on `regex_syntax::is_word_character`, the class that `\w` matches in a
/// Unicode regular expression; on ASCII it is `[0-9A-Za-z_]`.
#[verifier::external_body]
pub(crate) fn is_word(c: char) -> (r: bool)
    ensures
        r == word_char(c),
        (c as u32) < 0x80 ==> (r <==> ascii_word_char(c)),
{
    regex_syntax::is_word_character(c)
}

/// Whether two strings hold the same characters.
pub fn text_eq(a: &str, b: &str) -> (r: bool)
    ensures
        r == (a@ == b@),
{
    a.to_owned() == b.to_owned()
}

/// The characters of a string, in order.
pub fn chars_of(s: &str) -> (r: Vec<char>)
    ensures
        r@ == s@,
{
    let mut r: Vec<char> = Vec::new();
    for c in it: s.chars()
        invariant
            r@ == it.seq().take(it.index() as int),
    {
        r.push(c);
    }
    r
}

/// The string made of `t[from..to]`.
pub fn string_of(t: &Vec<char>, from: usize, to: usize) -> (r: String)
    requires
        from <= to <= t@.len(),
    ensures
        r@ == t@.subrange(from as int, to as int),
{
    let mut r = String::new();
    let mut i = from;
    while i < to
        invariant
            from <= i <= to <= t@.len(),
            r@ == t@.subrange(from as int, i as int),
        decreases to - i,
    {
        r.push(t[i]);
        assert(t@.subrange(from as int, i + 1) == t@.subrange(from as int, i as int).push(t@[i as int]));
        i += 1;
    }
    r
}

/// First position at or after `i` that does not hold a space.
pub open spec fn space_end(t: Seq<char>, i: int) -> int
    decreases t.len() - i,
{
    if 0 <= i < t.len() && space_char(t[i]) {
        space_end(t, i + 1)
    } else {
        i
    }
}

/// First position at or after `i` that does not hold a word character.
pub open spec fn word_end(t: Seq<char>, i: int) -> int
    decreases t.len() - i,
{
    if 0 <= i < t.len() && word_char(t[i]) {
        word_end(t, i + 1)
    } else {
        i
    }
}

/// First position at or after `i` that holds neither a word character nor a space.
pub open spec fn phrase_end(t: Seq<char>, i: int) -> int
    decreases t.len() - i,
{
    if 0 <= i < t.len() && (word_char(t[i]) || space_char(t[i])) {
        phrase_end(t, i + 1)
    } else {
        i
    }
}

/// First position at or after `i` that holds `c`, or the length when there is none.
pub open spec fn find_char(t: Seq<char>, i: int, c: char) -> int
    decreases t.len() - i,
{
    if 0 <= i < t.len() && t[i] != c {
        find_char(t, i + 1, c)
    } else {
        i
    }
}

/// Whether `s` stands in `t` at position `i`.
pub open spec fn lit_at(t: Seq<char>, i: int, s: Seq<char>) -> bool {
    0 <= i && i + s.len() <= t.len() && t.subrange(i, i + s.len()) == s
}

/// Whether position `i` of `t` holds `c`.
pub open spec fn char_at(t: Seq<char>, i: int, c: char) -> bool {
    0 <= i < t.len() && t[i] == c
}

pub fn skip_spaces(t: &Vec<char>, i: usize) -> (r: usize)
    requires
        i <= t@.len(),
    ensures
        r == space_end(t@, i as int),
        i <= r <= t@.len(),
{
    let mut j = i;
    while j < t.len() && is_space(t[j])
        invariant
            i <= j <= t@.len(),
            space_end(t@, i as int) == space_end(t@, j as int),
        decreases t@.len() - j,
    {
        j += 1;
    }
    j
}

pub fn skip_word(t: &Vec<char>, i: usize) -> (r: usize)
    requires
        i <= t@.len(),
    ensures
        r == word_end(t@, i as int),
        i <= r <= t@.len(),
{
    let mut j = i;
    while j < t.len() && is_word(t[j])
        invariant
            i <= j <= t@.len(),
            word_end(t@, i as int) == word_end(t@, j as int),
        decreases t@.len() - j,
    {
        j += 1;
    }
    j
}

pub fn skip_phrase(t: &Vec<char>, i: usize) -> (r: usize)
    requires
        i <= t@.len(),
    ensures
        r == phrase_end(t@, i as int),
        i <= r <= t@.len(),
{
    let mut j = i;
    while j < t.len() && (is_word(t[j]) || is_space(t[j]))
        invariant
            i <= j <= t@.len(),
            phrase_end(t@, i as int) == phrase_end(t@, j as int),
        decreases t@.len() - j,
    {
        j += 1;
    }
    j
}

pub fn seek_char(t: &Vec<char>, i: usize, c: char) -> (r: usize)
    requires
        i <= t@.len(),
    ensures
        r == find_char(t@, i as int, c),
        i <= r <= t@.len(),
{
    let mut j = i;
    while j < t.len() && t[j] != c
        invariant
            i <= j <= t@.len(),
            find_char(t@, i as int, c) == find_char(t@, j as int, c),
        decreases t@.len() - j,
    {
        j += 1;
    }
    j
}

pub fn has_char(t: &Vec<char>, i: usize, c: char) -> (r: bool)
    ensures
        r == char_at(t@, i as int, c),
{
    i < t.len() && t[i] == c
}

pub fn has_lit(t: &Vec<char>, i: usize, lit: &str) -> (r: bool)
    ensures
        r == lit_at(t@, i as int, lit@),
{
    let n = lit.unicode_len();
    if i > t.len() || n > t.len() - i {
        return false;
    }
    let mut k: usize = 0;
    while k < n
        invariant
            k <= n == lit@.len(),
            i + n <= t@.len() <= usize::MAX,
            forall|m: int| 0 <= m < k ==> t@[i + m] == lit@[m],
        decreases n - k,
    {
        if t[i + k] != lit.get_char(k) {
            assert(t@.subrange(i as int, i + n)[k as int] != lit@[k as int]);
            return false;
        }
        k += 1;
    }
    assert(t@.subrange(i as int, i + n) == lit@);
    true
}

} // verus!
