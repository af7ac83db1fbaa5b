//! Character classification and small text helpers.
//!
//! All formatting logic works over `Vec<char>`; this module supplies the
//! character predicates the tokenizer and formatter rely on.  The Unicode
//! `White_Space` and connector-punctuation sets and the ASCII helpers are
//! written out and verified here; the large Unicode classes (alphanumeric,
//! marks) come from outside code behind trusted wrappers.

use vstd::prelude::*;

verus! {

use vstd::std_specs::iter::IteratorSpec;

/// The Unicode `White_Space` code points.
pub open spec fn is_ws(c: char) -> bool {
    let u = c as u32;
    ||| (0x09 <= u && u <= 0x0D)
    ||| u == 0x20
    ||| u == 0x85
    ||| u == 0xA0
    ||| u == 0x1680
    ||| (0x2000 <= u && u <= 0x200A)
    ||| u == 0x2028
    ||| u == 0x2029
    ||| u == 0x202F
    ||| u == 0x205F
    ||| u == 0x3000
}

/// Whether `c` is a whitespace character (Unicode `White_Space`).
pub fn is_whitespace_char(c: char) -> (r: bool)
    ensures
        r == is_ws(c),
{
    let u = c as u32;
    (0x09 <= u && u <= 0x0D) || u == 0x20 || u == 0x85 || u == 0xA0 || u == 0x1680 || (0x2000 <= u
        && u <= 0x200A) || u == 0x2028 || u == 0x2029 || u == 0x202F || u == 0x205F || u == 0x3000
}

/// ASCII decimal digit.
pub open spec fn is_digit(c: char) -> bool {
    0x30 <= c as u32 && c as u32 <= 0x39
}

/// Whether `c` is an ASCII decimal digit.
pub fn is_digit_char(c: char) -> (r: bool)
    ensures
        r == is_digit(c),
{
    let u = c as u32;
    0x30 <= u && u <= 0x39
}

/// ASCII upper-casing of a single character; other characters are unchanged.
pub open spec fn upper_char(c: char) -> char {
    if 0x61 <= c as u32 && c as u32 <= 0x7A {
        ((c as u32 - 0x20) as u8) as char
    } else {
        c
    }
}

/// ASCII lower-casing of a single character; other characters are unchanged.
pub open spec fn lower_char(c: char) -> char {
    if 0x41 <= c as u32 && c as u32 <= 0x5A {
        ((c as u32 + 0x20) as u8) as char
    } else {
        c
    }
}

/// Upper-cases an ASCII letter, leaving any other character unchanged.
pub fn to_upper_char(c: char) -> (r: char)
    ensures
        r == upper_char(c),
{
    let u = c as u32;
    if 0x61 <= u && u <= 0x7A {
        ((u - 0x20) as u8) as char
    } else {
        c
    }
}

/// Lower-cases an ASCII letter, leaving any other character unchanged.
pub fn to_lower_char(c: char) -> (r: char)
    ensures
        r == lower_char(c),
{
    let u = c as u32;
    if 0x41 <= u && u <= 0x5A {
        ((u + 0x20) as u8) as char
    } else {
        c
    }
}

/// The number of bytes of the UTF-8 encoding of `c`.
pub open spec fn utf8_len(c: char) -> int {
    if (c as u32) < 0x80 {
        1
    } else if (c as u32) < 0x800 {
        2
    } else if (c as u32) < 0x10000 {
        3
    } else {
        4
    }
}

/// Computes the UTF-8 byte length of one character.
pub fn utf8_len_char(c: char) -> (r: usize)
    ensures
        r == utf8_len(c),
        1 <= r <= 4,
{
    let u = c as u32;
    if u < 0x80 {
        1
    } else if u < 0x800 {
        2
    } else if u < 0x10000 {
        3
    } else {
        4
    }
}

/// What `char::is_alphanumeric` returns; the class is a function of the
/// character alone.
pub uninterp spec fn alnum_class(c: char) -> bool;

/// What `unicode_categories`' mark test returns (categories Mn, Mc, Me);
/// a function of the character alone.
pub uninterp spec fn mark_class(c: char) -> bool;

/// Relies on `char::is_alphanumeric`: Unicode letters and numbers, a fixed
/// classification of the character.
#[verifier::external_body]
fn is_alphanumeric_char(c: char) -> (r: bool)
    ensures
        r == alnum_class(c),
{
    c.is_alphanumeric()
}

/// Relies on `unicode_categories::UnicodeCategories::is_mark`: Unicode
/// combining marks, a fixed classification of the character.
#[verifier::external_body]
fn is_mark_char(c: char) -> (r: bool)
    ensures
        r == mark_class(c),
{
    unicode_categories::UnicodeCategories::is_mark(c)
}

/// The Unicode connector-punctuation code points (category Pc): the low
/// line, the undertie family, and the vertical and wavy low lines.
pub open spec fn is_connector(c: char) -> bool {
    let u = c as u32;
    ||| u == 0x5F
    ||| u == 0x203F
    ||| u == 0x2040
    ||| u == 0x2054
    ||| u == 0xFE33
    ||| u == 0xFE34
    ||| u == 0xFE4D
    ||| u == 0xFE4E
    ||| u == 0xFE4F
    ||| u == 0xFF3F
}

/// Whether `c` is connector punctuation.
fn is_connector_char(c: char) -> (r: bool)
    ensures
        r == is_connector(c),
{
    let u = c as u32;
    u == 0x5F || u == 0x203F || u == 0x2040 || u == 0x2054 || u == 0xFE33 || u == 0xFE34
        || u == 0xFE4D || u == 0xFE4E || u == 0xFE4F || u == 0xFF3F
}

/// A character that may appear in a bare word token: alphanumeric, a
/// combining mark, or connector punctuation.
pub open spec fn is_word_char(c: char) -> bool {
    alnum_class(c) || mark_class(c) || is_connector(c)
}

/// Whether `c` may appear in a bare word token.
pub fn is_word_character(c: char) -> (r: bool)
    ensures
        r == is_word_char(c),
{
    is_alphanumeric_char(c) || is_mark_char(c) || is_connector_char(c)
}

/// The characters a placeholder name may contain: alphanumeric, `.`, `_`
/// or `$`.
pub open spec fn is_placeholder_name_char(c: char) -> bool {
    alnum_class(c) || c == '.' || c == '_' || c == '$'
}

/// Whether `c` may appear in a bare placeholder name.
pub fn is_placeholder_name_character(c: char) -> (r: bool)
    ensures
        r == is_placeholder_name_char(c),
{
    is_alphanumeric_char(c) || c == '.' || c == '_' || c == '$'
}

/// The characters multi-character operators are made of.
pub open spec fn is_op_char(c: char) -> bool {
    c == '!' || c == '<' || c == '>' || c == '=' || c == '|' || c == ':' || c == '-' || c == '~'
        || c == '*' || c == '&' || c == '@' || c == '^' || c == '?' || c == '#' || c == '/'
        || c == '%'
}

/// Whether `c` belongs to the operator alphabet.
pub fn is_operator_char(c: char) -> (r: bool)
    ensures
        r == is_op_char(c),
{
    c == '!' || c == '<' || c == '>' || c == '=' || c == '|' || c == ':' || c == '-' || c == '~'
        || c == '*' || c == '&' || c == '@' || c == '^' || c == '?' || c == '#' || c == '/'
        || c == '%'
}

/// `a + b`, stopping at the largest representable value.
pub open spec fn sat(a: int, b: int) -> int {
    if a + b <= usize::MAX {
        a + b
    } else {
        usize::MAX as int
    }
}

/// `a + b`, stopping at the largest representable value.
pub fn sat_add(a: usize, b: usize) -> (r: usize)
    ensures
        r == sat(a as int, b as int),
{
    if a <= usize::MAX - b {
        a + b
    } else {
        usize::MAX
    }
}

/// Collects the characters of a string slice into a vector.
pub fn str_chars(s: &str) -> (v: Vec<char>)
    ensures
        v@ == s@,
{
    broadcast use vstd::string::group_string_axioms;

    let mut v: Vec<char> = Vec::new();
    let mut it = s.chars();
    proof {
        assert(v@ + it.remaining() =~= s@);
    }
    loop
        invariant
            it.obeys_prophetic_iter_laws(),
            it.decrease() is Some,
            v@ + it.remaining() == s@,
        decreases it.decrease()->0,
    {
        match it.next() {
            Some(c) => {
                v.push(c);
                proof {
                    assert(v@ + it.remaining() =~= s@);
                }
            },
            None => {
                proof {
                    assert(v@ =~= s@);
                }
                return v;
            },
        }
    }
}

/// Relies on `core::iter::Iterator::collect` building a `String` from
/// characters in order.
#[verifier::external_body]
pub fn chars_to_string(v: &Vec<char>) -> (s: String)
    ensures
        s@ == v@,
{
    v.iter().collect()
}

/// Copies the range `[from, to)` of `s` into a fresh vector.
pub fn copy_range(s: &Vec<char>, from: usize, to: usize) -> (v: Vec<char>)
    requires
        from <= to <= s@.len(),
    ensures
        v@ == s@.subrange(from as int, to as int),
{
    let sub = vstd::slice::slice_subrange(s.as_slice(), from, to);
    let v = vstd::slice::slice_to_vec(sub);
    proof {
        assert(v@ =~= s@.subrange(from as int, to as int));
    }
    v
}

} // verus!
