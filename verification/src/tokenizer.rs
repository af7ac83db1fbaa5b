//! The tokenizer: a greedy longest-match scanner that splits raw SQL text
//! into typed tokens.  It is total — every character of the input ends up
//! in exactly one token — and lossless: concatenating the tokens' text
//! reproduces the input.

use vstd::prelude::*;
use crate::chars::copy_range;
use crate::chars::is_digit_char;
use crate::chars::is_operator_char;
use crate::chars::is_placeholder_name_character;
use crate::chars::is_whitespace_char;
use crate::chars::is_word_character;
use crate::chars::is_ws;
use crate::chars::str_chars;
use crate::keywords::match_list;
use crate::keywords::match_phrase;
use crate::keywords::join_phrases;
use crate::keywords::newline_after_phrases;
use crate::keywords::newline_phrases;
use crate::keywords::plain_one_word_phrases;
use crate::keywords::plain_two_word_phrases;
use crate::keywords::top_level_no_indent_phrases;
use crate::keywords::top_level_phrases;
use crate::tokens::lemma_texts_push;
use crate::tokens::texts;
use crate::tokens::PlaceholderKind;
use crate::tokens::Token;
use crate::tokens::TokenKind;
use crate::Dialect;
use crate::FormatOptions;

verus! {

/// Whether the character vectors hold the same text.
pub fn eq_chars(a: &Vec<char>, b: &Vec<char>) -> (r: bool)
    ensures
        r == (a@ == b@),
{
    if a.len() != b.len() {
        proof {
            assert(a@ != b@);
        }
        return false;
    }
    let mut i: usize = 0;
    while i < a.len()
        invariant
            i <= a.len(),
            a.len() == b.len(),
            forall|k: int| 0 <= k < i ==> a@[k] == b@[k],
        decreases a.len() - i,
    {
        if a[i] != b[i] {
            return false;
        }
        i = i + 1;
    }
    proof {
        assert(a@ =~= b@);
    }
    true
}

/// Whether `v` begins with `prefix`.
pub fn starts_with_chars(v: &Vec<char>, prefix: &Vec<char>) -> (r: bool)
    ensures
        r == (prefix.len() <= v.len() && v@.subrange(0, prefix.len() as int) == prefix@),
{
    if prefix.len() > v.len() {
        return false;
    }
    let mut i: usize = 0;
    while i < prefix.len()
        invariant
            i <= prefix.len(),
            prefix.len() <= v.len(),
            forall|k: int| 0 <= k < i ==> v@[k] == prefix@[k],
        decreases prefix.len() - i,
    {
        if v[i] != prefix[i] {
            proof {
                assert(v@.subrange(0, prefix.len() as int)[i as int] != prefix@[i as int]);
            }
            return false;
        }
        i = i + 1;
    }
    proof {
        assert(v@.subrange(0, prefix.len() as int) =~= prefix@);
    }
    true
}

/// Whether `v` is exactly the one character `c`.
pub fn is_single_char(v: &Vec<char>, c: char) -> (r: bool)
    ensures
        r == (v@ =~= seq![c]),
{
    if v.len() == 1 && v[0] == c {
        proof {
            assert(v@ =~= seq![c]);
        }
        true
    } else {
        false
    }
}

/// The end of the whitespace run starting at `pos`.
pub fn whitespace_end(s: &Vec<char>, pos: usize) -> (r: usize)
    requires
        pos <= s.len(),
    ensures
        pos <= r <= s.len(),
        r < s.len() ==> !is_ws(s@[r as int]),
        forall|k: int| pos <= k < r ==> is_ws(s@[k]),
        r == crate::keywords::ws_run_end(s@, pos as int),
{
    let mut j = pos;
    while j < s.len() && is_whitespace_char(s[j])
        invariant
            pos <= j <= s.len(),
            forall|k: int| pos <= k < j ==> is_ws(s@[k]),
            crate::keywords::ws_run_end(s@, pos as int) == crate::keywords::ws_run_end(
                s@,
                j as int,
            ),
        decreases s.len() - j,
    {
        j = j + 1;
    }
    j
}

/// Where the ASCII digit run beginning at `j` ends.
pub open spec fn digit_run_end(s: Seq<char>, j: int) -> int
    decreases s.len() - j,
{
    if j < 0 || j >= s.len() || !crate::chars::is_digit(s[j]) {
        j
    } else {
        digit_run_end(s, j + 1)
    }
}

/// The end of the ASCII digit run starting at `pos`.
fn digits_end(s: &Vec<char>, pos: usize) -> (r: usize)
    requires
        pos <= s.len(),
    ensures
        pos <= r <= s.len(),
        (pos < s.len() && crate::chars::is_digit(s@[pos as int])) ==> pos < r,
        forall|k: int| pos <= k < r ==> crate::chars::is_digit(s@[k]),
        r < s.len() ==> !crate::chars::is_digit(s@[r as int]),
        r == digit_run_end(s@, pos as int),
{
    let mut j = pos;
    while j < s.len() && is_digit_char(s[j])
        invariant
            pos <= j <= s.len(),
            forall|k: int| pos <= k < j ==> crate::chars::is_digit(s@[k]),
            digit_run_end(s@, pos as int) == digit_run_end(s@, j as int),
        decreases s.len() - j,
    {
        j = j + 1;
    }
    j
}

/// Where the line beginning at `j` ends: just before `\n` or a `\r\n`
/// pair, at the end of the input, or nowhere when a lone `\r` interrupts.
pub open spec fn line_end_spec(s: Seq<char>, j: int) -> Option<int>
    decreases s.len() - j,
{
    if j < 0 || j >= s.len() {
        Some(s.len() as int)
    } else if s[j] == '\n' {
        Some(j)
    } else if s[j] == '\r' {
        if j + 1 < s.len() && s[j + 1] == '\n' {
            Some(j)
        } else {
            None
        }
    } else {
        line_end_spec(s, j + 1)
    }
}

/// Scans to the end of the line: stops before `\n` or a `\r\n` pair, takes
/// the rest of the input if there is none, and fails on a lone `\r`.
fn till_line_ending(s: &Vec<char>, pos: usize) -> (r: Option<usize>)
    requires
        pos <= s.len(),
    ensures
        r is Some ==> pos <= r->0 <= s.len(),
        r is Some ==> forall|k: int| pos <= k < r->0 ==> (s@[k] != '\n' && s@[k] != '\r'),
        (r is Some) == (line_end_spec(s@, pos as int) is Some),
        r is Some ==> r->0 == line_end_spec(s@, pos as int)->0,
{
    let mut j = pos;
    while j < s.len()
        invariant
            pos <= j <= s.len(),
            forall|k: int| pos <= k < j ==> (s@[k] != '\n' && s@[k] != '\r'),
            line_end_spec(s@, pos as int) == line_end_spec(s@, j as int),
        decreases s.len() - j,
    {
        let c = s[j];
        if c == '\n' {
            return Some(j);
        }
        if c == '\r' {
            if j + 1 < s.len() && s[j + 1] == '\n' {
                return Some(j);
            }
            return None;
        }
        j = j + 1;
    }
    Some(j)
}

/// Where a block comment body beginning at `j` ends: just past the first
/// `*/`, or at the end of the input.
pub open spec fn block_comment_end_spec(s: Seq<char>, j: int) -> int
    decreases s.len() - j,
{
    if j < 0 || j + 1 >= s.len() {
        s.len() as int
    } else if s[j] == '*' && s[j + 1] == '/' {
        j + 2
    } else {
        block_comment_end_spec(s, j + 1)
    }
}

/// Where a comment at `pos` ends and whether it is a block comment: line
/// comments open with `#` or `--` and run to the line ending; block
/// comments open with `/*` and run to `*/` or the end of the input.
pub open spec fn comment_end_spec(s: Seq<char>, pos: int) -> Option<(int, bool)> {
    if pos < 0 || pos >= s.len() {
        None
    } else if s[pos] == '#' {
        match line_end_spec(s, pos + 1) {
            Some(e) => Some((e, false)),
            None => None,
        }
    } else if s[pos] == '-' {
        if pos + 1 < s.len() && s[pos + 1] == '-' {
            match line_end_spec(s, pos + 2) {
                Some(e) => Some((e, false)),
                None => None,
            }
        } else {
            None
        }
    } else if s[pos] == '/' {
        if pos + 1 < s.len() && s[pos + 1] == '*' {
            Some((block_comment_end_spec(s, pos + 2), true))
        } else {
            None
        }
    } else {
        None
    }
}

/// A comment starting at `pos`: line comments open with `#` or `--`, block
/// comments with `/*` and run to `*/` or the end of the input.  Returns the
/// end position and whether it is a block comment.
#[verifier::loop_isolation(false)]
fn get_comment_end(s: &Vec<char>, pos: usize) -> (r: Option<(usize, bool)>)
    requires
        pos < s.len(),
    ensures
        r is Some ==> pos < (r->0).0 <= s.len(),
        (r is Some) == (comment_end_spec(s@, pos as int) is Some),
        r is Some ==> (r->0).0 == (comment_end_spec(s@, pos as int)->0).0 && (r->0).1 == (
        comment_end_spec(s@, pos as int)->0).1,
{
    let c = s[pos];
    if c == '#' {
        return match till_line_ending(s, pos + 1) {
            Some(e) => Some((e, false)),
            None => None,
        };
    }
    if c == '-' {
        if pos + 1 < s.len() && s[pos + 1] == '-' {
            return match till_line_ending(s, pos + 2) {
                Some(e) => Some((e, false)),
                None => None,
            };
        }
        return None;
    }
    if c == '/' {
        if pos + 1 < s.len() && s[pos + 1] == '*' {
            let mut j = pos + 2;
            while j < s.len() && j + 1 < s.len()
                invariant
                    pos + 2 <= j <= s.len(),
                    block_comment_end_spec(s@, pos as int + 2) == block_comment_end_spec(
                        s@,
                        j as int,
                    ),
                decreases s.len() - j,
            {
                if s[j] == '*' && s[j + 1] == '/' {
                    return Some((j + 2, true));
                }
                j = j + 1;
            }
            return Some((s.len(), true));
        }
        return None;
    }
    None
}

/// Whether `s` has the two characters `a`, `b` at `pos`.
fn has_pair_at(s: &Vec<char>, pos: usize, a: char, b: char) -> (r: bool)
    requires
        pos <= s.len(),
    ensures
        r ==> pos + 2 <= s.len(),
        r == (pos + 1 < s.len() && s@[pos as int] == a && s@[pos as int + 1] == b),
{
    pos < s.len() && pos + 1 < s.len() && s[pos] == a && s[pos + 1] == b
}

/// Where a `::` or `[]` token at `pos` ends, if one sits there.
pub open spec fn type_specifier_end_spec(s: Seq<char>, pos: int) -> Option<int> {
    if 0 <= pos && pos + 1 < s.len() && ((s[pos] == ':' && s[pos + 1] == ':') || (s[pos] == '['
        && s[pos + 1] == ']')) {
        Some(pos + 2)
    } else {
        None
    }
}

/// A `::` or `[]` type-specifier token at `pos`; the caller has already
/// checked what kind of token precedes it.
fn get_type_specifier_end(s: &Vec<char>, pos: usize) -> (r: Option<usize>)
    requires
        pos < s.len(),
    ensures
        r is Some ==> pos < r->0 <= s.len(),
        (r is Some) == (type_specifier_end_spec(s@, pos as int) is Some),
        r is Some ==> r->0 == type_specifier_end_spec(s@, pos as int)->0,
{
    if has_pair_at(s, pos, ':', ':') || has_pair_at(s, pos, '[', ']') {
        Some(pos + 2)
    } else {
        None
    }
}

/// Where the scan for an unescaped `desired` character stops, starting at
/// `j`: a character of `escapes` immediately before a `desired` hides it;
/// the scan stops on the first visible `desired`, or at the end.
pub open spec fn till_escaping_stop(s: Seq<char>, j: int, desired: char, escapes: Seq<char>) -> int
    decreases s.len() - j,
{
    if j < 0 || j >= s.len() {
        s.len() as int
    } else if escapes.contains(s[j]) && j + 1 < s.len() && s[j + 1] == desired {
        till_escaping_stop(s, j + 2, desired, escapes)
    } else if s[j] == desired {
        j
    } else {
        till_escaping_stop(s, j + 1, desired, escapes)
    }
}

/// Scans up to the next unescaped `desired` character, skipping characters
/// of `escapes` that immediately precede a `desired`.  Returns where the
/// closing character sits, or the end of the input if there is none.
pub fn take_till_escaping(s: &Vec<char>, pos: usize, desired: char, escapes: &Vec<char>) -> (r:
    usize)
    requires
        pos <= s.len(),
    ensures
        pos <= r <= s.len(),
        r == till_escaping_stop(s@, pos as int, desired, escapes@),
{
    let mut j = pos;
    while j < s.len()
        invariant
            pos <= j <= s.len(),
            till_escaping_stop(s@, pos as int, desired, escapes@) == till_escaping_stop(
                s@,
                j as int,
                desired,
                escapes@,
            ),
        decreases s.len() - j,
    {
        let c = s[j];
        let mut escaped = false;
        if j + 1 < s.len() && s[j + 1] == desired {
            let mut i: usize = 0;
            while i < escapes.len()
                invariant
                    i <= escapes.len(),
                    escaped == exists|k: int| 0 <= k < i && escapes@[k] == c,
                decreases escapes.len() - i,
            {
                if escapes[i] == c {
                    escaped = true;
                }
                i = i + 1;
            }
            proof {
                assert(escaped == escapes@.contains(c));
            }
        } else {
            proof {
                assert(!(escapes@.contains(s@[j as int]) && j + 1 < s.len() && s@[j as int + 1]
                    == desired));
            }
        }
        if escaped {
            j = j + 2;
            if j > s.len() {
                return s.len();
            }
        } else {
            if c == desired {
                return j;
            }
            j = j + 1;
        }
    }
    j
}

/// Where a quoted region beginning at `i` ends: one past the closing
/// character, or nothing when the input runs out first.
pub open spec fn quoted_region_end(s: Seq<char>, i: int, desired: char, escapes: Seq<char>) -> Option<
    int,
> {
    let stop = till_escaping_stop(s, i, desired, escapes);
    if stop < s.len() {
        Some(stop + 1)
    } else {
        None
    }
}

/// Where a quoted region beginning at `i` ends, with an unterminated
/// literal running to the end of the input instead of failing.
pub open spec fn quoted_region_end_or_eoi(s: Seq<char>, i: int, desired: char, escapes: Seq<
    char>) -> int {
    let stop = till_escaping_stop(s, i, desired, escapes);
    if stop < s.len() {
        stop + 1
    } else {
        s.len() as int
    }
}

/// The end of a quoted region: content scanned by `take_till_escaping`,
/// then the closing quote itself; fails if the input ends first.
fn quoted_end(s: &Vec<char>, pos: usize, desired: char, escapes: &Vec<char>) -> (r: Option<usize>)
    requires
        pos <= s.len(),
    ensures
        r is Some ==> pos < r->0 <= s.len(),
        (r is Some) == (quoted_region_end(s@, pos as int, desired, escapes@) is Some),
        r is Some ==> r->0 == quoted_region_end(s@, pos as int, desired, escapes@)->0,
{
    let j = take_till_escaping(s, pos, desired, escapes);
    if j < s.len() {
        Some(j + 1)
    } else {
        None
    }
}

/// Like `quoted_end`, but an unterminated literal takes the rest of the
/// input rather than failing.
fn quoted_end_or_eoi(s: &Vec<char>, pos: usize, desired: char, escapes: &Vec<char>) -> (r: usize)
    requires
        pos <= s.len(),
    ensures
        pos < r <= s.len() || (pos == r && pos == s.len()),
        r == quoted_region_end_or_eoi(s@, pos as int, desired, escapes@),
{
    let j = take_till_escaping(s, pos, desired, escapes);
    if j < s.len() {
        j + 1
    } else {
        s.len()
    }
}

/// Where a string token at `pos` ends.  Each quote style has its own
/// escapes: backticks and brackets escape by doubling, double and single
/// quotes by doubling or backslash, `N'...'`/`E'...'` like single quotes,
/// and hex literals not at all.  Brackets open strings only under the
/// SQLServer dialect.
pub open spec fn string_end_spec(s: Seq<char>, pos: int, dialect: Dialect) -> Option<int> {
    if pos < 0 || pos >= s.len() {
        None
    } else {
        let c = s[pos];
        if c == '`' {
            Some(quoted_region_end_or_eoi(s, pos + 1, '`', "`"@))
        } else if c == '[' && dialect is SQLServer {
            Some(quoted_region_end_or_eoi(s, pos + 1, ']', "]"@))
        } else if c == '"' {
            Some(quoted_region_end_or_eoi(s, pos + 1, '"', "\"\\"@))
        } else if c == '\'' {
            Some(quoted_region_end_or_eoi(s, pos + 1, '\'', "'\\"@))
        } else if c == 'N' || c == 'E' {
            if pos + 1 < s.len() && s[pos + 1] == '\'' {
                Some(quoted_region_end_or_eoi(s, pos + 2, '\'', "'\\"@))
            } else {
                None
            }
        } else if c == 'x' || c == 'X' {
            if pos + 1 < s.len() && s[pos + 1] == '\'' {
                Some(quoted_region_end_or_eoi(s, pos + 2, '\'', ""@))
            } else {
                None
            }
        } else {
            None
        }
    }
}

/// A string token at `pos`: backtick, double- or single-quoted (with
/// doubling or backslash escapes), `N'...'`/`E'...'` variants, hex literals
/// `x'...'`, and — for the SQLServer dialect — `[bracketed identifiers]`.
/// An unterminated literal consumes to the end of the input.
fn get_string_end(s: &Vec<char>, pos: usize, dialect: Dialect) -> (r: Option<usize>)
    requires
        pos < s.len(),
    ensures
        r is Some ==> pos < r->0 <= s.len(),
        (r is Some) == (string_end_spec(s@, pos as int, dialect) is Some),
        r is Some ==> r->0 == string_end_spec(s@, pos as int, dialect)->0,
{
    let c = s[pos];
    if c == '`' {
        return Some(quoted_end_or_eoi(s, pos + 1, '`', &str_chars("`")));
    }
    if c == '[' && matches!(dialect, Dialect::SQLServer) {
        return Some(quoted_end_or_eoi(s, pos + 1, ']', &str_chars("]")));
    }
    if c == '"' {
        return Some(quoted_end_or_eoi(s, pos + 1, '"', &str_chars("\"\\")));
    }
    if c == '\'' {
        return Some(quoted_end_or_eoi(s, pos + 1, '\'', &str_chars("'\\")));
    }
    if c == 'N' || c == 'E' {
        if pos + 1 < s.len() && s[pos + 1] == '\'' {
            return Some(quoted_end_or_eoi(s, pos + 2, '\'', &str_chars("'\\")));
        }
        return None;
    }
    if c == 'x' || c == 'X' {
        if pos + 1 < s.len() && s[pos + 1] == '\'' {
            return Some(quoted_end_or_eoi(s, pos + 2, '\'', &str_chars("")));
        }
        return None;
    }
    None
}

/// Where the quoted-name form of a placeholder ends; backslash is the
/// only escape for quote characters here.
pub open spec fn placeholder_string_end_spec(s: Seq<char>, pos: int) -> Option<int> {
    if pos < 0 || pos >= s.len() {
        None
    } else {
        let c = s[pos];
        if c == '`' {
            quoted_region_end(s, pos + 1, '`', "`"@)
        } else if c == '[' {
            quoted_region_end(s, pos + 1, ']', "]"@)
        } else if c == '"' {
            quoted_region_end(s, pos + 1, '"', "\\"@)
        } else if c == '\'' {
            quoted_region_end(s, pos + 1, '\'', "\\"@)
        } else if c == 'N' {
            if pos + 1 < s.len() && s[pos + 1] == '\'' {
                quoted_region_end(s, pos + 2, '\'', "\\"@)
            } else {
                None
            }
        } else {
            None
        }
    }
}

/// The quoted-name form used after `@` or `:` in placeholders; backslash is
/// the only escape for quote characters here.
fn get_placeholder_string_end(s: &Vec<char>, pos: usize) -> (r: Option<usize>)
    requires
        pos <= s.len(),
    ensures
        r is Some ==> pos < r->0 <= s.len(),
        (r is Some) == (placeholder_string_end_spec(s@, pos as int) is Some),
        r is Some ==> r->0 == placeholder_string_end_spec(s@, pos as int)->0,
{
    if pos >= s.len() {
        return None;
    }
    let c = s[pos];
    if c == '`' {
        return quoted_end(s, pos + 1, '`', &str_chars("`"));
    }
    if c == '[' {
        return quoted_end(s, pos + 1, ']', &str_chars("]"));
    }
    if c == '"' {
        return quoted_end(s, pos + 1, '"', &str_chars("\\"));
    }
    if c == '\'' {
        return quoted_end(s, pos + 1, '\'', &str_chars("\\"));
    }
    if c == 'N' {
        if pos + 1 < s.len() && s[pos + 1] == '\'' {
            return quoted_end(s, pos + 2, '\'', &str_chars("\\"));
        }
        return None;
    }
    None
}

/// Where an opening token at `pos` ends: `(`, the word `CASE`, or `[`
/// under PostgreSql.
pub open spec fn open_paren_end_spec(s: Seq<char>, pos: int, dialect: Dialect) -> Option<int> {
    if pos < 0 || pos >= s.len() {
        None
    } else if s[pos] == '(' {
        Some(pos + 1)
    } else if s[pos] == '[' && dialect is PostgreSql {
        Some(pos + 1)
    } else {
        crate::keywords::phrase_match_at(s, pos, "CASE"@, 0)
    }
}

/// An opening token: `(`, the word `CASE`, or `[` under PostgreSql.
fn get_open_paren_end(s: &Vec<char>, pos: usize, dialect: Dialect) -> (r: Option<usize>)
    requires
        pos < s.len(),
    ensures
        r is Some ==> pos < r->0 <= s.len(),
        (r is Some) == (open_paren_end_spec(s@, pos as int, dialect) is Some),
        r is Some ==> r->0 == open_paren_end_spec(s@, pos as int, dialect)->0,
{
    if s[pos] == '(' {
        return Some(pos + 1);
    }
    if s[pos] == '[' && matches!(dialect, Dialect::PostgreSql) {
        return Some(pos + 1);
    }
    match_phrase(s, pos, &str_chars("CASE"))
}

/// Where a closing token at `pos` ends: `)`, the word `END`, or `]`
/// under PostgreSql.
pub open spec fn close_paren_end_spec(s: Seq<char>, pos: int, dialect: Dialect) -> Option<int> {
    if pos < 0 || pos >= s.len() {
        None
    } else if s[pos] == ')' {
        Some(pos + 1)
    } else if s[pos] == ']' && dialect is PostgreSql {
        Some(pos + 1)
    } else {
        crate::keywords::phrase_match_at(s, pos, "END"@, 0)
    }
}

/// A closing token: `)`, the word `END`, or `]` under PostgreSql.
fn get_close_paren_end(s: &Vec<char>, pos: usize, dialect: Dialect) -> (r: Option<usize>)
    requires
        pos < s.len(),
    ensures
        r is Some ==> pos < r->0 <= s.len(),
        (r is Some) == (close_paren_end_spec(s@, pos as int, dialect) is Some),
        r is Some ==> r->0 == close_paren_end_spec(s@, pos as int, dialect)->0,
{
    if s[pos] == ')' {
        return Some(pos + 1);
    }
    if s[pos] == ']' && matches!(dialect, Dialect::PostgreSql) {
        return Some(pos + 1);
    }
    match_phrase(s, pos, &str_chars("END"))
}

/// Where the exponent part `e[+|-]digits` ends if it begins at `m`.
pub open spec fn scientific_end_spec(s: Seq<char>, m: int) -> Option<int> {
    if 0 <= m < s.len() && s[m] == 'e' {
        let k = if m + 1 < s.len() && (s[m + 1] == '+' || s[m + 1] == '-') {
            m + 2
        } else {
            m + 1
        };
        let k2 = digit_run_end(s, k);
        if k2 > k {
            Some(k2)
        } else {
            None
        }
    } else {
        None
    }
}

/// Where a numeric literal at `pos` ends: an optional `-`, then scientific
/// notation, a decimal, or a plain digit run — the longest form wins.
pub open spec fn number_end_spec(s: Seq<char>, pos: int) -> Option<int> {
    if pos < 0 || pos >= s.len() {
        None
    } else {
        let j = if s[pos] == '-' {
            pos + 1
        } else {
            pos
        };
        if j >= s.len() || !crate::chars::is_digit(s[j]) {
            None
        } else {
            let mant = digit_run_end(s, j);
            let mant_dec: Option<int> = if mant < s.len() && s[mant] == '.' {
                Some(digit_run_end(s, mant + 1))
            } else {
                None
            };
            if mant_dec is Some && scientific_end_spec(s, mant_dec->0) is Some {
                scientific_end_spec(s, mant_dec->0)
            } else if scientific_end_spec(s, mant) is Some {
                scientific_end_spec(s, mant)
            } else if mant_dec is Some {
                mant_dec
            } else {
                Some(mant)
            }
        }
    }
}

/// A numeric literal: optional `-`, then scientific notation, a decimal,
/// or a plain digit run — tried longest first.
fn get_number_end(s: &Vec<char>, pos: usize) -> (r: Option<usize>)
    requires
        pos < s.len(),
    ensures
        r is Some ==> pos < r->0 <= s.len(),
        (r is Some) == (number_end_spec(s@, pos as int) is Some),
        r is Some ==> r->0 == number_end_spec(s@, pos as int)->0,
{
    let mut j = pos;
    if s[j] == '-' {
        j = j + 1;
    }
    if j >= s.len() || !is_digit_char(s[j]) {
        return None;
    }
    let mant = digits_end(s, j);
    let mant_dec: Option<usize> = if mant < s.len() && s[mant] == '.' {
        Some(digits_end(s, mant + 1))
    } else {
        Option::None
    };
    // scientific notation, with the decimal mantissa preferred
    if let Some(m) = mant_dec {
        if let Some(e) = scientific_end(s, m) {
            return Some(e);
        }
    }
    if let Some(e) = scientific_end(s, mant) {
        return Some(e);
    }
    match mant_dec {
        Some(m) => Some(m),
        Option::None => Some(mant),
    }
}

/// The exponent part `e[+|-]digits` if it begins exactly at `m`.
fn scientific_end(s: &Vec<char>, m: usize) -> (r: Option<usize>)
    requires
        m <= s.len(),
    ensures
        r is Some ==> m < r->0 <= s.len(),
        (r is Some) == (scientific_end_spec(s@, m as int) is Some),
        r is Some ==> r->0 == scientific_end_spec(s@, m as int)->0,
{
    if m < s.len() && s[m] == 'e' {
        let mut k = m + 1;
        if k < s.len() && (s[k] == '+' || s[k] == '-') {
            k = k + 1;
        }
        let k2 = digits_end(s, k);
        if k2 > k {
            return Some(k2);
        }
    }
    None
}

/// Where a run of operator characters beginning at `j` ends, taking at
/// most `limit` more characters.
pub open spec fn op_run_end(s: Seq<char>, j: int, limit: int) -> int
    decreases limit,
{
    if limit <= 0 || j < 0 || j >= s.len() || !crate::chars::is_op_char(s[j]) {
        j
    } else {
        op_run_end(s, j + 1, limit - 1)
    }
}

/// Where an operator token at `pos` ends: a run of two to five operator
/// characters, or nothing when fewer than two follow.
pub open spec fn operator_end_spec(s: Seq<char>, pos: int) -> Option<int> {
    let e = op_run_end(s, pos, 5);
    if e - pos >= 2 {
        Some(e)
    } else {
        None
    }
}

/// A run of two to five operator characters.
fn get_operator_end(s: &Vec<char>, pos: usize) -> (r: Option<usize>)
    requires
        pos < s.len(),
    ensures
        r is Some ==> pos < r->0 <= s.len(),
        (r is Some) == (operator_end_spec(s@, pos as int) is Some),
        r is Some ==> r->0 == operator_end_spec(s@, pos as int)->0,
{
    let mut j = pos;
    while j < s.len() && j - pos < 5 && is_operator_char(s[j])
        invariant
            pos <= j <= s.len(),
            j - pos <= 5,
            op_run_end(s@, pos as int, 5) == op_run_end(s@, j as int, 5 - (j - pos)),
        decreases s.len() - j,
    {
        j = j + 1;
    }
    proof {
        assert(op_run_end(s@, j as int, 5 - (j - pos)) == j as int);
    }
    if j - pos >= 2 {
        Some(j)
    } else {
        None
    }
}

/// Where the word-character run beginning at `j` ends.
pub open spec fn word_run_end(s: Seq<char>, j: int) -> int
    decreases s.len() - j,
{
    if j < 0 || j >= s.len() || !crate::chars::is_word_char(s[j]) {
        j
    } else {
        word_run_end(s, j + 1)
    }
}

/// A run of word characters.
fn get_word_end(s: &Vec<char>, pos: usize) -> (r: Option<usize>)
    requires
        pos < s.len(),
    ensures
        r is Some ==> pos < r->0 <= s.len(),
        r is Some ==> forall|k: int| pos <= k < r->0 ==> crate::chars::is_word_char(s@[k]),
        r is Some ==> (r->0 == s.len() || !crate::chars::is_word_char(s@[r->0 as int])),
        (r is Some) == (word_run_end(s@, pos as int) > pos),
        r is Some ==> r->0 == word_run_end(s@, pos as int),
{
    let mut j = pos;
    while j < s.len() && is_word_character(s[j])
        invariant
            pos <= j <= s.len(),
            forall|k: int| pos <= k < j ==> crate::chars::is_word_char(s@[k]),
            word_run_end(s@, pos as int) == word_run_end(s@, j as int),
        decreases s.len() - j,
    {
        j = j + 1;
    }
    if j > pos {
        Some(j)
    } else {
        None
    }
}

/// The decimal value of the digits in `[i, j)` on top of `acc`, or
/// nothing when a non-digit appears or the value leaves the machine
/// range — the way `usize` parsing fails.
pub open spec fn dec_value_from(s: Seq<char>, i: int, j: int, acc: int) -> Option<int>
    decreases j - i,
{
    if i >= j {
        Some(acc)
    } else if i < 0 || j > s.len() {
        None
    } else if !crate::chars::is_digit(s[i]) {
        None
    } else {
        let d = (s[i] as u32 - 0x30) as int;
        if acc * 10 + d > usize::MAX {
            None
        } else {
            dec_value_from(s, i + 1, j, acc * 10 + d)
        }
    }
}

/// A parsed decimal value stays within the machine range.
proof fn lemma_dec_value_bounds(s: Seq<char>, i: int, j: int, acc: int)
    requires
        0 <= acc <= usize::MAX,
    ensures
        dec_value_from(s, i, j, acc) is Some ==> 0 <= dec_value_from(s, i, j, acc)->0
            <= usize::MAX,
    decreases j - i,
{
    if i < j && 0 <= i && j <= s.len() && crate::chars::is_digit(s[i]) {
        let d = (s[i] as u32 - 0x30) as int;
        if acc * 10 + d <= usize::MAX {
            lemma_dec_value_bounds(s, i + 1, j, acc * 10 + d);
        }
    }
}

/// Parses a digit run as a decimal number the way `usize` parsing does:
/// fails on overflow.
fn parse_index(s: &Vec<char>, from: usize, to: usize) -> (r: Option<usize>)
    requires
        from <= to <= s.len(),
    ensures
        ({
            match dec_value_from(s@, from as int, to as int, 0) {
                Some(v) => r == Some(v as usize),
                None => r is None,
            }
        }),
{
    let mut v: usize = 0;
    let mut i = from;
    while i < to
        invariant
            from <= i <= to <= s.len(),
            dec_value_from(s@, from as int, to as int, 0) == dec_value_from(
                s@,
                i as int,
                to as int,
                v as int,
            ),
        decreases to - i,
    {
        let c = s[i];
        if !is_digit_char(c) {
            return None;
        }
        let d = (c as u32 - 0x30) as usize;
        v = match v.checked_mul(10) {
            Some(m) => match m.checked_add(d) {
                Some(x) => x,
                Option::None => {
                    return None;
                },
            },
            Option::None => {
                return None;
            },
        };
        i = i + 1;
    }
    Some(v)
}

/// Where the characters of a name run out, starting at `j`.
pub open spec fn name_run_end(s: Seq<char>, j: int) -> int
    decreases s.len() - j,
{
    if j < 0 || j >= s.len() || !crate::chars::is_placeholder_name_char(s[j]) {
        j
    } else {
        name_run_end(s, j + 1)
    }
}

/// The key of an indexed placeholder at `pos`: zero-based for `?N`,
/// one-based for `$N`, none for a bare `?` or an index too large for the
/// machine.
pub open spec fn indexed_key_spec(s: Seq<char>, pos: int) -> Option<crate::tokens::KeyView> {
    let d = digit_run_end(s, pos + 1);
    if d > pos + 1 {
        match dec_value_from(s, pos + 1, d, 0) {
            Some(v) => if s[pos] == '$' {
                Some(crate::tokens::KeyView::OneIndexed(v))
            } else {
                Some(crate::tokens::KeyView::ZeroIndexed(v))
            },
            None => None,
        }
    } else {
        None
    }
}

/// Where an indexed placeholder at `pos` ends: `?N` or `$N` with explicit
/// digits, or a bare `?`.
pub open spec fn indexed_placeholder_end_spec(s: Seq<char>, pos: int) -> Option<int> {
    if 0 <= pos < s.len() && (s[pos] == '?' || s[pos] == '$') {
        let d = digit_run_end(s, pos + 1);
        if d > pos + 1 {
            Some(d)
        } else if s[pos] == '?' {
            Some(pos + 1)
        } else {
            None
        }
    } else {
        None
    }
}

/// An indexed placeholder: `?N`, `$N`, or a bare `?`.  An explicit `?N`
/// index is zero-based, a `$N` index one-based; a bare `?` carries no
/// key, and so does an index too large for the machine.
fn get_indexed_placeholder(s: &Vec<char>, pos: usize) -> (r: Option<(usize, Option<
    PlaceholderKind>)>)
    requires
        pos < s.len(),
    ensures
        r is Some ==> pos < (r->0).0 <= s.len(),
        (r is Some) == (indexed_placeholder_end_spec(s@, pos as int) is Some),
        r is Some ==> (r->0).0 == indexed_placeholder_end_spec(s@, pos as int)->0,
        r is Some ==> crate::tokens::key_view((r->0).1) == indexed_key_spec(s@, pos as int),
{
    let c = s[pos];
    if c == '?' || c == '$' {
        let d = digits_end(s, pos + 1);
        if d > pos + 1 && d <= s.len() {
            proof {
                lemma_dec_value_bounds(s@, pos + 1, d as int, 0);
            }
            let key = match parse_index(s, pos + 1, d) {
                Some(ix) => if c == '$' {
                    Some(PlaceholderKind::OneIndexed(ix))
                } else {
                    Some(PlaceholderKind::ZeroIndexed(ix))
                },
                Option::None => Option::None,
            };
            return Some((d, key));
        }
    }
    if c == '?' {
        return Some((pos + 1, Option::None));
    }
    None
}

/// Where a bare named placeholder at `pos` ends: `@`, `:` or `$` followed
/// by at least one name character.
pub open spec fn ident_placeholder_end_spec(s: Seq<char>, pos: int) -> Option<int> {
    if 0 <= pos < s.len() && (s[pos] == '@' || s[pos] == ':' || s[pos] == '$') {
        let e = name_run_end(s, pos + 1);
        if e > pos + 1 {
            Some(e)
        } else {
            None
        }
    } else {
        None
    }
}

/// A named placeholder: `@name`, `:name` or `$name`; the key is the name
/// without its sigil.
fn get_ident_named_placeholder(s: &Vec<char>, pos: usize) -> (r: Option<(usize, Option<
    PlaceholderKind>)>)
    requires
        pos < s.len(),
    ensures
        r is Some ==> pos < (r->0).0 <= s.len(),
        (r is Some) == (ident_placeholder_end_spec(s@, pos as int) is Some),
        r is Some ==> (r->0).0 == ident_placeholder_end_spec(s@, pos as int)->0,
        r is Some ==> crate::tokens::key_view((r->0).1) == Some(
            crate::tokens::KeyView::Named(s@.subrange(pos + 1, (r->0).0 as int)),
        ),
{
    let c = s[pos];
    if c == '@' || c == ':' || c == '$' {
        let mut j = pos + 1;
        while j < s.len() && is_placeholder_name_character(s[j])
            invariant
                pos + 1 <= j <= s.len(),
                name_run_end(s@, pos as int + 1) == name_run_end(s@, j as int),
            decreases s.len() - j,
        {
            j = j + 1;
        }
        if j > pos + 1 {
            let name = copy_range(s, pos + 1, j);
            return Some((j, Some(PlaceholderKind::Named(name))));
        }
    }
    None
}

/// A quoted named placeholder: `@'name'`, `:"name"` and the like; the
/// quotes are stripped and backslash-escaped quotes unescaped in the key.
/// Where a quoted named placeholder at `pos` ends: `@` or `:` followed by
/// a quoted name.
pub open spec fn string_placeholder_end_spec(s: Seq<char>, pos: int) -> Option<int> {
    if 0 <= pos < s.len() && (s[pos] == '@' || s[pos] == ':') {
        placeholder_string_end_spec(s, pos + 1)
    } else {
        None
    }
}

fn get_string_named_placeholder(s: &Vec<char>, pos: usize) -> (r: Option<(usize, Option<
    PlaceholderKind>)>)
    requires
        pos < s.len(),
    ensures
        r is Some ==> pos < (r->0).0 <= s.len(),
        (r is Some) == (string_placeholder_end_spec(s@, pos as int) is Some),
        r is Some ==> (r->0).0 == string_placeholder_end_spec(s@, pos as int)->0,
        r is Some ==> crate::tokens::key_view((r->0).1) == Some(
            crate::tokens::KeyView::Named(
                unescaped(s@, pos + 2, (r->0).0 - 1, s@[(r->0).0 - 1]),
            ),
        ),
{
    let c = s[pos];
    if c == '@' || c == ':' {
        if let Some(e) = get_placeholder_string_end(s, pos + 1) {
            if pos + 2 <= e - 1 {
                let quote = s[e - 1];
                let name = unescape_key(s, pos + 2, e - 1, quote);
                return Some((e, Some(PlaceholderKind::Named(name))));
            }
            return Some((e, Some(PlaceholderKind::Named(Vec::new()))));
        }
    }
    None
}

/// The text of `[i, j)` with each backslash-plus-quote pair rewritten to
/// the bare quote character.
pub open spec fn unescaped(s: Seq<char>, i: int, j: int, quote: char) -> Seq<char>
    decreases j - i,
{
    if i < 0 || i >= j || j > s.len() {
        Seq::<char>::empty()
    } else if i + 1 < j && s[i] == '\\' && s[i + 1] == quote {
        seq![quote] + unescaped(s, i + 2, j, quote)
    } else {
        seq![s[i]] + unescaped(s, i + 1, j, quote)
    }
}

/// Rewrites each backslash-plus-quote pair to the bare quote character.
fn unescape_key(s: &Vec<char>, from: usize, to: usize, quote: char) -> (r: Vec<char>)
    requires
        from <= to <= s.len(),
    ensures
        r@ == unescaped(s@, from as int, to as int, quote),
{
    let mut out: Vec<char> = Vec::new();
    let mut i = from;
    while i < to
        invariant
            from <= i <= to <= s.len(),
            unescaped(s@, from as int, to as int, quote) == out@ + unescaped(
                s@,
                i as int,
                to as int,
                quote,
            ),
        decreases to - i,
    {
        if i + 1 < to && s[i] == '\\' && s[i + 1] == quote {
            out.push(quote);
            proof {
                assert(unescaped(s@, from as int, to as int, quote) =~= out@ + unescaped(
                    s@,
                    i as int + 2,
                    to as int,
                    quote,
                ));
            }
            i = i + 2;
        } else {
            out.push(s[i]);
            proof {
                assert(unescaped(s@, from as int, to as int, quote) =~= out@ + unescaped(
                    s@,
                    i as int + 1,
                    to as int,
                    quote,
                ));
            }
            i = i + 1;
        }
    }
    proof {
        assert(unescaped(s@, from as int, to as int, quote) =~= out@);
    }
    out
}

/// Where a braced placeholder `{name}` at `pos` ends.
pub open spec fn braced_placeholder_end_spec(s: Seq<char>, pos: int) -> Option<int> {
    if 0 <= pos < s.len() && s[pos] == '{' {
        let e = name_run_end(s, pos + 1);
        if e > pos + 1 && e < s.len() && s[e] == '}' {
            Some(e + 1)
        } else {
            None
        }
    } else {
        None
    }
}

/// A braced placeholder: `{name}`; the key is the name inside the braces.
fn get_braced_placeholder(s: &Vec<char>, pos: usize) -> (r: Option<(usize, Option<
    PlaceholderKind>)>)
    requires
        pos < s.len(),
    ensures
        r is Some ==> pos < (r->0).0 <= s.len(),
        (r is Some) == (braced_placeholder_end_spec(s@, pos as int) is Some),
        r is Some ==> (r->0).0 == braced_placeholder_end_spec(s@, pos as int)->0,
        r is Some ==> crate::tokens::key_view((r->0).1) == Some(
            crate::tokens::KeyView::Named(s@.subrange(pos + 1, (r->0).0 - 1)),
        ),
{
    if s[pos] == '{' {
        let mut j = pos + 1;
        while j < s.len() && is_placeholder_name_character(s[j])
            invariant
                pos + 1 <= j <= s.len(),
                name_run_end(s@, pos as int + 1) == name_run_end(s@, j as int),
            decreases s.len() - j,
        {
            j = j + 1;
        }
        if j > pos + 1 && j < s.len() && s[j] == '}' {
            let name = copy_range(s, pos + 1, j);
            return Some((j + 1, Some(PlaceholderKind::Named(name))));
        }
    }
    None
}

/// The key of a placeholder of any form at `pos`, following the same
/// priority as `placeholder_end_spec`: the name without its sigil for
/// `@name`-style forms, the unescaped quoted name, the braced name, or
/// the indexed key.
#[verifier::opaque]
pub open spec fn placeholder_key_spec(s: Seq<char>, pos: int, named_placeholders: bool) -> Option<
    crate::tokens::KeyView,
> {
    let ident = match ident_placeholder_end_spec(s, pos) {
        Some(e) => Some(crate::tokens::KeyView::Named(s.subrange(pos + 1, e))),
        None => None,
    };
    let quoted = match string_placeholder_end_spec(s, pos) {
        Some(e) => Some(crate::tokens::KeyView::Named(unescaped(s, pos + 2, e - 1, s[e - 1]))),
        None => None,
    };
    let braced = match braced_placeholder_end_spec(s, pos) {
        Some(e) => Some(crate::tokens::KeyView::Named(s.subrange(pos + 1, e - 1))),
        None => None,
    };
    if named_placeholders {
        if ident is Some {
            ident
        } else if quoted is Some {
            quoted
        } else if braced is Some {
            braced
        } else if indexed_placeholder_end_spec(s, pos) is Some {
            indexed_key_spec(s, pos)
        } else {
            None
        }
    } else {
        if indexed_placeholder_end_spec(s, pos) is Some {
            indexed_key_spec(s, pos)
        } else if ident is Some {
            ident
        } else if quoted is Some {
            quoted
        } else {
            braced
        }
    }
}

/// Where a placeholder of any form at `pos` ends: the first form that
/// matches wins, in the order set by `named_placeholders`.
pub open spec fn placeholder_end_spec(s: Seq<char>, pos: int, named_placeholders: bool) -> Option<
    int,
> {
    if named_placeholders {
        if ident_placeholder_end_spec(s, pos) is Some {
            ident_placeholder_end_spec(s, pos)
        } else if string_placeholder_end_spec(s, pos) is Some {
            string_placeholder_end_spec(s, pos)
        } else if braced_placeholder_end_spec(s, pos) is Some {
            braced_placeholder_end_spec(s, pos)
        } else {
            indexed_placeholder_end_spec(s, pos)
        }
    } else {
        if indexed_placeholder_end_spec(s, pos) is Some {
            indexed_placeholder_end_spec(s, pos)
        } else if ident_placeholder_end_spec(s, pos) is Some {
            ident_placeholder_end_spec(s, pos)
        } else if string_placeholder_end_spec(s, pos) is Some {
            string_placeholder_end_spec(s, pos)
        } else {
            braced_placeholder_end_spec(s, pos)
        }
    }
}

/// A placeholder of any form.  When named parameters were supplied the
/// named forms are tried first, otherwise the indexed form wins ties, so
/// that the token stream's shape does not depend on the parameter set.
fn get_placeholder(s: &Vec<char>, pos: usize, named_placeholders: bool) -> (r: Option<(usize,
    Option<PlaceholderKind>)>)
    requires
        pos < s.len(),
    ensures
        r is Some ==> pos < (r->0).0 <= s.len(),
        (r is Some) == (placeholder_end_spec(s@, pos as int, named_placeholders) is Some),
        r is Some ==> (r->0).0 == placeholder_end_spec(s@, pos as int, named_placeholders)->0,
        r is Some ==> crate::tokens::key_view((r->0).1) == placeholder_key_spec(
            s@,
            pos as int,
            named_placeholders,
        ),
{
    proof {
        reveal(placeholder_key_spec);
    }
    if named_placeholders {
        if let Some(r) = get_ident_named_placeholder(s, pos) {
            return Some(r);
        }
        if let Some(r) = get_string_named_placeholder(s, pos) {
            return Some(r);
        }
        if let Some(r) = get_braced_placeholder(s, pos) {
            return Some(r);
        }
        get_indexed_placeholder(s, pos)
    } else {
        if let Some(r) = get_indexed_placeholder(s, pos) {
            return Some(r);
        }
        if let Some(r) = get_ident_named_placeholder(s, pos) {
            return Some(r);
        }
        if let Some(r) = get_string_named_placeholder(s, pos) {
            return Some(r);
        }
        get_braced_placeholder(s, pos)
    }
}

/// Whether a reserved word may start at `pos`: not after a `.`, and only
/// on an ASCII letter or `$`.
pub open spec fn reserved_start_ok(s: Seq<char>, pos: int, prev_is_dot: bool) -> bool {
    &&& !prev_is_dot
    &&& 0 <= pos < s.len()
    &&& {
        let u = s[pos] as u32;
        (0x61 <= u && u <= 0x7A) || (0x41 <= u && u <= 0x5A) || s[pos] == '$'
    }
}

/// Where a reserved-word token at `pos` ends: the keyword classes are
/// tried in order — top-level, newline-after, newline, join, top-level
/// without indent, two-word, single-word — and within each class the
/// first phrase that matches wins.
pub open spec fn reserved_end_spec(s: Seq<char>, pos: int, prev_is_dot: bool) -> Option<int> {
    if !reserved_start_ok(s, pos, prev_is_dot) {
        None
    } else if crate::keywords::list_match_from(s, pos, crate::keywords::top_level_table(), 0)
        is Some {
        crate::keywords::list_match_from(s, pos, crate::keywords::top_level_table(), 0)
    } else if crate::keywords::list_match_from(s, pos, crate::keywords::newline_after_table(), 0)
        is Some {
        crate::keywords::list_match_from(s, pos, crate::keywords::newline_after_table(), 0)
    } else if crate::keywords::list_match_from(s, pos, crate::keywords::newline_table(), 0)
        is Some {
        crate::keywords::list_match_from(s, pos, crate::keywords::newline_table(), 0)
    } else if crate::keywords::list_match_from(s, pos, crate::keywords::join_table(), 0) is Some {
        crate::keywords::list_match_from(s, pos, crate::keywords::join_table(), 0)
    } else if crate::keywords::list_match_from(
        s,
        pos,
        crate::keywords::top_level_no_indent_table(),
        0,
    ) is Some {
        crate::keywords::list_match_from(s, pos, crate::keywords::top_level_no_indent_table(), 0)
    } else if crate::keywords::list_match_from(s, pos, crate::keywords::plain_two_word_table(), 0)
        is Some {
        crate::keywords::list_match_from(s, pos, crate::keywords::plain_two_word_table(), 0)
    } else {
        crate::keywords::list_match_from(s, pos, crate::keywords::plain_one_word_table(), 0)
    }
}

/// The kind a reserved-word token at `pos` gets: by the class that
/// matched it, except that `EXCEPT` after a `SELECT` clause and `AND`
/// after `BETWEEN` demote to plain reserved words, and `SET` under an
/// `UPDATE` clause forces the break after itself.
pub open spec fn reserved_kind_spec(
    s: Seq<char>,
    pos: int,
    prev_is_dot: bool,
    between_last: bool,
    select_last: bool,
    update_last: bool,
) -> Option<TokenKind> {
    if !reserved_start_ok(s, pos, prev_is_dot) {
        None
    } else if crate::keywords::list_match_from(s, pos, crate::keywords::top_level_table(), 0)
        is Some {
        let e = crate::keywords::list_match_from(s, pos, crate::keywords::top_level_table(), 0)->0;
        let value = s.subrange(pos, e);
        if value == "EXCEPT"@ && select_last {
            Some(TokenKind::Reserved)
        } else if value == "SET"@ && update_last {
            Some(TokenKind::ReservedNewlineAfter)
        } else {
            Some(TokenKind::ReservedTopLevel)
        }
    } else if crate::keywords::list_match_from(s, pos, crate::keywords::newline_after_table(), 0)
        is Some {
        Some(TokenKind::ReservedNewlineAfter)
    } else if crate::keywords::list_match_from(s, pos, crate::keywords::newline_table(), 0)
        is Some {
        let e = crate::keywords::list_match_from(s, pos, crate::keywords::newline_table(), 0)->0;
        if s.subrange(pos, e) == "AND"@ && between_last {
            Some(TokenKind::Reserved)
        } else {
            Some(TokenKind::ReservedNewline)
        }
    } else if crate::keywords::list_match_from(s, pos, crate::keywords::join_table(), 0) is Some {
        Some(TokenKind::Join)
    } else if crate::keywords::list_match_from(
        s,
        pos,
        crate::keywords::top_level_no_indent_table(),
        0,
    ) is Some {
        Some(TokenKind::ReservedTopLevelNoIndent)
    } else if crate::keywords::list_match_from(s, pos, crate::keywords::plain_two_word_table(), 0)
        is Some {
        Some(TokenKind::Reserved)
    } else if crate::keywords::list_match_from(s, pos, crate::keywords::plain_one_word_table(), 0)
        is Some {
        Some(TokenKind::Reserved)
    } else {
        None
    }
}

/// A reserved-word token, classified by the keyword tables.  `prev_is_dot`
/// suppresses keywords after a `.`; the other flags carry what the last
/// reserved tokens were, for the `EXCEPT`, `SET` and `BETWEEN ... AND`
/// reclassifications.
fn get_reserved_token(
    s: &Vec<char>,
    pos: usize,
    prev_is_dot: bool,
    between_last: bool,
    select_last: bool,
    update_last: bool,
) -> (r: Option<(usize, TokenKind, Vec<char>)>)
    requires
        pos < s.len(),
    ensures
        r is Some ==> pos < (r->0).0 <= s.len(),
        r is Some ==> (r->0).2@ == s@.subrange(pos as int, (r->0).0 as int),
        r is Some ==> !((r->0).1 is Whitespace),
        (r is Some) == (reserved_end_spec(s@, pos as int, prev_is_dot) is Some),
        r is Some ==> (r->0).0 == reserved_end_spec(s@, pos as int, prev_is_dot)->0,
        r is Some ==> Some((r->0).1) == reserved_kind_spec(
            s@,
            pos as int,
            prev_is_dot,
            between_last,
            select_last,
            update_last,
        ),
{
    if prev_is_dot {
        return None;
    }
    let c = s[pos];
    let u = c as u32;
    if !((0x61 <= u && u <= 0x7A) || (0x41 <= u && u <= 0x5A) || c == '$') {
        return None;
    }
    if let Some(e) = match_list(s, pos, &top_level_phrases()) {
        let value = copy_range(s, pos, e);
        let kind = if eq_chars(&value, &str_chars("EXCEPT")) && select_last {
            TokenKind::Reserved
        } else if eq_chars(&value, &str_chars("SET")) && update_last {
            TokenKind::ReservedNewlineAfter
        } else {
            TokenKind::ReservedTopLevel
        };
        return Some((e, kind, value));
    }
    if let Some(e) = match_list(s, pos, &newline_after_phrases()) {
        return Some((e, TokenKind::ReservedNewlineAfter, copy_range(s, pos, e)));
    }
    if let Some(e) = match_list(s, pos, &newline_phrases()) {
        let value = copy_range(s, pos, e);
        let kind = if eq_chars(&value, &str_chars("AND")) && between_last {
            TokenKind::Reserved
        } else {
            TokenKind::ReservedNewline
        };
        return Some((e, kind, value));
    }
    if let Some(e) = match_list(s, pos, &join_phrases()) {
        return Some((e, TokenKind::Join, copy_range(s, pos, e)));
    }
    if let Some(e) = match_list(s, pos, &top_level_no_indent_phrases()) {
        return Some((e, TokenKind::ReservedTopLevelNoIndent, copy_range(s, pos, e)));
    }
    if let Some(e) = match_list(s, pos, &plain_two_word_phrases()) {
        return Some((e, TokenKind::Reserved, copy_range(s, pos, e)));
    }
    if let Some(e) = match_list(s, pos, &plain_one_word_phrases()) {
        return Some((e, TokenKind::Reserved, copy_range(s, pos, e)));
    }
    None
}

/// The alias of a token: reserved words beginning with `CREATE` or
/// `SELECT` group under those names; every other token is its own alias.
pub open spec fn alias_view(kind: TokenKind, value: Seq<char>) -> Seq<char> {
    if kind is Reserved || kind is ReservedTopLevel || kind is ReservedTopLevelNoIndent
        || kind is ReservedNewline || kind is ReservedNewlineAfter || kind is Join {
        if value.len() >= "CREATE"@.len() && value.subrange(0, "CREATE"@.len() as int)
            == "CREATE"@ {
            "CREATE"@
        } else if value.len() >= "SELECT"@.len() && value.subrange(0, "SELECT"@.len() as int)
            == "SELECT"@ {
            "SELECT"@
        } else {
            value
        }
    } else {
        value
    }
}

/// Whether a `::` or `[]` token may follow a token of kind `prev_kind`.
pub open spec fn prev_allows_type_specifier(prev_kind: Option<TokenKind>) -> bool {
    match prev_kind {
        Option::None => true,
        Some(k) => k is CloseParen || k is Placeholder || k is Reserved || k is String
            || k is TypeSpecifier || k is Word,
    }
}

/// Where the token at `pos` ends: the matchers are tried in order —
/// comment, type specifier, string, opening, closing, number, reserved
/// word, operator, placeholder, word — and a single character is the
/// last resort.
#[verifier::opaque]
pub open spec fn next_token_end_spec(
    s: Seq<char>,
    pos: int,
    prev_kind: Option<TokenKind>,
    prev_is_dot: bool,
    named_placeholders: bool,
    dialect: Dialect,
) -> int {
    if comment_end_spec(s, pos) is Some {
        (comment_end_spec(s, pos)->0).0
    } else if prev_allows_type_specifier(prev_kind) && type_specifier_end_spec(s, pos) is Some {
        type_specifier_end_spec(s, pos)->0
    } else if string_end_spec(s, pos, dialect) is Some {
        string_end_spec(s, pos, dialect)->0
    } else if open_paren_end_spec(s, pos, dialect) is Some {
        open_paren_end_spec(s, pos, dialect)->0
    } else if close_paren_end_spec(s, pos, dialect) is Some {
        close_paren_end_spec(s, pos, dialect)->0
    } else if number_end_spec(s, pos) is Some {
        number_end_spec(s, pos)->0
    } else if reserved_end_spec(s, pos, prev_is_dot) is Some {
        reserved_end_spec(s, pos, prev_is_dot)->0
    } else if operator_end_spec(s, pos) is Some {
        operator_end_spec(s, pos)->0
    } else if placeholder_end_spec(s, pos, named_placeholders) is Some {
        placeholder_end_spec(s, pos, named_placeholders)->0
    } else if word_run_end(s, pos) > pos {
        word_run_end(s, pos)
    } else {
        pos + 1
    }
}

/// The kind of the token at `pos`, decided by the same matcher order as
/// `next_token_end_spec`.
#[verifier::opaque]
pub open spec fn next_token_kind_spec(
    s: Seq<char>,
    pos: int,
    prev_kind: Option<TokenKind>,
    prev_is_dot: bool,
    between_last: bool,
    select_last: bool,
    update_last: bool,
    named_placeholders: bool,
    dialect: Dialect,
) -> TokenKind {
    if comment_end_spec(s, pos) is Some {
        if (comment_end_spec(s, pos)->0).1 {
            TokenKind::BlockComment
        } else {
            TokenKind::LineComment
        }
    } else if prev_allows_type_specifier(prev_kind) && type_specifier_end_spec(s, pos) is Some {
        TokenKind::TypeSpecifier
    } else if string_end_spec(s, pos, dialect) is Some {
        TokenKind::String
    } else if open_paren_end_spec(s, pos, dialect) is Some {
        TokenKind::OpenParen
    } else if close_paren_end_spec(s, pos, dialect) is Some {
        TokenKind::CloseParen
    } else if number_end_spec(s, pos) is Some {
        TokenKind::Number
    } else if reserved_kind_spec(s, pos, prev_is_dot, between_last, select_last, update_last)
        is Some {
        reserved_kind_spec(s, pos, prev_is_dot, between_last, select_last, update_last)->0
    } else if operator_end_spec(s, pos) is Some {
        TokenKind::Operator
    } else if placeholder_end_spec(s, pos, named_placeholders) is Some {
        TokenKind::Placeholder
    } else if word_run_end(s, pos) > pos {
        TokenKind::Word
    } else {
        TokenKind::Operator
    }
}

/// Scans the next token at `pos`.  Total whenever `pos` sits on a
/// non-whitespace character; the last resort is a one-character operator.
fn get_next_token(
    s: &Vec<char>,
    pos: usize,
    prev_kind: Option<TokenKind>,
    prev_is_dot: bool,
    between_last: bool,
    select_last: bool,
    update_last: bool,
    named_placeholders: bool,
    dialect: Dialect,
) -> (r: (Token, usize))
    requires
        pos < s.len(),
        !is_ws(s@[pos as int]),
    ensures
        pos < r.1 <= s.len(),
        r.0.value@ == s@.subrange(pos as int, r.1 as int),
        !(r.0.kind is Whitespace),
        r.1 == next_token_end_spec(s@, pos as int, prev_kind, prev_is_dot, named_placeholders, dialect),
        r.0.kind == next_token_kind_spec(
            s@,
            pos as int,
            prev_kind,
            prev_is_dot,
            between_last,
            select_last,
            update_last,
            named_placeholders,
            dialect,
        ),
        r.0.alias@ == alias_view(r.0.kind, r.0.value@),
        crate::tokens::key_view(r.0.key) == (if r.0.kind is Placeholder {
            placeholder_key_spec(s@, pos as int, named_placeholders)
        } else {
            Option::<crate::tokens::KeyView>::None
        }),
{
    proof {
        reveal(next_token_end_spec);
        reveal(next_token_kind_spec);
    }
    if let Some((e, is_block)) = get_comment_end(s, pos) {
        let kind = if is_block {
            TokenKind::BlockComment
        } else {
            TokenKind::LineComment
        };
        return (make_token(s, pos, e, kind), e);
    }
    let prev_allows_ts = match prev_kind {
        Option::None => true,
        Some(k) => matches!(
            k,
            TokenKind::CloseParen | TokenKind::Placeholder | TokenKind::Reserved
                | TokenKind::String | TokenKind::TypeSpecifier | TokenKind::Word
        ),
    };
    if prev_allows_ts {
        if let Some(e) = get_type_specifier_end(s, pos) {
            return (make_token(s, pos, e, TokenKind::TypeSpecifier), e);
        }
    }
    if let Some(e) = get_string_end(s, pos, dialect) {
        return (make_token(s, pos, e, TokenKind::String), e);
    }
    if let Some(e) = get_open_paren_end(s, pos, dialect) {
        return (make_token(s, pos, e, TokenKind::OpenParen), e);
    }
    if let Some(e) = get_close_paren_end(s, pos, dialect) {
        return (make_token(s, pos, e, TokenKind::CloseParen), e);
    }
    if let Some(e) = get_number_end(s, pos) {
        return (make_token(s, pos, e, TokenKind::Number), e);
    }
    if let Some((e, kind, value)) = get_reserved_token(
        s,
        pos,
        prev_is_dot,
        between_last,
        select_last,
        update_last,
    ) {
        let alias = if starts_with_chars(&value, &str_chars("CREATE")) {
            str_chars("CREATE")
        } else if starts_with_chars(&value, &str_chars("SELECT")) {
            str_chars("SELECT")
        } else {
            copy_range(s, pos, e)
        };
        return (Token { kind, value, key: Option::None, alias }, e);
    }
    if let Some(e) = get_operator_end(s, pos) {
        return (make_token(s, pos, e, TokenKind::Operator), e);
    }
    if let Some((e, key)) = get_placeholder(s, pos, named_placeholders) {
        let value = copy_range(s, pos, e);
        let alias = copy_range(s, pos, e);
        return (Token { kind: TokenKind::Placeholder, value, key, alias }, e);
    }
    if let Some(e) = get_word_end(s, pos) {
        return (make_token(s, pos, e, TokenKind::Word), e);
    }
    // anything else is a single-character operator; line breaks cannot
    // reach here because they are whitespace
    (make_token(s, pos, pos + 1, TokenKind::Operator), pos + 1)
}

/// Builds a token whose value and alias are the source range.
fn make_token(s: &Vec<char>, from: usize, to: usize, kind: TokenKind) -> (t: Token)
    requires
        from <= to <= s.len(),
    ensures
        t.value@ == s@.subrange(from as int, to as int),
        t.kind == kind,
        t.alias@ == t.value@,
        t.key is None,
{
    let value = copy_range(s, from, to);
    let alias = copy_range(s, from, to);
    Token { kind, value, key: Option::None, alias }
}

/// The lookback state the scanner threads: the kind of the last
/// non-whitespace token (after join reclassification), whether it was a
/// lone dot, and whether the last reserved and top-level words were
/// `BETWEEN`, a `SELECT` clause, or `UPDATE`.
pub struct ScanFlags {
    pub prev_kind: Option<TokenKind>,
    pub prev_dot: bool,
    pub between: bool,
    pub select: bool,
    pub update: bool,
}

/// The scanner's state before any token.
pub open spec fn start_flags() -> ScanFlags {
    ScanFlags {
        prev_kind: Option::None,
        prev_dot: false,
        between: false,
        select: false,
        update: false,
    }
}

/// The token views produced from position `pos` on: whitespace runs
/// become whitespace tokens, anything else the token the matchers find,
/// with join keywords reclassified per `joins_top` and the lookback
/// flags threaded.  The guards against a non-advancing step never fire —
/// every matcher moves forward — and only keep the recursion visibly
/// finite.
#[verifier::opaque]
pub open spec fn scan(
    s: Seq<char>,
    pos: int,
    fl: ScanFlags,
    named: bool,
    joins_top: bool,
    dialect: Dialect,
) -> Seq<crate::tokens::TokenView>
    decreases s.len() - pos,
{
    if pos < 0 || pos >= s.len() {
        Seq::<crate::tokens::TokenView>::empty()
    } else if is_ws(s[pos]) {
        let we0 = crate::keywords::ws_run_end(s, pos);
        let we = if pos < we0 <= s.len() {
            we0
        } else {
            pos + 1
        };
        let v = s.subrange(pos, we);
        seq![
            crate::tokens::TokenView {
                kind: TokenKind::Whitespace,
                value: v,
                key: Option::None,
                alias: v,
            },
        ] + scan(s, we, fl, named, joins_top, dialect)
    } else {
        let e0 = next_token_end_spec(s, pos, fl.prev_kind, fl.prev_dot, named, dialect);
        let e = if pos < e0 <= s.len() {
            e0
        } else {
            pos + 1
        };
        let k0 = next_token_kind_spec(
            s,
            pos,
            fl.prev_kind,
            fl.prev_dot,
            fl.between,
            fl.select,
            fl.update,
            named,
            dialect,
        );
        let k = if k0 is Join {
            if joins_top {
                TokenKind::ReservedTopLevel
            } else {
                TokenKind::ReservedNewline
            }
        } else {
            k0
        };
        let value = s.subrange(pos, e);
        let alias = alias_view(k0, value);
        let key = if k0 is Placeholder {
            placeholder_key_spec(s, pos, named)
        } else {
            Option::<crate::tokens::KeyView>::None
        };
        let fl2 = ScanFlags {
            prev_kind: Some(k),
            prev_dot: value == seq!['.'],
            between: if k0 is Reserved {
                value == "BETWEEN"@
            } else {
                fl.between
            },
            select: if k0 is ReservedTopLevel {
                alias == "SELECT"@
            } else {
                fl.select
            },
            update: if k0 is ReservedTopLevel {
                value == "UPDATE"@
            } else {
                fl.update
            },
        };
        seq![crate::tokens::TokenView { kind: k, value, key, alias }] + scan(
            s,
            e,
            fl2,
            named,
            joins_top,
            dialect,
        )
    }
}

/// One non-whitespace step of the scan: the token the matchers find at
/// `pos`, followed by the scan of the rest under the updated flags.
proof fn lemma_scan_step(
    s: Seq<char>,
    pos: int,
    newpos: int,
    fl: ScanFlags,
    named: bool,
    joins_top: bool,
    dia: Dialect,
    tv: crate::tokens::TokenView,
)
    requires
        0 <= pos < s.len(),
        !is_ws(s[pos]),
        pos < newpos <= s.len(),
        newpos == next_token_end_spec(s, pos, fl.prev_kind, fl.prev_dot, named, dia),
        ({
            let k0 = next_token_kind_spec(
                s,
                pos,
                fl.prev_kind,
                fl.prev_dot,
                fl.between,
                fl.select,
                fl.update,
                named,
                dia,
            );
            &&& tv.kind == (if k0 is Join {
                if joins_top {
                    TokenKind::ReservedTopLevel
                } else {
                    TokenKind::ReservedNewline
                }
            } else {
                k0
            })
            &&& tv.value == s.subrange(pos, newpos)
            &&& tv.alias == alias_view(k0, tv.value)
            &&& tv.key == (if k0 is Placeholder {
                placeholder_key_spec(s, pos, named)
            } else {
                Option::<crate::tokens::KeyView>::None
            })
        }),
    ensures
        ({
            let k0 = next_token_kind_spec(
                s,
                pos,
                fl.prev_kind,
                fl.prev_dot,
                fl.between,
                fl.select,
                fl.update,
                named,
                dia,
            );
            scan(s, pos, fl, named, joins_top, dia) == seq![tv] + scan(
                s,
                newpos,
                ScanFlags {
                    prev_kind: Some(tv.kind),
                    prev_dot: tv.value == seq!['.'],
                    between: if k0 is Reserved {
                        tv.value == "BETWEEN"@
                    } else {
                        fl.between
                    },
                    select: if k0 is ReservedTopLevel {
                        tv.alias == "SELECT"@
                    } else {
                        fl.select
                    },
                    update: if k0 is ReservedTopLevel {
                        tv.value == "UPDATE"@
                    } else {
                        fl.update
                    },
                },
                named,
                joins_top,
                dia,
            )
        }),
{
    reveal_with_fuel(scan, 1);
}

/// One whitespace step of the scan: the run becomes one token and the
/// flags carry over unchanged.
proof fn lemma_scan_ws(
    s: Seq<char>,
    pos: int,
    we: int,
    fl: ScanFlags,
    named: bool,
    joins_top: bool,
    dia: Dialect,
)
    requires
        0 <= pos < s.len(),
        is_ws(s[pos]),
        we == crate::keywords::ws_run_end(s, pos),
        pos < we <= s.len(),
    ensures
        scan(s, pos, fl, named, joins_top, dia) == seq![
            crate::tokens::TokenView {
                kind: TokenKind::Whitespace,
                value: s.subrange(pos, we),
                key: Option::<crate::tokens::KeyView>::None,
                alias: s.subrange(pos, we),
            },
        ] + scan(s, we, fl, named, joins_top, dia),
{
    reveal_with_fuel(scan, 1);
}

/// The scan past the end of the input is empty.
proof fn lemma_scan_end(
    s: Seq<char>,
    pos: int,
    fl: ScanFlags,
    named: bool,
    joins_top: bool,
    dia: Dialect,
)
    requires
        pos >= s.len(),
    ensures
        scan(s, pos, fl, named, joins_top, dia) =~= Seq::<crate::tokens::TokenView>::empty(),
{
    reveal_with_fuel(scan, 1);
}

/// Splits `query` into tokens.  Lossless: concatenating the tokens' text
/// in order reproduces the input exactly, and every character is consumed.
/// The tokens themselves — kinds, texts, keys and aliases — are exactly
/// the scan of the input.
#[verifier::rlimit(100)]
pub fn tokenize(query: &str, named_placeholders: bool, options: &FormatOptions) -> (tokens: Vec<
    Token>)
    ensures
        texts(tokens@) == query@,
        crate::tokens::toks_view(tokens@) == scan(
            query@,
            0,
            start_flags(),
            named_placeholders,
            options.joins_as_top_level,
            options.dialect,
        ),
        forall|i: int| 0 <= i < tokens.len() ==> #[trigger] tokens@[i].value@.len() > 0,
        forall|i: int| 0 <= i < tokens.len() ==> !((#[trigger] tokens@[i].kind) is Join),
        forall|i: int|
            0 <= i < tokens.len() && (#[trigger] tokens@[i].kind) is Whitespace ==> forall|k: int|
                0 <= k < tokens@[i].value@.len() ==> is_ws(#[trigger] tokens@[i].value@[k]),
        forall|i: int|
            0 <= i < tokens.len() && !((#[trigger] tokens@[i].kind) is Whitespace) ==> !is_ws(
                tokens@[i].value@[0],
            ),
{
    let s = str_chars(query);
    let mut tokens: Vec<Token> = Vec::new();
    let mut pos: usize = 0;
    let mut last_non_ws: Option<usize> = Option::None;
    let mut last_reserved: Option<usize> = Option::None;
    let mut last_top_level: Option<usize> = Option::None;
    let ghost joins_top = options.joins_as_top_level;
    let ghost dia = options.dialect;
    let ghost mut fl = start_flags();

    let e0 = whitespace_end(&s, 0);
    if e0 > 0 {
        let t = make_token(&s, 0, e0, TokenKind::Whitespace);
        proof {
            lemma_texts_push(tokens@, t);
            assert(forall|k: int| 0 <= k < t.value@.len() ==> is_ws(#[trigger] t.value@[k]));
        }
        tokens.push(t);
        proof {
            crate::tokens::lemma_toks_view_push(Seq::<Token>::empty(), t);
            assert(tokens@ =~= Seq::<Token>::empty().push(t));
            lemma_scan_ws(s@, 0, e0 as int, fl, named_placeholders, joins_top, dia);
            crate::tokens::lemma_push_concat(
                Seq::<crate::tokens::TokenView>::empty(),
                crate::tokens::tok_view(t),
                scan(s@, e0 as int, fl, named_placeholders, joins_top, dia),
            );
            crate::tokens::lemma_empty_concat(
                seq![crate::tokens::tok_view(t)] + scan(
                    s@,
                    e0 as int,
                    fl,
                    named_placeholders,
                    joins_top,
                    dia,
                ),
            );
        }
        pos = e0;
    }
    proof {
        assert(texts(tokens@) =~= s@.subrange(0, pos as int));
        assert(forall|i: int| 0 <= i < tokens.len() ==> #[trigger] tokens@[i].value@.len() > 0);
        assert(crate::tokens::toks_view(tokens@) + scan(
            s@,
            pos as int,
            fl,
            named_placeholders,
            joins_top,
            dia,
        ) =~= scan(s@, 0, start_flags(), named_placeholders, joins_top, dia));
    }
    while pos < s.len()
        invariant
            joins_top == options.joins_as_top_level,
            dia == options.dialect,
            pos <= s.len(),
            pos < s.len() ==> !is_ws(s@[pos as int]),
            texts(tokens@) == s@.subrange(0, pos as int),
            s@ == query@,
            crate::tokens::toks_view(tokens@) + scan(
                s@,
                pos as int,
                fl,
                named_placeholders,
                joins_top,
                dia,
            ) == scan(s@, 0, start_flags(), named_placeholders, joins_top, dia),
            fl.prev_kind == (match last_non_ws {
                Some(i) => Some(tokens@[i as int].kind),
                Option::None => Option::<TokenKind>::None,
            }),
            fl.prev_dot == (match last_non_ws {
                Some(i) => tokens@[i as int].value@ == seq!['.'],
                Option::None => false,
            }),
            fl.between == (match last_reserved {
                Some(i) => tokens@[i as int].value@ == "BETWEEN"@,
                Option::None => false,
            }),
            fl.select == (match last_top_level {
                Some(i) => tokens@[i as int].alias@ == "SELECT"@,
                Option::None => false,
            }),
            fl.update == (match last_top_level {
                Some(i) => tokens@[i as int].value@ == "UPDATE"@,
                Option::None => false,
            }),
            last_non_ws is Some ==> last_non_ws->0 < tokens.len(),
            last_reserved is Some ==> last_reserved->0 < tokens.len(),
            last_top_level is Some ==> last_top_level->0 < tokens.len(),
            forall|i: int| 0 <= i < tokens.len() ==> #[trigger] tokens@[i].value@.len() > 0,
            forall|i: int|
                0 <= i < tokens.len() && (#[trigger] tokens@[i].kind) is Whitespace ==> forall|
                    k: int,
                |
                    0 <= k < tokens@[i].value@.len() ==> is_ws(#[trigger] tokens@[i].value@[k]),
            forall|i: int|
                0 <= i < tokens.len() && !((#[trigger] tokens@[i].kind) is Whitespace) ==> !is_ws(
                    tokens@[i].value@[0],
                ),
            forall|i: int| 0 <= i < tokens.len() ==> !((#[trigger] tokens@[i].kind) is Join),
        decreases s.len() - pos,
    {
        let prev_kind: Option<TokenKind> = match last_non_ws {
            Some(i) => Some(tokens[i].kind),
            Option::None => Option::None,
        };
        let prev_is_dot = match last_non_ws {
            Some(i) => is_single_char(&tokens[i].value, '.'),
            Option::None => false,
        };
        let between_last = match last_reserved {
            Some(i) => eq_chars(&tokens[i].value, &str_chars("BETWEEN")),
            Option::None => false,
        };
        let select_last = match last_top_level {
            Some(i) => eq_chars(&tokens[i].alias, &str_chars("SELECT")),
            Option::None => false,
        };
        let update_last = match last_top_level {
            Some(i) => eq_chars(&tokens[i].value, &str_chars("UPDATE")),
            Option::None => false,
        };
        let (tok, newpos) = get_next_token(
            &s,
            pos,
            prev_kind,
            prev_is_dot,
            between_last,
            select_last,
            update_last,
            named_placeholders,
            options.dialect,
        );
        let ghost k0 = tok.kind;
        let ghost fl_entry = fl;
        let mut tok = tok;
        let is_reserved = matches!(tok.kind, TokenKind::Reserved);
        let is_top = matches!(tok.kind, TokenKind::ReservedTopLevel);
        match tok.kind {
            TokenKind::Join => {
                tok.kind = if options.joins_as_top_level {
                    TokenKind::ReservedTopLevel
                } else {
                    TokenKind::ReservedNewline
                };
            },
            _ => {},
        }
        let is_ws_tok = matches!(tok.kind, TokenKind::Whitespace);
        proof {
            assert(!(tok.kind is Join));
            lemma_texts_push(tokens@, tok);
            assert(texts(tokens@.push(tok)) =~= s@.subrange(0, newpos as int));
            assert(tok.value@[0] == s@[pos as int]);
            fl = ScanFlags {
                prev_kind: Some(tok.kind),
                prev_dot: tok.value@ == seq!['.'],
                between: if k0 is Reserved {
                    tok.value@ == "BETWEEN"@
                } else {
                    fl.between
                },
                select: if k0 is ReservedTopLevel {
                    tok.alias@ == "SELECT"@
                } else {
                    fl.select
                },
                update: if k0 is ReservedTopLevel {
                    tok.value@ == "UPDATE"@
                } else {
                    fl.update
                },
            };
            lemma_scan_step(
                s@,
                pos as int,
                newpos as int,
                fl_entry,
                named_placeholders,
                joins_top,
                dia,
                crate::tokens::tok_view(tok),
            );
        }
        proof {
            crate::tokens::lemma_toks_view_push(tokens@, tok);
            crate::tokens::lemma_push_concat(
                crate::tokens::toks_view(tokens@),
                crate::tokens::tok_view(tok),
                scan(s@, newpos as int, fl, named_placeholders, joins_top, dia),
            );
        }
        tokens.push(tok);
        let ix = tokens.len() - 1;
        if is_reserved {
            last_reserved = Some(ix);
        }
        if is_top {
            last_top_level = Some(ix);
        }
        if !is_ws_tok {
            last_non_ws = Some(ix);
        }
        pos = newpos;
        let we = whitespace_end(&s, pos);
        if we > pos {
            let t = make_token(&s, pos, we, TokenKind::Whitespace);
            proof {
                lemma_texts_push(tokens@, t);
                assert(texts(tokens@.push(t)) =~= s@.subrange(0, we as int));
                assert(forall|k: int| 0 <= k < t.value@.len() ==> is_ws(#[trigger] t.value@[k]));
            }
            proof {
                crate::tokens::lemma_toks_view_push(tokens@, t);
                lemma_scan_ws(s@, pos as int, we as int, fl, named_placeholders, joins_top, dia);
                crate::tokens::lemma_push_concat(
                    crate::tokens::toks_view(tokens@),
                    crate::tokens::tok_view(t),
                    scan(s@, we as int, fl, named_placeholders, joins_top, dia),
                );
            }
            tokens.push(t);
            pos = we;
        }
    }
    proof {
        lemma_scan_end(s@, pos as int, fl, named_placeholders, joins_top, dia);
        assert(s@.subrange(0, s.len() as int) =~= s@);
        crate::tokens::lemma_concat_empty(crate::tokens::toks_view(tokens@));
    }
    tokens
}

} // verus!
