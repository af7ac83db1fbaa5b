//! The layout formatter: a single forward pass over the token sequence
//! that decides, per token, whether to break the line, indent, or fold a
//! region inline, and emits the result into a growing character buffer.

use vstd::prelude::*;
use crate::chars::is_ws;
use crate::chars::sat;
use crate::Indent;
use crate::indentation::indent_seq;
use crate::indentation::pop_through_block;
use crate::indentation::ptb_previous;
use crate::indentation::ptb_spans;
use crate::indentation::popped_block_was_folded;
use crate::indentation::IndentType;
use crate::indentation::PreviousTokens;
use crate::inline_block::block_scan;
use crate::inline_block::inline_eligible;
use crate::inline_block::scan_start;
use crate::inline_block::BlockInfo;
use crate::tokens::byte_len;
use crate::chars::is_whitespace_char;
use crate::chars::str_chars;
use crate::chars::to_lower_char;
use crate::chars::to_upper_char;
use crate::chars::chars_to_string;
use crate::indentation::Indentation;
use crate::chars::sat_add;
use crate::inline_block::InlineBlock;
use crate::params::Params;
use crate::tokens::token_byte_len;
use crate::tokens::PlaceholderKind;
use crate::tokens::Token;
use crate::tokens::TokenKind;
use crate::tokenizer::eq_chars;
use crate::tokenizer::is_single_char;
use crate::FormatOptions;
use crate::QueryParams;
use crate::SpanInfo;

verus! {

/// No whitespace at either end.
pub open spec fn trimmed(s: Seq<char>) -> bool {
    s.len() > 0 ==> (!is_ws(s[0]) && !is_ws(s[s.len() - 1]))
}

/// One step of the directive automaton over `-- fmt: off` / `-- fmt: on`
/// and their `/*`-opened forms: the state reached from `state` on `c`, or
/// what the automaton decides.  `Ok(state)` keeps scanning;
/// `Err(Some(d))` is a decision, `Err(None)` a mismatch.
pub open spec fn fmt_step(state: int, c: char) -> Result<int, Option<bool>> {
    if (state == 0 || state == 1) && c == '-' {
        Ok(state + 1)
    } else if state == 0 && c == '/' {
        Ok(9)
    } else if state == 9 && c == '*' {
        Ok(2)
    } else if state == 2 && c == ' ' {
        Ok(2)
    } else if state == 2 && (c == 'f' || c == 'F') {
        Ok(3)
    } else if state == 3 && (c == 'm' || c == 'M') {
        Ok(4)
    } else if state == 4 && (c == 't' || c == 'T') {
        Ok(5)
    } else if state == 5 && c == ' ' {
        Ok(5)
    } else if state == 5 && c == ':' {
        Ok(6)
    } else if state == 6 && c == ' ' {
        Ok(6)
    } else if state == 6 && (c == 'o' || c == 'O') {
        Ok(7)
    } else if state == 7 && (c == 'n' || c == 'N') {
        Err(Some(false))
    } else if state == 7 && (c == 'f' || c == 'F') {
        Ok(8)
    } else if state == 8 && (c == 'f' || c == 'F') {
        Err(Some(true))
    } else {
        Err(None)
    }
}

/// What the directive automaton decides on `s` from `state` at `i`:
/// `Some(true)` turns formatting off, `Some(false)` back on, `None` means
/// the text is no directive.
pub open spec fn fmt_directive(s: Seq<char>, i: int, state: int) -> Option<bool>
    decreases s.len() - i,
{
    if i < 0 || i >= s.len() {
        None
    } else {
        match fmt_step(state, s[i]) {
            Ok(next) => fmt_directive(s, i + 1, next),
            Err(d) => d,
        }
    }
}

/// Recognizes the formatting directives `-- fmt: off` and `-- fmt: on`,
/// opened by `--` or `/*` (ASCII case-insensitive, with space runs
/// allowed at the marked spots).  Returns `Some(true)` for off,
/// `Some(false)` for on, `None` otherwise.
pub fn check_fmt_off(s: &Vec<char>) -> (r: Option<bool>)
    ensures
        r == fmt_directive(s@, 0, 0),
{
    let mut state: u8 = 0;
    let mut i: usize = 0;
    while i < s.len()
        invariant
            i <= s.len(),
            state <= 9,
            fmt_directive(s@, 0, 0) == fmt_directive(s@, i as int, state as int),
        decreases s.len() - i,
    {
        let c = s[i];
        let next: u8 = if (state == 0 || state == 1) && c == '-' {
            state + 1
        } else if state == 0 && c == '/' {
            9
        } else if state == 9 && c == '*' {
            2
        } else if state == 2 && c == ' ' {
            2
        } else if state == 2 && (c == 'f' || c == 'F') {
            3
        } else if state == 3 && (c == 'm' || c == 'M') {
            4
        } else if state == 4 && (c == 't' || c == 'T') {
            5
        } else if state == 5 && c == ' ' {
            5
        } else if state == 5 && c == ':' {
            6
        } else if state == 6 && c == ' ' {
            6
        } else if state == 6 && (c == 'o' || c == 'O') {
            7
        } else if state == 7 && (c == 'n' || c == 'N') {
            return Some(false);
        } else if state == 7 && (c == 'f' || c == 'F') {
            8
        } else if state == 8 && (c == 'f' || c == 'F') {
            return Some(true);
        } else {
            return None;
        };
        state = next;
        i = i + 1;
    }
    None
}

/// Appends all of `v` to `q`.
fn push_all(q: &mut Vec<char>, v: &Vec<char>)
    ensures
        final(q)@ == old(q)@ + v@,
{
    let mut i: usize = 0;
    while i < v.len()
        invariant
            i <= v.len(),
            q@ == old(q)@ + v@.subrange(0, i as int),
        decreases v.len() - i,
    {
        q.push(v[i]);
        proof {
            assert(old(q)@ + v@.subrange(0, i as int) + seq![v@[i as int]] =~= old(q)@
                + v@.subrange(0, i + 1));
        }
        i = i + 1;
    }
    proof {
        assert(old(q)@ + v@.subrange(0, v.len() as int) =~= old(q)@ + v@);
    }
}

/// Removes trailing spaces and tabs.
/// The text with trailing spaces and tabs removed.
pub open spec fn trim_line_end(s: Seq<char>) -> Seq<char>
    decreases s.len(),
{
    if s.len() > 0 && (s.last() == ' ' || s.last() == '\t') {
        trim_line_end(s.drop_last())
    } else {
        s
    }
}

fn trim_spaces_end(q: &mut Vec<char>)
    ensures
        final(q)@ == trim_line_end(old(q)@),
{
    let mut l = q.len();
    proof {
        assert(old(q)@.take(l as int) =~= old(q)@);
    }
    while l > 0 && (q[l - 1] == ' ' || q[l - 1] == '\t')
        invariant
            l <= q.len(),
            q@ == old(q)@,
            trim_line_end(old(q)@) == trim_line_end(old(q)@.take(l as int)),
        decreases l,
    {
        proof {
            assert(old(q)@.take(l as int).drop_last() =~= old(q)@.take(l as int - 1));
        }
        l = l - 1;
    }
    proof {
        assert(old(q)@.take(q.len() as int) =~= old(q)@);
        assert(trim_line_end(old(q)@.take(l as int)) == old(q)@.take(l as int));
    }
    q.truncate(l);
}

/// Removes all trailing whitespace.
/// The text with all trailing whitespace removed.
pub open spec fn trim_ws_end(s: Seq<char>) -> Seq<char>
    decreases s.len(),
{
    if s.len() > 0 && is_ws(s.last()) {
        trim_ws_end(s.drop_last())
    } else {
        s
    }
}

fn trim_all_spaces_end(q: &mut Vec<char>)
    ensures
        final(q)@ == trim_ws_end(old(q)@),
{
    let mut l = q.len();
    proof {
        assert(old(q)@.take(l as int) =~= old(q)@);
    }
    while l > 0 && is_whitespace_char(q[l - 1])
        invariant
            l <= q.len(),
            q@ == old(q)@,
            trim_ws_end(old(q)@) == trim_ws_end(old(q)@.take(l as int)),
        decreases l,
    {
        proof {
            assert(old(q)@.take(l as int).drop_last() =~= old(q)@.take(l as int - 1));
        }
        l = l - 1;
    }
    proof {
        assert(old(q)@.take(q.len() as int) =~= old(q)@);
        assert(trim_ws_end(old(q)@.take(l as int)) == old(q)@.take(l as int));
    }
    q.truncate(l);
}

/// The rest of `v` from `i` with every whitespace run replaced by a
/// single space between words: `started` says whether a word was already
/// written, `in_word` whether the previous character continued one.
pub open spec fn eq_ws_from(v: Seq<char>, i: int, started: bool, in_word: bool) -> Seq<char>
    decreases v.len() - i,
{
    if i < 0 || i >= v.len() {
        Seq::<char>::empty()
    } else if is_ws(v[i]) {
        eq_ws_from(v, i + 1, started, false)
    } else if in_word {
        seq![v[i]] + eq_ws_from(v, i + 1, true, true)
    } else {
        (if started {
            seq![' ']
        } else {
            Seq::<char>::empty()
        }) + seq![v[i]] + eq_ws_from(v, i + 1, true, true)
    }
}

/// `v` with its whitespace runs each replaced by one separating space and
/// its leading and trailing runs dropped.
pub open spec fn equalized(v: Seq<char>) -> Seq<char> {
    eq_ws_from(v, 0, false, false)
}

/// Replaces every whitespace run in `v` by a single space and drops
/// leading and trailing runs.
fn equalize_whitespace(v: &Vec<char>) -> (r: Vec<char>)
    ensures
        r@ == equalized(v@),
{
    let mut out: Vec<char> = Vec::new();
    let mut i: usize = 0;
    while i < v.len()
        invariant
            i <= v.len(),
            equalized(v@) == out@ + eq_ws_from(v@, i as int, out.len() > 0, false),
        decreases v.len() - i,
    {
        if is_whitespace_char(v[i]) {
            i = i + 1;
        } else {
            if out.len() > 0 {
                out.push(' ');
            }
            out.push(v[i]);
            proof {
                assert(equalized(v@) =~= out@ + eq_ws_from(v@, i as int + 1, true, true));
            }
            i = i + 1;
            let ghost i0 = i as int;
            while i < v.len() && !is_whitespace_char(v[i])
                invariant
                    i0 <= i <= v.len(),
                    out.len() > 0,
                    equalized(v@) == out@ + eq_ws_from(v@, i as int, true, true),
                decreases v.len() - i,
            {
                out.push(v[i]);
                proof {
                    assert(equalized(v@) =~= out@ + eq_ws_from(v@, i as int + 1, true, true));
                }
                i = i + 1;
            }
            proof {
                assert(eq_ws_from(v@, i as int, true, true) == eq_ws_from(v@, i as int, true, false));
            }
        }
    }
    proof {
        assert(equalized(v@) =~= out@);
    }
    out
}

/// Whether the ignore list holds exactly this word.
fn in_ignore_list(words: &Vec<String>, v: &Vec<char>) -> (r: bool)
    ensures
        r == ignore_listed(words@, v@),
{
    let mut i: usize = 0;
    while i < words.len()
        invariant
            i <= words.len(),
            forall|k: int| 0 <= k < i ==> words@[k]@ != v@,
        decreases words.len() - i,
    {
        let w = str_chars(words[i].as_str());
        if eq_chars(&w, v) {
            return true;
        }
        i = i + 1;
    }
    false
}

/// Whether the ignore list has an entry equal to `v`.
pub open spec fn ignore_listed(words: Seq<String>, v: Seq<char>) -> bool {
    exists|i: int| 0 <= i < words.len() && words[i]@ == v
}

/// The case policy applied to a text: upper-cased, lower-cased, or kept,
/// with ignore-listed texts always kept.
pub open spec fn case_converted(options: FormatOptions, v: Seq<char>) -> Seq<char> {
    match options.uppercase {
        Some(upper) => {
            let exempt = match options.ignore_case_convert {
                Some(words) => ignore_listed(words@, v),
                None => false,
            };
            if exempt {
                v
            } else if upper {
                v.map_values(|c: char| crate::chars::upper_char(c))
            } else {
                v.map_values(|c: char| crate::chars::lower_char(c))
            }
        },
        None => v,
    }
}

/// Applies the configured keyword case policy to `v`: upper, lower, or
/// unchanged, with the ignore list exempting exact matches.
fn ascii_case_convert(options: &FormatOptions, v: &Vec<char>) -> (r: Vec<char>)
    ensures
        r@ == case_converted(*options, v@),
{
    let upper = match options.uppercase {
        Some(b) => b,
        None => {
            return copy_whole(v);
        },
    };
    match &options.ignore_case_convert {
        Some(words) => {
            if in_ignore_list(words, v) {
                return copy_whole(v);
            }
        },
        None => {},
    }
    let mut out: Vec<char> = Vec::new();
    let mut i: usize = 0;
    while i < v.len()
        invariant
            i <= v.len(),
            out.len() == i,
            forall|k: int|
                0 <= k < i ==> out@[k] == if upper {
                    crate::chars::upper_char(v@[k])
                } else {
                    crate::chars::lower_char(v@[k])
                },
        decreases v.len() - i,
    {
        if upper {
            out.push(to_upper_char(v[i]));
        } else {
            out.push(to_lower_char(v[i]));
        }
        i = i + 1;
    }
    proof {
        if upper {
            assert(out@ =~= v@.map_values(|c: char| crate::chars::upper_char(c)));
        } else {
            assert(out@ =~= v@.map_values(|c: char| crate::chars::lower_char(c)));
        }
    }
    out
}

/// A copy of the whole vector.
fn copy_whole(v: &Vec<char>) -> (r: Vec<char>)
    ensures
        r@ == v@,
{
    let r = crate::chars::copy_range(v, 0, v.len());
    proof {
        assert(v@.subrange(0, v.len() as int) =~= v@);
    }
    r
}

/// Walks the clause that follows `tokens[j - 1]`, accumulating its span,
/// sub-block count and argument count at the base depth.
#[verifier::loop_isolation(false)]
fn clause_scan_exec(tokens: &Vec<Token>, from: usize, base: usize) -> (r: (usize, usize, usize))
    ensures
        ({
            let acc = clause_scan(
                tokens@,
                from as int,
                base as int,
                ClauseScan { full_span: 0, blocks: 0, arguments: 0, level: base as int },
            );
            r.0 == acc.full_span && r.1 == acc.blocks && r.2 == acc.arguments
        }),
{
    let mut full_span: usize = 0;
    let mut blocks: usize = 0;
    let mut arguments: usize = 0;
    let mut level: usize = base;
    let mut j = from;
    let ghost target = clause_scan(
        tokens@,
        from as int,
        base as int,
        ClauseScan { full_span: 0, blocks: 0, arguments: 0, level: base as int },
    );
    while j < tokens.len()
        invariant
            target == clause_scan(
                tokens@,
                j as int,
                base as int,
                ClauseScan {
                    full_span: full_span as int,
                    blocks: blocks as int,
                    arguments: arguments as int,
                    level: level as int,
                },
            ),
        decreases tokens.len() - j,
    {
        let ghost acc_entry = ClauseScan {
            full_span: full_span as int,
            blocks: blocks as int,
            arguments: arguments as int,
            level: level as int,
        };
        let token = &tokens[j];
        let mut skip_len = false;
        match token.kind {
            TokenKind::OpenParen => {
                if level == base {
                    blocks = sat_add(blocks, 1);
                }
                level = sat_add(level, 1);
            },
            TokenKind::CloseParen => {
                if level > 0 {
                    level = level - 1;
                }
                if level < base {
                    proof {
                        assert(clause_scan(tokens@, j as int, base as int, acc_entry)
                            == acc_entry);
                    }
                    return (full_span, blocks, arguments);
                }
            },
            TokenKind::ReservedTopLevel | TokenKind::ReservedTopLevelNoIndent
                | TokenKind::ReservedNewlineAfter => {
                if level == base {
                    proof {
                        assert(clause_scan(tokens@, j as int, base as int, acc_entry)
                            == acc_entry);
                    }
                    return (full_span, blocks, arguments);
                }
            },
            TokenKind::Whitespace => {
                full_span = sat_add(full_span, 1);
                skip_len = true;
            },
            TokenKind::Operator => {
                if is_single_char(&token.value, ',') {
                    if level == base {
                        arguments = sat_add(arguments, 1);
                    }
                } else {
                    if arguments == 0 {
                        arguments = 1;
                    }
                }
            },
            _ => {
                if arguments == 0 {
                    arguments = 1;
                }
            },
        }
        if !skip_len {
            full_span = sat_add(full_span, token_byte_len(token));
        }
        proof {
            assert(clause_scan(tokens@, j as int, base as int, acc_entry) == clause_scan(
                tokens@,
                j as int + 1,
                base as int,
                ClauseScan {
                    full_span: full_span as int,
                    blocks: blocks as int,
                    arguments: arguments as int,
                    level: level as int,
                },
            ));
        }
        j = j + 1;
    }
    (full_span, blocks, arguments)
}

/// The per-run formatter state: the position in the token list, the
/// placeholder counter, the indentation stack, the inline-block detector,
/// and the current parenthesis depth.
struct Formatter {
    index: usize,
    params: Params,
    block_level: usize,
    indentation: Indentation,
    inline_block: InlineBlock,
}

/// The whole mutable state of one formatting run, as plain values.
pub struct Layout {
    pub params_index: int,
    pub block_level: int,
    pub indent: Indent,
    pub types: Seq<IndentType>,
    pub spans: Seq<SpanInfo>,
    pub previous: Seq<PreviousTokens>,
    pub ib_level: int,
    pub ib_max: int,
    pub ib_reserved: int,
    pub ib_top: int,
    pub ib_info: Seq<BlockInfo>,
}

/// The formatter's state as plain values.
spec fn lay(f: Formatter) -> Layout {
    Layout {
        params_index: f.params.index as int,
        block_level: f.block_level as int,
        indent: f.indentation.indent,
        types: f.indentation.indent_types@,
        spans: f.indentation.top_level_span@,
        previous: f.indentation.previous@,
        ib_level: f.inline_block.level as int,
        ib_max: f.inline_block.inline_max_length as int,
        ib_reserved: f.inline_block.reserved_limit as int,
        ib_top: f.inline_block.reserved_top_limit as int,
        ib_info: f.inline_block.info@,
    }
}

/// The text after a line break: trailing spaces go, a newline is added
/// unless one ends the text already, and the indentation follows — or a
/// single space stands for all of it in single-line mode.
pub open spec fn new_line_applied(q: Seq<char>, inline: bool, ind: Seq<char>) -> Seq<char> {
    let t = trim_line_end(q);
    if inline {
        t + seq![' ']
    } else {
        (if t.len() > 0 && t.last() == '\n' {
            t
        } else {
            t + seq!['\n']
        }) + ind
    }
}

/// What one word or literal adds to the output: reserved words are
/// case-folded and their whitespace equalized; everything gets one
/// trailing space.
pub open spec fn with_spaces_text(kind: TokenKind, value: Seq<char>, options: FormatOptions) -> Seq<
    char,
> {
    (if kind is Reserved {
        equalized(case_converted(options, value))
    } else {
        value
    }) + seq![' ']
}

/// The length of the innermost inline block on record, or zero.
pub open spec fn ib_len_l(st: Layout) -> int {
    if st.ib_info.len() > 0 {
        st.ib_info.last().length as int
    } else {
        0
    }
}

/// The length of the innermost inline block on record, or zero.
spec fn ib_len(f: Formatter) -> int {
    ib_len_l(lay(f))
}

/// The span of the innermost open top-level clause, or zero.
pub open spec fn top_span_len_l(st: Layout) -> int {
    if st.spans.len() > 0 {
        st.spans.last().full_span as int
    } else {
        0
    }
}

/// The span of the innermost open top-level clause, or zero.
spec fn top_span_len(f: Formatter) -> int {
    top_span_len_l(lay(f))
}

/// The last top-level reserved word of the current level, if any.
pub open spec fn prev_top_l(st: Layout) -> Option<(usize, SpanInfo)> {
    if st.previous.len() > 0 {
        st.previous.last().top_level_reserved
    } else {
        None
    }
}

/// The last top-level reserved word of the current level, if any.
spec fn prev_top(f: Formatter) -> Option<(usize, SpanInfo)> {
    prev_top_l(lay(f))
}

/// Whether `v` lower-cases to `w`.
pub open spec fn lower_eq(v: Seq<char>, w: Seq<char>) -> bool {
    v.map_values(|c: char| crate::chars::lower_char(c)) == w
}

/// Whether a comma keeps its line: inside an inline block, in a `LIMIT`
/// clause, or under a clause short enough for the argument ceiling.
pub open spec fn comma_folds_l(st: Layout, tokens: Seq<Token>, options: FormatOptions) -> bool {
    ||| st.ib_level > 0
    ||| (st.previous.len() > 0 && match st.previous.last().reserved {
        Some(i) => i < tokens.len() && lower_eq(tokens[i as int].value@, "limit"@),
        None => false,
    })
    ||| (st.previous.len() > 0 && match st.previous.last().top_level_reserved {
        Some((ti, span)) => match options.max_inline_arguments {
            Some(l) => l >= span.full_span,
            None => false,
        },
        None => false,
    })
}

/// Whether a comma keeps its line: inside an inline block, in a `LIMIT`
/// clause, or under a clause short enough for the argument ceiling.
spec fn comma_folds(f: Formatter, tokens: Seq<Token>, options: FormatOptions) -> bool {
    comma_folds_l(lay(f), tokens, options)
}

/// A stack with its innermost frame removed when that frame is a
/// top-level clause.
pub open spec fn drop_top_types(t: Seq<IndentType>) -> Seq<IndentType> {
    if t.len() > 0 && t.last() is Top {
        t.drop_last()
    } else {
        t
    }
}

/// A side stack shortened along with `drop_top_types`.
pub open spec fn drop_top_seq<A>(t: Seq<IndentType>, s: Seq<A>) -> Seq<A> {
    if t.len() > 0 && t.last() is Top && s.len() > 0 {
        s.drop_last()
    } else {
        s
    }
}

/// The stacks after a newline word folded a clause back open: when the
/// governing clause was folded onto one line, its frame is pushed now.
pub open spec fn nw_types_l(st: Layout) -> Seq<IndentType> {
    match prev_top_l(st) {
        Some((ti, s)) => if !s.newline_after {
            st.types.push(IndentType::Top)
        } else {
            st.types
        },
        None => st.types,
    }
}

/// The stacks after a newline word folded a clause back open.
spec fn nw_types(f: Formatter) -> Seq<IndentType> {
    nw_types_l(lay(f))
}

/// The clause spans along with `nw_types_l`.
pub open spec fn nw_spans_l(st: Layout) -> Seq<SpanInfo> {
    match prev_top_l(st) {
        Some((ti, s)) => if !s.newline_after {
            st.spans.push(s)
        } else {
            st.spans
        },
        None => st.spans,
    }
}

/// The clause spans along with `nw_types`.
spec fn nw_spans(f: Formatter) -> Seq<SpanInfo> {
    nw_spans_l(lay(f))
}

/// The re-indentation of a block comment's interior from position `i`:
/// the first line is kept; a later line opening with whitespace gets the
/// indentation plus one space in place of its leading run; other lines
/// pass through.  `st` is the scanner's state: inside a line, at a line
/// start, or skipping a replaced whitespace run.
pub open spec fn ic_from(v: Seq<char>, i: int, ind: Seq<char>, st: int) -> Seq<char>
    decreases v.len() - i,
{
    if i < 0 || i >= v.len() {
        Seq::<char>::empty()
    } else {
        let c = v[i];
        if st == 0 {
            if c == '\n' {
                seq!['\n'] + ic_from(v, i + 1, ind, 1)
            } else {
                seq![c] + ic_from(v, i + 1, ind, 0)
            }
        } else if st == 1 {
            if c == ' ' || c == '\t' {
                ind + seq![' '] + ic_from(v, i + 1, ind, 2)
            } else if c == '\n' {
                seq!['\n'] + ic_from(v, i + 1, ind, 1)
            } else {
                seq![c] + ic_from(v, i + 1, ind, 0)
            }
        } else {
            if c == ' ' || c == '\t' {
                ic_from(v, i + 1, ind, 2)
            } else if c == '\n' {
                seq!['\n'] + ic_from(v, i + 1, ind, 1)
            } else {
                seq![c] + ic_from(v, i + 1, ind, 0)
            }
        }
    }
}

/// The first non-whitespace token at or after `j`.
pub open spec fn next_non_ws_from(tokens: Seq<Token>, j: int) -> Option<int>
    decreases tokens.len() - j,
{
    if j < 0 || j >= tokens.len() {
        None
    } else if !(tokens[j].kind is Whitespace) {
        Some(j)
    } else {
        next_non_ws_from(tokens, j + 1)
    }
}

/// The first non-whitespace token at or before `j`.
pub open spec fn prev_non_ws_from(tokens: Seq<Token>, j: int) -> Option<int>
    decreases j + 1,
{
    if j < 0 || j >= tokens.len() {
        None
    } else if !(tokens[j].kind is Whitespace) {
        Some(j)
    } else {
        prev_non_ws_from(tokens, j - 1)
    }
}

/// A backward scan lands on a position between zero and where it began.
pub proof fn lemma_prev_non_ws_bounds(tokens: Seq<Token>, j: int)
    ensures
        prev_non_ws_from(tokens, j) is Some ==> 0 <= prev_non_ws_from(tokens, j)->0 <= j,
    decreases j + 1,
{
    if 0 <= j < tokens.len() && tokens[j].kind is Whitespace {
        lemma_prev_non_ws_bounds(tokens, j - 1);
    }
}

/// The running state of a clause scan.
pub struct ClauseScan {
    pub full_span: int,
    pub blocks: int,
    pub arguments: int,
    pub level: int,
}

/// The scan of the clause following `tokens[j]`: lengths accumulate, the
/// blocks and comma-separated arguments at the clause's own depth are
/// counted, and the scan stops at the next clause keyword at that depth
/// or at the close of the surrounding block.
pub open spec fn clause_scan(tokens: Seq<Token>, j: int, base: int, acc: ClauseScan) -> ClauseScan
    decreases tokens.len() - j,
{
    if j < 0 || j >= tokens.len() {
        acc
    } else {
        let t = tokens[j];
        match t.kind {
            TokenKind::OpenParen => {
                let a = ClauseScan {
                    blocks: if acc.level == base {
                        sat(acc.blocks, 1)
                    } else {
                        acc.blocks
                    },
                    level: sat(acc.level, 1),
                    full_span: sat(acc.full_span, byte_len(t.value@)),
                    ..acc
                };
                clause_scan(tokens, j + 1, base, a)
            },
            TokenKind::CloseParen => {
                let lv = if acc.level > 0 {
                    acc.level - 1
                } else {
                    0int
                };
                if lv < base {
                    acc
                } else {
                    clause_scan(
                        tokens,
                        j + 1,
                        base,
                        ClauseScan {
                            level: lv,
                            full_span: sat(acc.full_span, byte_len(t.value@)),
                            ..acc
                        },
                    )
                }
            },
            TokenKind::ReservedTopLevel | TokenKind::ReservedTopLevelNoIndent
                | TokenKind::ReservedNewlineAfter => {
                if acc.level == base {
                    acc
                } else {
                    clause_scan(
                        tokens,
                        j + 1,
                        base,
                        ClauseScan { full_span: sat(acc.full_span, byte_len(t.value@)), ..acc },
                    )
                }
            },
            TokenKind::Whitespace => {
                clause_scan(
                    tokens,
                    j + 1,
                    base,
                    ClauseScan { full_span: sat(acc.full_span, 1), ..acc },
                )
            },
            TokenKind::Operator => {
                let a = if t.value@ =~= seq![','] {
                    ClauseScan {
                        arguments: if acc.level == base {
                            sat(acc.arguments, 1)
                        } else {
                            acc.arguments
                        },
                        ..acc
                    }
                } else {
                    ClauseScan {
                        arguments: if acc.arguments == 0 {
                            1int
                        } else {
                            acc.arguments
                        },
                        ..acc
                    }
                };
                clause_scan(
                    tokens,
                    j + 1,
                    base,
                    ClauseScan { full_span: sat(a.full_span, byte_len(t.value@)), ..a },
                )
            },
            _ => {
                let a = ClauseScan {
                    arguments: if acc.arguments == 0 {
                        1int
                    } else {
                        acc.arguments
                    },
                    ..acc
                };
                clause_scan(
                    tokens,
                    j + 1,
                    base,
                    ClauseScan { full_span: sat(a.full_span, byte_len(t.value@)), ..a },
                )
            },
        }
    }
}

/// What the scan of the clause starting after `tokens[index]` reports:
/// its span and composition, and whether breaks are owed before and
/// after the keyword, judged against the top-level folding ceiling (and,
/// inside an inline block, against that block's length).
pub open spec fn clause_info(
    tokens: Seq<Token>,
    index: int,
    base: int,
    block_len: int,
    max_top: Option<usize>,
) -> SpanInfo {
    let acc = clause_scan(
        tokens,
        index + 1,
        base,
        ClauseScan { full_span: 0, blocks: 0, arguments: 0, level: base },
    );
    let newline_before: bool = if block_len > 0 {
        (match max_top {
            Some(l) => l as int,
            None => 0,
        }) < block_len
    } else {
        true
    };
    let newline_after: bool = if block_len > 0 {
        (match max_top {
            Some(l) => l as int,
            None => 0,
        }) < acc.full_span
    } else {
        match max_top {
            Some(l) => (l as int) < acc.full_span,
            None => true,
        }
    };
    SpanInfo {
        full_span: acc.full_span as usize,
        blocks: acc.blocks as usize,
        newline_before,
        newline_after,
        arguments: acc.arguments as usize,
    }
}

/// Whether `v` equals `word` after ASCII lower-casing `v`.
fn eq_word_ci(v: &Vec<char>, word: &Vec<char>) -> (r: bool)
    ensures
        r == (v@.map_values(|c: char| crate::chars::lower_char(c)) == word@),
{
    if v.len() != word.len() {
        proof {
            assert(v@.map_values(|c: char| crate::chars::lower_char(c)).len() == v.len());
        }
        return false;
    }
    let mut i: usize = 0;
    while i < v.len()
        invariant
            i <= v.len(),
            v.len() == word.len(),
            forall|k: int| 0 <= k < i ==> crate::chars::lower_char(v@[k]) == word@[k],
        decreases v.len() - i,
    {
        if to_lower_char(v[i]) != word[i] {
            proof {
                assert(v@.map_values(|c: char| crate::chars::lower_char(c))[i as int]
                    != word@[i as int]);
            }
            return false;
        }
        i = i + 1;
    }
    proof {
        assert(v@.map_values(|c: char| crate::chars::lower_char(c)) =~= word@);
    }
    true
}

impl Formatter {
    /// The token `off` places after the current one.
    fn next_token_ix(&self, tokens: &Vec<Token>, off: usize) -> (r: Option<usize>)
        ensures
            r is Some ==> r->0 < tokens.len(),
            (r is Some) == (off <= tokens.len() && self.index < tokens.len() - off),
            r is Some ==> r->0 == self.index + off,
    {
        if off <= tokens.len() && self.index < tokens.len() - off {
            Some(self.index + off)
        } else {
            None
        }
    }

    /// The token `off` places before the current one.
    fn previous_token_ix(&self, tokens: &Vec<Token>, off: usize) -> (r: Option<usize>)
        ensures
            r is Some ==> r->0 < tokens.len(),
            (r is Some) == (off <= self.index && self.index - off < tokens.len()),
            r is Some ==> r->0 == self.index - off,
    {
        if off <= self.index && self.index - off < tokens.len() {
            Some(self.index - off)
        } else {
            None
        }
    }

    /// The first non-whitespace token at or after `off` places ahead.
    fn next_non_ws_ix(&self, tokens: &Vec<Token>, off: usize) -> (r: Option<usize>)
        ensures
            r is Some ==> r->0 < tokens.len(),
            (r is Some) == (next_non_ws_from(tokens@, sat(self.index as int, off as int)) is Some),
            r is Some ==> r->0 == next_non_ws_from(
                tokens@,
                sat(self.index as int, off as int),
            )->0,
    {
        let mut j = sat_add(self.index, off);
        while j < tokens.len()
            invariant
                next_non_ws_from(tokens@, sat(self.index as int, off as int)) == next_non_ws_from(
                    tokens@,
                    j as int,
                ),
            decreases tokens.len() - j,
        {
            if !matches!(tokens[j].kind, TokenKind::Whitespace) {
                return Some(j);
            }
            j = j + 1;
        }
        None
    }

    /// The first non-whitespace token at or before `off` places back.
    fn previous_non_ws_ix(&self, tokens: &Vec<Token>, off: usize) -> (r: Option<usize>)
        ensures
            r is Some ==> r->0 < tokens.len(),
            off <= self.index && self.index - off < tokens.len() ==> r == (
            match prev_non_ws_from(tokens@, self.index - off) {
                Some(i) => Some(i as usize),
                None => Option::<usize>::None,
            }),
            !(off <= self.index && self.index - off < tokens.len()) ==> r is None,
    {
        if off > self.index || self.index - off >= tokens.len() {
            return None;
        }
        let mut j = self.index - off;
        loop
            invariant
                j < tokens.len(),
                prev_non_ws_from(tokens@, self.index - off) == prev_non_ws_from(tokens@, j as int),
            decreases j,
        {
            if !matches!(tokens[j].kind, TokenKind::Whitespace) {
                return Some(j);
            }
            if j == 0 {
                proof {
                    assert(prev_non_ws_from(tokens@, -1) is None);
                }
                return None;
            }
            j = j - 1;
        }
    }

    /// Breaks to a new line — unless single-line output is configured, in
    /// which case a single space stands for every break — and writes the
    /// indentation for the current depth.
    fn add_new_line_inner(&self, options: &FormatOptions, query: &mut Vec<char>, folded: bool)
        ensures
            final(query)@ == new_line_applied(
                old(query)@,
                options.inline,
                indent_seq(self.indentation.indent, self.indentation.indent_types@, folded),
            ),
    {
        trim_spaces_end(query);
        if options.inline {
            query.push(' ');
            return;
        }
        let n = query.len();
        if !(n > 0 && query[n - 1] == '\n') {
            query.push('\n');
        }
        let ind = self.indentation.get_indent(folded);
        push_all(query, &ind);
    }

    fn add_new_line(&self, options: &FormatOptions, query: &mut Vec<char>)
        ensures
            final(query)@ == new_line_applied(
                old(query)@,
                options.inline,
                indent_seq(self.indentation.indent, self.indentation.indent_types@, false),
            ),
    {
        self.add_new_line_inner(options, query, false);
    }

    /// Scans from the current token to where its clause ends, collecting
    /// its length, argument count, sub-block count, and whether breaks are
    /// owed before and after the keyword.
    fn top_level_tokens_info(&self, tokens: &Vec<Token>, options: &FormatOptions) -> (r: SpanInfo)
        requires
            self.index < tokens.len(),
        ensures
            r == clause_info(
                tokens@,
                self.index as int,
                self.block_level as int,
                if self.inline_block.info.len() > 0 {
                    self.inline_block.info@.last().length as int
                } else {
                    0int
                },
                options.max_inline_top_level,
            ),
    {
        let acc = clause_scan_exec(tokens, self.index + 1, self.block_level);
        let full_span = acc.0;
        let blocks = acc.1;
        let arguments = acc.2;
        let block_len = self.inline_block.cur_len();
        let newline_before: bool;
        let newline_after: bool;
        if block_len > 0 {
            let limit = match options.max_inline_top_level {
                Some(l) => l,
                None => 0,
            };
            newline_before = limit < block_len;
            newline_after = limit < full_span;
        } else {
            newline_before = true;
            newline_after = match options.max_inline_top_level {
                Some(l) => l < full_span,
                None => true,
            };
        }
        SpanInfo { full_span, blocks, newline_before, newline_after, arguments }
    }

    /// A top-level keyword: optionally dedent and break before it, then
    /// break after it into a fresh indent level — unless its clause is
    /// folded onto the keyword's line.
    fn format_top_level_reserved_word(
        &mut self,
        tokens: &Vec<Token>,
        token: &Token,
        options: &FormatOptions,
        query: &mut Vec<char>,
    ) -> (r: SpanInfo)
        requires
            old(self).index < tokens.len(),
        ensures
            ({
                let span = clause_info(
                    tokens@,
                    old(self).index as int,
                    old(self).block_level as int,
                    ib_len(*old(self)),
                    options.max_inline_top_level,
                );
                let old_types = old(self).indentation.indent_types@;
                let ind = old(self).indentation.indent;
                let t1 = if span.newline_before {
                    drop_top_types(old_types)
                } else {
                    old_types
                };
                let s1 = if span.newline_before {
                    drop_top_seq(old_types, old(self).indentation.top_level_span@)
                } else {
                    old(self).indentation.top_level_span@
                };
                let p1 = if span.newline_before {
                    drop_top_seq(old_types, old(self).indentation.previous@)
                } else {
                    old(self).indentation.previous@
                };
                let q1 = if span.newline_before {
                    new_line_applied(old(query)@, options.inline, indent_seq(ind, t1, false))
                } else {
                    old(query)@
                };
                let q2 = q1 + equalized(case_converted(*options, token.value@));
                let brk = span.newline_after && !(token.alias@ == "CREATE"@);
                let t2 = if brk {
                    t1.push(IndentType::Top)
                } else {
                    t1
                };
                let s2 = if brk {
                    s1.push(span)
                } else {
                    s1
                };
                &&& r == span
                &&& lay(*final(self)) == (Layout {
                    types: t2,
                    spans: s2,
                    previous: p1,
                    ..lay(*old(self))
                })
                &&& final(query)@ == (if brk {
                    new_line_applied(q2, options.inline, indent_seq(ind, t2, false))
                } else {
                    q2 + seq![' ']
                })
            }),
    {
        let span = self.top_level_tokens_info(tokens, options);
        if span.newline_before {
            self.indentation.decrease_top_level();
            self.add_new_line(options, query);
        }
        let word = equalize_whitespace(&ascii_case_convert(options, &token.value));
        push_all(query, &word);
        if span.newline_after && !eq_chars(&token.alias, &str_chars("CREATE")) {
            self.indentation.increase_top_level(span);
            self.add_new_line(options, query);
        } else {
            query.push(' ');
        }
        span
    }

    /// A top-level keyword that keeps the current indent depth.
    fn format_top_level_reserved_word_no_indent(
        &mut self,
        tokens: &Vec<Token>,
        token: &Token,
        options: &FormatOptions,
        query: &mut Vec<char>,
    ) -> (r: SpanInfo)
        requires
            old(self).index < tokens.len(),
        ensures
            ({
                let span = clause_info(
                    tokens@,
                    old(self).index as int,
                    old(self).block_level as int,
                    ib_len(*old(self)),
                    options.max_inline_top_level,
                );
                let old_types = old(self).indentation.indent_types@;
                let ind = old(self).indentation.indent;
                let t1 = if span.newline_before {
                    drop_top_types(old_types)
                } else {
                    old_types
                };
                let s1 = if span.newline_before {
                    drop_top_seq(old_types, old(self).indentation.top_level_span@)
                } else {
                    old(self).indentation.top_level_span@
                };
                let p1 = if span.newline_before {
                    drop_top_seq(old_types, old(self).indentation.previous@)
                } else {
                    old(self).indentation.previous@
                };
                let q1 = if span.newline_before {
                    new_line_applied(old(query)@, options.inline, indent_seq(ind, t1, false))
                } else {
                    old(query)@
                };
                let q2 = q1 + equalized(case_converted(*options, token.value@));
                &&& r == span
                &&& lay(*final(self)) == (Layout {
                    types: t1,
                    spans: s1,
                    previous: p1,
                    ..lay(*old(self))
                })
                &&& final(query)@ == (if span.newline_after {
                    new_line_applied(q2, options.inline, indent_seq(ind, t1, false))
                } else {
                    q2 + seq![' ']
                })
            }),
    {
        let span = self.top_level_tokens_info(tokens, options);
        if span.newline_before {
            self.indentation.decrease_top_level();
            self.add_new_line(options, query);
        }
        let word = equalize_whitespace(&ascii_case_convert(options, &token.value));
        push_all(query, &word);
        if span.newline_after {
            self.add_new_line(options, query);
        } else {
            query.push(' ');
        }
        span
    }

    /// A keyword that forces the break after itself (`DO UPDATE SET` and
    /// the like); it may be folded onto the previous clause's line.
    fn format_newline_after_reserved_word(
        &mut self,
        tokens: &Vec<Token>,
        token: &Token,
        options: &FormatOptions,
        query: &mut Vec<char>,
    ) -> (r: SpanInfo)
        requires
            old(self).index < tokens.len(),
        ensures
            ({
                let span = clause_info(
                    tokens@,
                    old(self).index as int,
                    old(self).block_level as int,
                    ib_len(*old(self)),
                    options.max_inline_top_level,
                );
                let old_types = old(self).indentation.indent_types@;
                let ind = old(self).indentation.indent;
                let nb = match (options.max_inline_top_level, prev_top(*old(self))) {
                    (Some(l), Some((ti, ps))) => (l as int) < sat(
                        ps.full_span as int,
                        byte_len(token.value@),
                    ),
                    _ => true,
                };
                let t1 = if nb {
                    drop_top_types(old_types)
                } else {
                    old_types
                };
                let s1 = if nb {
                    drop_top_seq(old_types, old(self).indentation.top_level_span@)
                } else {
                    old(self).indentation.top_level_span@
                };
                let p1 = if nb {
                    drop_top_seq(old_types, old(self).indentation.previous@)
                } else {
                    old(self).indentation.previous@
                };
                let q1 = if nb {
                    new_line_applied(old(query)@, options.inline, indent_seq(ind, t1, false))
                } else {
                    trim_line_end(old(query)@) + seq![' ']
                };
                let q2 = q1 + equalized(case_converted(*options, token.value@));
                let t2 = t1.push(IndentType::Top);
                let s2 = s1.push(span);
                &&& r == span
                &&& lay(*final(self)) == (Layout {
                    types: t2,
                    spans: s2,
                    previous: p1,
                    ..lay(*old(self))
                })
                &&& final(query)@ == new_line_applied(
                    q2,
                    options.inline,
                    indent_seq(ind, t2, false),
                )
            }),
    {
        let span = self.top_level_tokens_info(tokens, options);
        let prev = self.indentation.previous_top_level_reserved();
        let newline_before = match (options.max_inline_top_level, prev) {
            (Some(limit), Some((_, prev_span))) => limit < sat_add(
                prev_span.full_span,
                token_byte_len(token),
            ),
            _ => true,
        };
        if newline_before {
            self.indentation.decrease_top_level();
            self.add_new_line(options, query);
        } else {
            trim_spaces_end(query);
            query.push(' ');
            proof {
                assert(query@ =~= trim_line_end(old(query)@) + seq![' ']);
            }
        }
        let word = equalize_whitespace(&ascii_case_convert(options, &token.value));
        push_all(query, &word);
        self.indentation.increase_top_level(span);
        self.add_new_line(options, query);
        span
    }

    /// A newline word (`AND`, `OR`, `WHEN`, ...): breaks to a new line
    /// unless the surrounding clause is short enough to fold.
    fn format_newline_reserved_word(
        &mut self,
        token: &Token,
        options: &FormatOptions,
        query: &mut Vec<char>,
    )
        ensures
            ({
                let active = old(self).inline_block.level > 0;
                let fold = match options.max_inline_arguments {
                    Some(l) => (l as int) >= top_span_len(*old(self)),
                    None => false,
                };
                let word = equalized(case_converted(*options, token.value@));
                if !active && !fold {
                    &&& lay(*final(self)) == (Layout {
                        types: nw_types(*old(self)),
                        spans: nw_spans(*old(self)),
                        ..lay(*old(self))
                    })
                    &&& final(query)@ == new_line_applied(
                        old(query)@,
                        options.inline,
                        indent_seq(old(self).indentation.indent, nw_types(*old(self)), false),
                    ) + word + seq![' ']
                } else {
                    &&& lay(*final(self)) == lay(*old(self))
                    &&& final(query)@ == trim_line_end(old(query)@) + seq![' '] + word + seq![' ']
                }
            }),
    {
        let fold = match options.max_inline_arguments {
            Some(limit) => limit >= self.indentation.span(),
            None => false,
        };
        if !self.inline_block.is_active() && !fold {
            // a clause folded to the top level gets its indent now
            match self.indentation.previous_top_level_reserved() {
                Some((_, s)) => {
                    if !s.newline_after {
                        self.indentation.increase_top_level(s);
                    }
                },
                None => {},
            }
            self.add_new_line(options, query);
        } else {
            trim_spaces_end(query);
            query.push(' ');
        }
        let word = equalize_whitespace(&ascii_case_convert(options, &token.value));
        push_all(query, &word);
        query.push(' ');
    }

    /// A word, literal or operator, with a trailing space; reserved words
    /// get the configured case.
    fn format_with_spaces(
        &self,
        token_kind: TokenKind,
        token_value: &Vec<char>,
        options: &FormatOptions,
        query: &mut Vec<char>,
    )
        ensures
            final(query)@ == old(query)@ + with_spaces_text(token_kind, token_value@, *options),
    {
        if matches!(token_kind, TokenKind::Reserved) {
            let word = equalize_whitespace(&ascii_case_convert(options, token_value));
            push_all(query, &word);
        } else {
            push_all(query, token_value);
        }
        query.push(' ');
    }

    /// An opening parenthesis, bracket or `CASE`: scans its block, begins
    /// an inline region when it fits, folds it onto a top-level clause
    /// when the clause asks for that, and otherwise indents.
    fn format_opening_parentheses(
        &mut self,
        tokens: &Vec<Token>,
        token: &Token,
        options: &FormatOptions,
        query: &mut Vec<char>,
    )
        requires
            old(self).index < tokens.len(),
        ensures
            ({
                let scanned = block_scan(tokens@, old(self).index as int, scan_start());
                let was_active = old(self).inline_block.level > 0;
                let entering = was_active || inline_eligible(old(self).inline_block, scanned);
                let ibl2 = if was_active {
                    if old(self).inline_block.level < usize::MAX {
                        old(self).inline_block.level + 1
                    } else {
                        old(self).inline_block.level as int
                    }
                } else if entering {
                    1int
                } else {
                    0int
                };
                let ii2 = if entering {
                    old(self).inline_block.info@.push(scanned)
                } else {
                    old(self).inline_block.info@
                };
                let pn = if old(self).index >= 1 {
                    prev_non_ws_from(tokens@, old(self).index - 1)
                } else {
                    None
                };
                let fold = !entering && options.max_inline_top_level is Some && (match pn {
                    Some(i) => tokens@[i].kind is ReservedTopLevel,
                    None => false,
                }) && (match prev_top(*old(self)) {
                    Some((ti, s)) => s.blocks == 1 && s.newline_after && s.arguments == 1,
                    None => false,
                });
                let q1 = if token.value@ =~= seq!['['] {
                    let tq = trim_line_end(old(query)@);
                    if !(tq.len() > 0 && tq.last() == '\n') {
                        tq
                    } else {
                        old(query)@
                    }
                } else {
                    let preserve = if old(self).index >= 1 {
                        tokens@[old(self).index - 1].kind is Whitespace || tokens@[old(
                            self,
                        ).index - 1].kind is OpenParen || tokens@[old(self).index - 1].kind
                            is LineComment
                    } else {
                        true
                    };
                    let qa = if preserve {
                        old(query)@
                    } else {
                        trim_line_end(old(query)@)
                    };
                    let sp = match pn {
                        Some(i) => tokens@[i].kind is CloseParen || tokens@[i].kind is Reserved,
                        None => false,
                    };
                    if sp {
                        trim_line_end(qa) + seq![' ']
                    } else {
                        qa
                    }
                };
                let q2 = if fold {
                    trim_ws_end(q1) + seq![' ']
                } else {
                    q1
                };
                let q3 = q2 + case_converted(*options, token.value@);
                let t2 = old(self).indentation.indent_types@.push(
                    if fold {
                        IndentType::FoldedBlock
                    } else {
                        IndentType::Block
                    },
                );
                let p2 = old(self).indentation.previous@.push(
                    PreviousTokens { top_level_reserved: Option::None, reserved: Option::None },
                );
                &&& lay(*final(self)) == (Layout {
                    block_level: sat(old(self).block_level as int, 1),
                    types: t2,
                    previous: p2,
                    ib_level: ibl2,
                    ib_info: ii2,
                    ..lay(*old(self))
                })
                &&& final(query)@ == (if ibl2 > 0 {
                    if lower_eq(token.value@, "case"@) {
                        q3 + seq![' ']
                    } else {
                        q3
                    }
                } else {
                    new_line_applied(
                        q3,
                        options.inline,
                        indent_seq(old(self).indentation.indent, t2, false),
                    )
                })
            }),
    {
        self.block_level = sat_add(self.block_level, 1);
        let inlined = self.inline_block.begin_if_possible(tokens, self.index);
        let prev_non_ws = self.previous_non_ws_ix(tokens, 1);
        let after_top_level = match prev_non_ws {
            Some(i) => matches!(tokens[i].kind, TokenKind::ReservedTopLevel),
            None => false,
        };
        let clause_folds = match self.indentation.previous_top_level_reserved() {
            Some((_, span)) => span.blocks == 1 && span.newline_after && span.arguments == 1,
            None => false,
        };
        let fold_in_top_level = !inlined && options.max_inline_top_level.is_some()
            && after_top_level && clause_folds;
        if is_single_char(&token.value, '[') {
            // an array bracket glues to what precedes it on the same line
            let mut l = query.len();
            proof {
                assert(query@.take(l as int) =~= query@);
            }
            while l > 0 && (query[l - 1] == ' ' || query[l - 1] == '\t')
                invariant
                    l <= query.len(),
                    trim_line_end(query@) == trim_line_end(query@.take(l as int)),
                decreases l,
            {
                proof {
                    assert(query@.take(l as int).drop_last() =~= query@.take(l as int - 1));
                }
                l = l - 1;
            }
            proof {
                assert(trim_line_end(query@.take(l as int)) == query@.take(l as int));
            }
            if !(l > 0 && query[l - 1] == '\n') {
                query.truncate(l);
            }
        } else {
            let prev = self.previous_token_ix(tokens, 1);
            let preserve = match prev {
                Some(i) => matches!(
                    tokens[i].kind,
                    TokenKind::Whitespace | TokenKind::OpenParen | TokenKind::LineComment
                ),
                None => true,
            };
            if !preserve {
                trim_spaces_end(query);
            }
            let space_between = match prev_non_ws {
                Some(i) => matches!(tokens[i].kind, TokenKind::CloseParen | TokenKind::Reserved),
                None => false,
            };
            if space_between {
                let ghost qa = query@;
                trim_spaces_end(query);
                query.push(' ');
                proof {
                    assert(query@ =~= trim_line_end(qa) + seq![' ']);
                }
            }
        }
        let value = ascii_case_convert(options, &token.value);
        if fold_in_top_level {
            let ghost q1g = query@;
            trim_all_spaces_end(query);
            query.push(' ');
            proof {
                assert(query@ =~= trim_ws_end(q1g) + seq![' ']);
            }
        }
        self.indentation.increase_block_level(fold_in_top_level);
        push_all(query, &value);
        if !self.inline_block.is_active() {
            self.add_new_line(options, query);
        } else if eq_word_ci(&token.value, &str_chars("case")) {
            let ghost q3g = query@;
            query.push(' ');
            proof {
                assert(query@ =~= q3g + seq![' ']);
            }
        }
        proof {
            lemma_prev_non_ws_bounds(tokens@, old(self).index - 1);
        }
    }

    /// A closing parenthesis, bracket or `END`: ends an inline region on
    /// the same line, or dedents and breaks before itself.
    fn format_closing_parentheses(
        &mut self,
        token: &Token,
        options: &FormatOptions,
        query: &mut Vec<char>,
    )
        requires
            token.kind is CloseParen,
        ensures
            ({
                let conv = case_converted(*options, token.value@);
                let old_types = old(self).indentation.indent_types@;
                let ind = old(self).indentation.indent;
                let bl2 = if old(self).block_level > 0 {
                    old(self).block_level - 1
                } else {
                    0int
                };
                let t1 = pop_through_block(old_types);
                let s1 = ptb_spans(old_types, old(self).indentation.top_level_span@);
                let p1 = ptb_previous(old_types, old(self).indentation.previous@);
                let folded = popped_block_was_folded(old_types);
                if old(self).inline_block.level > 0 {
                    &&& lay(*final(self)) == (Layout {
                        block_level: bl2,
                        types: t1,
                        spans: s1,
                        previous: p1,
                        ib_level: old(self).inline_block.level - 1,
                        ib_info: if old(self).inline_block.info@.len() > 0 {
                            old(self).inline_block.info@.drop_last()
                        } else {
                            old(self).inline_block.info@
                        },
                        ..lay(*old(self))
                    })
                    &&& final(query)@ == (if lower_eq(token.value@, "end"@) {
                        trim_line_end(old(query)@) + seq![' '] + conv + seq![' ']
                    } else {
                        trim_line_end(old(query)@) + conv + seq![' ']
                    })
                } else {
                    &&& lay(*final(self)) == (Layout {
                        block_level: bl2,
                        types: t1,
                        spans: s1,
                        previous: p1,
                        ..lay(*old(self))
                    })
                    &&& final(query)@ == new_line_applied(
                        old(query)@,
                        options.inline,
                        indent_seq(ind, t1, folded),
                    ) + conv + seq![' ']
                }
            }),
    {
        if self.block_level > 0 {
            self.block_level = self.block_level - 1;
        }
        let value = ascii_case_convert(options, &token.value);
        let folded = self.indentation.decrease_block_level();
        if self.inline_block.is_active() {
            self.inline_block.end();
            if eq_word_ci(&token.value, &str_chars("end")) {
                trim_spaces_end(query);
                query.push(' ');
                proof {
                    assert(query@ =~= trim_line_end(old(query)@) + seq![' ']);
                }
                self.format_with_spaces(token.kind, &value, options, query);
            } else {
                trim_spaces_end(query);
                push_all(query, &value);
                query.push(' ');
                proof {
                    assert(query@ =~= trim_line_end(old(query)@) + value@ + seq![' ']);
                }
            }
        } else {
            self.add_new_line_inner(options, query, folded);
            self.format_with_spaces(token.kind, &value, options, query);
        }
    }

    /// A comma: ends the argument, then breaks the line unless inside an
    /// inline block, in a `LIMIT` clause, or folded under the argument
    /// ceiling.
    fn format_comma(
        &self,
        tokens: &Vec<Token>,
        token: &Token,
        options: &FormatOptions,
        query: &mut Vec<char>,
    )
        ensures
            final(query)@ == ({
                let base = trim_line_end(old(query)@) + token.value@ + seq![' '];
                if comma_folds(*self, tokens@, *options) {
                    base
                } else {
                    new_line_applied(
                        base,
                        options.inline,
                        indent_seq(
                            self.indentation.indent,
                            self.indentation.indent_types@,
                            false,
                        ),
                    )
                }
            }),
    {
        trim_spaces_end(query);
        push_all(query, &token.value);
        query.push(' ');
        proof {
            assert(query@ =~= trim_line_end(old(query)@) + token.value@ + seq![' ']);
        }
        if self.inline_block.is_active() {
            return;
        }
        match self.indentation.previous_reserved() {
            Some(i) => {
                if i < tokens.len() && eq_word_ci(&tokens[i].value, &str_chars("limit")) {
                    return;
                }
            },
            None => {},
        }
        match self.indentation.previous_top_level_reserved() {
            Some((_, span)) => {
                match options.max_inline_arguments {
                    Some(limit) => {
                        if limit >= span.full_span {
                            return;
                        }
                    },
                    None => {},
                }
            },
            None => {},
        }
        self.add_new_line(options, query);
    }

    /// A line comment: kept beside what it follows, or placed on its own
    /// line; always breaks afterwards.
    fn format_line_comment(
        &self,
        tokens: &Vec<Token>,
        token: &Token,
        options: &FormatOptions,
        query: &mut Vec<char>,
    )
        ensures
            ({
                let ind = indent_seq(
                    self.indentation.indent,
                    self.indentation.indent_types@,
                    false,
                );
                let special = self.index + 1 < tokens.len() && tokens@[self.index + 1].kind
                    is Whitespace && self.index + 2 < tokens.len() && !(tokens@[self.index
                    + 2].kind is Operator);
                let prev_nl = self.index >= 1 && self.index - 1 < tokens.len() && tokens@[self.index
                    - 1].value@.contains('\n');
                let after_comma = self.index >= 2 && self.index - 2 < tokens.len()
                    && tokens@[self.index - 2].value@ =~= seq![','];
                let q1 = if prev_nl && special {
                    new_line_applied(old(query)@, options.inline, ind)
                } else if after_comma {
                    trim_ws_end(old(query)@) + seq![' ', ' ']
                } else {
                    old(query)@
                };
                final(query)@ == new_line_applied(q1 + token.value@, options.inline, ind)
            }),
    {
        let n1 = self.next_token_ix(tokens, 1);
        let n2 = self.next_token_ix(tokens, 2);
        let special = match (n1, n2) {
            (Some(i1), Some(i2)) => matches!(tokens[i1].kind, TokenKind::Whitespace) && !matches!(
                tokens[i2].kind,
                TokenKind::Operator,
            ),
            _ => false,
        };
        let prev_has_newline = match self.previous_token_ix(tokens, 1) {
            Some(i) => contains_newline(&tokens[i].value),
            None => false,
        };
        if prev_has_newline && special {
            self.add_new_line(options, query);
        } else {
            match self.previous_token_ix(tokens, 2) {
                Some(i) => {
                    if is_single_char(&tokens[i].value, ',') {
                        trim_all_spaces_end(query);
                        query.push(' ');
                        query.push(' ');
                        proof {
                            assert(query@ =~= trim_ws_end(old(query)@) + seq![' ', ' ']);
                        }
                    }
                },
                None => {},
            }
        }
        push_all(query, &token.value);
        self.add_new_line(options, query);
    }

    /// A block comment on its own lines, with its interior lines
    /// re-indented relative to the current depth.
    fn format_block_comment(
        &self,
        token: &Token,
        options: &FormatOptions,
        query: &mut Vec<char>,
    )
        ensures
            ({
                let ind = indent_seq(
                    self.indentation.indent,
                    self.indentation.indent_types@,
                    false,
                );
                final(query)@ == new_line_applied(
                    new_line_applied(old(query)@, options.inline, ind) + ic_from(
                        token.value@,
                        0,
                        ind,
                        0,
                    ),
                    options.inline,
                    ind,
                )
            }),
    {
        self.add_new_line(options, query);
        let ind = self.indent_comment(&token.value);
        push_all(query, &ind);
        self.add_new_line(options, query);
    }

    /// Re-indents the interior lines of a block comment: lines that began
    /// with whitespace get the current indent plus one space.
    fn indent_comment(&self, v: &Vec<char>) -> (r: Vec<char>)
        ensures
            r@ == ic_from(
                v@,
                0,
                indent_seq(self.indentation.indent, self.indentation.indent_types@, false),
                0,
            ),
    {
        let ind = self.indentation.get_indent(false);
        let mut out: Vec<char> = Vec::new();
        // states: 0 inside a line, 1 at a line start, 2 skipping the
        // leading whitespace of a re-indented line
        let mut st: u8 = 0;
        let mut i: usize = 0;
        while i < v.len()
            invariant
                i <= v.len(),
                st <= 2,
                ind@ == indent_seq(self.indentation.indent, self.indentation.indent_types@, false),
                ic_from(v@, 0, ind@, 0) == out@ + ic_from(v@, i as int, ind@, st as int),
            decreases v.len() - i,
        {
            let c = v[i];
            if st == 0 {
                if c == '\n' {
                    out.push('\n');
                    st = 1;
                } else {
                    out.push(c);
                }
            } else if st == 1 {
                if c == ' ' || c == '\t' {
                    push_all(&mut out, &ind);
                    out.push(' ');
                    st = 2;
                } else if c == '\n' {
                    out.push('\n');
                } else {
                    out.push(c);
                    st = 0;
                }
            } else {
                if c == ' ' || c == '\t' {
                } else if c == '\n' {
                    out.push('\n');
                    st = 1;
                } else {
                    out.push(c);
                    st = 0;
                }
            }
            proof {
                assert(ic_from(v@, 0, ind@, 0) =~= out@ + ic_from(
                    v@,
                    i as int + 1,
                    ind@,
                    st as int,
                ));
            }
            i = i + 1;
        }
        proof {
            assert(ic_from(v@, 0, ind@, 0) =~= out@);
        }
        out
    }

    /// A `::` or `[]` specifier: glued to what precedes it, with a space
    /// after only when a reserved word follows.
    fn format_type_specifier(
        &self,
        tokens: &Vec<Token>,
        token: &Token,
        options: &FormatOptions,
        query: &mut Vec<char>,
    )
        ensures
            final(query)@ == trim_ws_end(old(query)@) + token.value@ + ({
                match next_non_ws_from(tokens@, sat(self.index as int, 1)) {
                    Some(i) => if tokens@[i].kind is Reserved || tokens@[i].kind is ReservedNewline
                        || tokens@[i].kind is ReservedNewlineAfter {
                        seq![' ']
                    } else {
                        Seq::<char>::empty()
                    },
                    None => Seq::<char>::empty(),
                }
            }),
    {
        trim_all_spaces_end(query);
        push_all(query, &token.value);
        match self.next_non_ws_ix(tokens, 1) {
            Some(i) => {
                if matches!(
                    tokens[i].kind,
                    TokenKind::Reserved | TokenKind::ReservedNewline | TokenKind::ReservedNewlineAfter,
                ) {
                    query.push(' ');
                }
            },
            None => {},
        }
    }

    /// A `;`: resets the indentation and writes the configured number of
    /// line breaks before the next statement.
    fn format_query_separator(
        &mut self,
        token: &Token,
        options: &FormatOptions,
        query: &mut Vec<char>,
    )
        ensures
            lay(*final(self)) == (Layout {
                types: Seq::<IndentType>::empty(),
                spans: Seq::<SpanInfo>::empty(),
                previous: Seq::<PreviousTokens>::empty(),
                ..lay(*old(self))
            }),
            final(query)@ == trim_line_end(old(query)@) + token.value@ + (Seq::new(
                options.lines_between_queries as nat,
                |k: int| '\n',
            )),
    {
        self.indentation.reset_indentation();
        trim_spaces_end(query);
        push_all(query, &token.value);
        let ghost base = query@;
        proof {
            assert(query@ =~= base + Seq::new(0nat, |k: int| '\n'));
        }
        let mut i: u8 = 0;
        while i < options.lines_between_queries
            invariant
                i <= options.lines_between_queries,
                query@ == base + Seq::new(i as nat, |k: int| '\n'),
            decreases options.lines_between_queries - i,
        {
            query.push('\n');
            proof {
                assert(query@ =~= base + Seq::new(i as nat + 1, |k: int| '\n'));
            }
            i = i + 1;
        }
        proof {
            assert(self.indentation.indent_types@ =~= Seq::<IndentType>::empty());
            assert(self.indentation.top_level_span@ =~= Seq::<SpanInfo>::empty());
            assert(self.indentation.previous@ =~= Seq::<PreviousTokens>::empty());
        }
    }
}

/// One enabled dispatch step of the layout walk: what token `i` does to
/// the state and the output, matching the per-token methods above.
pub open spec fn step(
    tokens: Seq<Token>,
    params: QueryParams,
    options: FormatOptions,
    st0: Layout,
    q: Seq<char>,
    i: int,
) -> (Layout, Seq<char>) {
    let st = st0;
    let t = tokens[i];
    let value = t.value@;
    let ind0 = indent_seq(st.indent, st.types, false);
    match t.kind {
        TokenKind::Whitespace => (st, q),
        TokenKind::LineComment => {
            let special = i + 1 < tokens.len() && tokens[i + 1].kind is Whitespace && i + 2
                < tokens.len() && !(tokens[i + 2].kind is Operator);
            let prev_nl = i >= 1 && i - 1 < tokens.len() && tokens[i - 1].value@.contains('\n');
            let after_comma = i >= 2 && i - 2 < tokens.len() && tokens[i - 2].value@ =~= seq![','];
            let q1 = if prev_nl && special {
                new_line_applied(q, options.inline, ind0)
            } else if after_comma {
                trim_ws_end(q) + seq![' ', ' ']
            } else {
                q
            };
            (st, new_line_applied(q1 + value, options.inline, ind0))
        },
        TokenKind::BlockComment => {
            (
                st,
                new_line_applied(
                    new_line_applied(q, options.inline, ind0) + ic_from(value, 0, ind0, 0),
                    options.inline,
                    ind0,
                ),
            )
        },
        TokenKind::ReservedTopLevel => {
            let span = clause_info(tokens, i, st.block_level, ib_len_l(st), options.max_inline_top_level);
            let t1 = if span.newline_before {
                drop_top_types(st.types)
            } else {
                st.types
            };
            let s1 = if span.newline_before {
                drop_top_seq(st.types, st.spans)
            } else {
                st.spans
            };
            let p1 = if span.newline_before {
                drop_top_seq(st.types, st.previous)
            } else {
                st.previous
            };
            let q1 = if span.newline_before {
                new_line_applied(q, options.inline, indent_seq(st.indent, t1, false))
            } else {
                q
            };
            let q2 = q1 + equalized(case_converted(options, value));
            let brk = span.newline_after && !(t.alias@ == "CREATE"@);
            let t2 = if brk {
                t1.push(IndentType::Top)
            } else {
                t1
            };
            let s2 = if brk {
                s1.push(span)
            } else {
                s1
            };
            (
                Layout {
                    types: t2,
                    spans: s2,
                    previous: crate::indentation::set_top_level(p1, i as usize, span),
                    ..st
                },
                if brk {
                    new_line_applied(q2, options.inline, indent_seq(st.indent, t2, false))
                } else {
                    q2 + seq![' ']
                },
            )
        },
        TokenKind::ReservedTopLevelNoIndent => {
            let span = clause_info(tokens, i, st.block_level, ib_len_l(st), options.max_inline_top_level);
            let t1 = if span.newline_before {
                drop_top_types(st.types)
            } else {
                st.types
            };
            let s1 = if span.newline_before {
                drop_top_seq(st.types, st.spans)
            } else {
                st.spans
            };
            let p1 = if span.newline_before {
                drop_top_seq(st.types, st.previous)
            } else {
                st.previous
            };
            let q1 = if span.newline_before {
                new_line_applied(q, options.inline, indent_seq(st.indent, t1, false))
            } else {
                q
            };
            let q2 = q1 + equalized(case_converted(options, value));
            (
                Layout {
                    types: t1,
                    spans: s1,
                    previous: crate::indentation::set_top_level(p1, i as usize, span),
                    ..st
                },
                if span.newline_after {
                    new_line_applied(q2, options.inline, indent_seq(st.indent, t1, false))
                } else {
                    q2 + seq![' ']
                },
            )
        },
        TokenKind::ReservedNewlineAfter => {
            let span = clause_info(tokens, i, st.block_level, ib_len_l(st), options.max_inline_top_level);
            let nb = match (options.max_inline_top_level, prev_top_l(st)) {
                (Some(l), Some((ti, ps))) => (l as int) < sat(
                    ps.full_span as int,
                    byte_len(value),
                ),
                _ => true,
            };
            let t1 = if nb {
                drop_top_types(st.types)
            } else {
                st.types
            };
            let s1 = if nb {
                drop_top_seq(st.types, st.spans)
            } else {
                st.spans
            };
            let p1 = if nb {
                drop_top_seq(st.types, st.previous)
            } else {
                st.previous
            };
            let q1 = if nb {
                new_line_applied(q, options.inline, indent_seq(st.indent, t1, false))
            } else {
                trim_line_end(q) + seq![' ']
            };
            let q2 = q1 + equalized(case_converted(options, value));
            let t2 = t1.push(IndentType::Top);
            let s2 = s1.push(span);
            (
                Layout {
                    types: t2,
                    spans: s2,
                    previous: crate::indentation::set_top_level(p1, i as usize, span),
                    ..st
                },
                new_line_applied(q2, options.inline, indent_seq(st.indent, t2, false)),
            )
        },
        TokenKind::ReservedNewline => {
            let active = st.ib_level > 0;
            let fold = match options.max_inline_arguments {
                Some(l) => (l as int) >= top_span_len_l(st),
                None => false,
            };
            let word = equalized(case_converted(options, value));
            if !active && !fold {
                let t2 = nw_types_l(st);
                let s2 = nw_spans_l(st);
                (
                    Layout {
                        types: t2,
                        spans: s2,
                        previous: crate::indentation::set_reserved(st.previous, i as usize),
                        ..st
                    },
                    new_line_applied(q, options.inline, indent_seq(st.indent, t2, false)) + word
                        + seq![' '],
                )
            } else {
                (
                    Layout {
                        previous: crate::indentation::set_reserved(st.previous, i as usize),
                        ..st
                    },
                    trim_line_end(q) + seq![' '] + word + seq![' '],
                )
            }
        },
        TokenKind::Reserved => {
            (
                Layout {
                    previous: crate::indentation::set_reserved(st.previous, i as usize),
                    ..st
                },
                q + with_spaces_text(t.kind, value, options),
            )
        },
        TokenKind::OpenParen => {
            let scanned = block_scan(tokens, i, scan_start());
            let was_active = st.ib_level > 0;
            let eligible = !scanned.has_forbidden_tokens && scanned.length <= st.ib_max
                && scanned.top_level_token_span <= st.ib_top && (!scanned.has_reserved_tokens
                || scanned.length <= st.ib_reserved);
            let entering = was_active || eligible;
            let ibl2 = if was_active {
                if st.ib_level < usize::MAX {
                    st.ib_level + 1
                } else {
                    st.ib_level
                }
            } else if entering {
                1int
            } else {
                0int
            };
            let ii2 = if entering {
                st.ib_info.push(scanned)
            } else {
                st.ib_info
            };
            let pn = if i >= 1 {
                prev_non_ws_from(tokens, i - 1)
            } else {
                None
            };
            let fold = !entering && options.max_inline_top_level is Some && (match pn {
                Some(k) => tokens[k].kind is ReservedTopLevel,
                None => false,
            }) && (match prev_top_l(st) {
                Some((ti, s)) => s.blocks == 1 && s.newline_after && s.arguments == 1,
                None => false,
            });
            let q1 = if value =~= seq!['['] {
                let tq = trim_line_end(q);
                if !(tq.len() > 0 && tq.last() == '\n') {
                    tq
                } else {
                    q
                }
            } else {
                let preserve = if i >= 1 {
                    tokens[i - 1].kind is Whitespace || tokens[i - 1].kind is OpenParen || tokens[i
                        - 1].kind is LineComment
                } else {
                    true
                };
                let qa = if preserve {
                    q
                } else {
                    trim_line_end(q)
                };
                let sp = match pn {
                    Some(k) => tokens[k].kind is CloseParen || tokens[k].kind is Reserved,
                    None => false,
                };
                if sp {
                    trim_line_end(qa) + seq![' ']
                } else {
                    qa
                }
            };
            let q2 = if fold {
                trim_ws_end(q1) + seq![' ']
            } else {
                q1
            };
            let q3 = q2 + case_converted(options, value);
            let t2 = st.types.push(
                if fold {
                    IndentType::FoldedBlock
                } else {
                    IndentType::Block
                },
            );
            let p2 = st.previous.push(
                PreviousTokens { top_level_reserved: Option::None, reserved: Option::None },
            );
            (
                Layout {
                    block_level: sat(st.block_level, 1),
                    types: t2,
                    previous: p2,
                    ib_level: ibl2,
                    ib_info: ii2,
                    ..st
                },
                if ibl2 > 0 {
                    if lower_eq(value, "case"@) {
                        q3 + seq![' ']
                    } else {
                        q3
                    }
                } else {
                    new_line_applied(q3, options.inline, indent_seq(st.indent, t2, false))
                },
            )
        },
        TokenKind::CloseParen => {
            let conv = case_converted(options, value);
            let bl2 = if st.block_level > 0 {
                st.block_level - 1
            } else {
                0int
            };
            let t1 = pop_through_block(st.types);
            let s1 = ptb_spans(st.types, st.spans);
            let p1 = ptb_previous(st.types, st.previous);
            let folded = popped_block_was_folded(st.types);
            if st.ib_level > 0 {
                (
                    Layout {
                        block_level: bl2,
                        types: t1,
                        spans: s1,
                        previous: p1,
                        ib_level: st.ib_level - 1,
                        ib_info: if st.ib_info.len() > 0 {
                            st.ib_info.drop_last()
                        } else {
                            st.ib_info
                        },
                        ..st
                    },
                    if lower_eq(value, "end"@) {
                        trim_line_end(q) + seq![' '] + conv + seq![' ']
                    } else {
                        trim_line_end(q) + conv + seq![' ']
                    },
                )
            } else {
                (
                    Layout { block_level: bl2, types: t1, spans: s1, previous: p1, ..st },
                    new_line_applied(q, options.inline, indent_seq(st.indent, t1, folded)) + conv
                        + seq![' '],
                )
            }
        },
        TokenKind::Placeholder => {
            let fallback = value;
            let resolved = match params {
                QueryParams::Named(pairs) => match t.key {
                    Some(PlaceholderKind::Named(k)) => crate::params::resolve_named(
                        pairs@,
                        k@,
                        fallback,
                    ),
                    _ => fallback,
                },
                QueryParams::Indexed(vals) => match t.key {
                    Some(PlaceholderKind::ZeroIndexed(n)) => crate::params::resolve_indexed(
                        vals@,
                        n as int,
                        fallback,
                    ),
                    Some(PlaceholderKind::OneIndexed(n)) => if n == 0 {
                        fallback
                    } else {
                        crate::params::resolve_indexed(vals@, n - 1, fallback)
                    },
                    Some(PlaceholderKind::Named(k)) => fallback,
                    Option::None => crate::params::resolve_indexed(
                        vals@,
                        st.params_index,
                        fallback,
                    ),
                },
                QueryParams::NoParams => fallback,
            };
            let pi2 = match params {
                QueryParams::Indexed(vals) => match t.key {
                    Option::None => if st.params_index < usize::MAX {
                        st.params_index + 1
                    } else {
                        st.params_index
                    },
                    _ => st.params_index,
                },
                _ => st.params_index,
            };
            (Layout { params_index: pi2, ..st }, q + resolved + seq![' '])
        },
        TokenKind::TypeSpecifier => {
            (
                st,
                trim_ws_end(q) + value + ({
                    match next_non_ws_from(tokens, sat(i, 1)) {
                        Some(k) => if tokens[k].kind is Reserved || tokens[k].kind
                            is ReservedNewline || tokens[k].kind is ReservedNewlineAfter {
                            seq![' ']
                        } else {
                            Seq::<char>::empty()
                        },
                        None => Seq::<char>::empty(),
                    }
                }),
            )
        },
        _ => {
            if value =~= seq![','] {
                (
                    st,
                    ({
                        let base = trim_line_end(q) + value + seq![' '];
                        if comma_folds_l(st, tokens, options) {
                            base
                        } else {
                            new_line_applied(base, options.inline, ind0)
                        }
                    }),
                )
            } else if value =~= seq![':'] {
                (st, trim_line_end(q) + value + seq![' '])
            } else if value =~= seq!['.'] {
                (st, trim_line_end(q) + value)
            } else if value =~= seq![';'] {
                (
                    Layout {
                        types: Seq::<IndentType>::empty(),
                        spans: Seq::<SpanInfo>::empty(),
                        previous: Seq::<PreviousTokens>::empty(),
                        ..st
                    },
                    trim_line_end(q) + value + Seq::new(
                        options.lines_between_queries as nat,
                        |k: int| '\n',
                    ),
                )
            } else {
                (st, q + with_spaces_text(t.kind, value, options))
            }
        },
    }
}

/// The whole layout walk from token `i`: formatting directives suspend
/// and resume the dispatch, a directive also swallows the following
/// token, and suspended stretches are copied verbatim.
pub open spec fn walk(
    tokens: Seq<Token>,
    params: QueryParams,
    options: FormatOptions,
    st: Layout,
    q: Seq<char>,
    i: int,
    enabled: bool,
    skip: bool,
) -> Seq<char>
    decreases tokens.len() - i,
{
    if i < 0 || i >= tokens.len() {
        q
    } else if skip {
        walk(tokens, params, options, st, q, i + 1, enabled, false)
    } else {
        let t = tokens[i];
        if (t.kind is LineComment || t.kind is BlockComment) && fmt_directive(t.value@, 0, 0)
            is Some {
            walk(tokens, params, options, st, q, i + 1, !(fmt_directive(t.value@, 0, 0)->0), true)
        } else if !enabled {
            walk(tokens, params, options, st, q + t.value@, i + 1, enabled, false)
        } else {
            let sq = step(tokens, params, options, st, q, i);
            walk(tokens, params, options, sq.0, sq.1, i + 1, enabled, false)
        }
    }
}

/// The state a formatting run starts from.
pub open spec fn init_layout(options: FormatOptions) -> Layout {
    Layout {
        params_index: 0,
        block_level: 0,
        indent: options.indent,
        types: Seq::<IndentType>::empty(),
        spans: Seq::<SpanInfo>::empty(),
        previous: Seq::<PreviousTokens>::empty(),
        ib_level: 0,
        ib_max: options.max_inline_block as int,
        ib_reserved: (match options.max_inline_arguments {
            Some(l) => l as int,
            None => 0int,
        }),
        ib_top: (match options.max_inline_top_level {
            Some(l) => l as int,
            None => 0int,
        }),
        ib_info: Seq::<BlockInfo>::empty(),
    }
}

/// Whether `v` holds a line break.
fn contains_newline(v: &Vec<char>) -> (r: bool)
    ensures
        r == v@.contains('\n'),
{
    let mut i: usize = 0;
    while i < v.len()
        invariant
            i <= v.len(),
            forall|k: int| 0 <= k < i ==> v@[k] != '\n',
        decreases v.len() - i,
    {
        if v[i] == '\n' {
            return true;
        }
        i = i + 1;
    }
    false
}

/// The text with its leading whitespace removed.
pub open spec fn trim_ws_start(s: Seq<char>) -> Seq<char>
    decreases s.len(),
{
    if s.len() > 0 && is_ws(s.first()) {
        trim_ws_start(s.drop_first())
    } else {
        s
    }
}

/// Removes whitespace from both ends of `v`.
fn trim_both_ends(v: &Vec<char>) -> (r: Vec<char>)
    ensures
        r@ == trim_ws_start(trim_ws_end(v@)),
        trimmed(r@),
{
    let mut end = v.len();
    proof {
        assert(v@.take(end as int) =~= v@);
    }
    while end > 0 && is_whitespace_char(v[end - 1])
        invariant
            end <= v.len(),
            trim_ws_end(v@) == trim_ws_end(v@.take(end as int)),
        decreases end,
    {
        proof {
            assert(v@.take(end as int).drop_last() =~= v@.take(end as int - 1));
        }
        end = end - 1;
    }
    proof {
        assert(trim_ws_end(v@.take(end as int)) == v@.take(end as int));
        assert(v@.take(end as int) =~= v@.subrange(0, end as int));
    }
    let mut start: usize = 0;
    while start < end && is_whitespace_char(v[start])
        invariant
            start <= end <= v.len(),
            trim_ws_start(trim_ws_end(v@)) == trim_ws_start(v@.subrange(start as int, end as int)),
        decreases end - start,
    {
        proof {
            assert(v@.subrange(start as int, end as int).drop_first() =~= v@.subrange(
                start as int + 1,
                end as int,
            ));
        }
        start = start + 1;
    }
    proof {
        assert(trim_ws_start(v@.subrange(start as int, end as int)) == v@.subrange(
            start as int,
            end as int,
        ));
    }
    let r = crate::chars::copy_range(v, start, end);
    proof {
        if r.len() > 0 {
            assert(r@[0] == v@[start as int]);
            assert(r@.last() == v@[end - 1]);
        }
    }
    r
}

/// Lays the token sequence out as formatted text: exactly the layout
/// walk of the tokens under the given options and parameters, trimmed of
/// surrounding whitespace.  Comments matching the `fmt` directives
/// suspend and resume formatting; suspended stretches are copied
/// verbatim.
pub fn format(tokens: &Vec<Token>, params: &QueryParams, options: &FormatOptions) -> (r: String)
    ensures
        trimmed(r@),
        r@ == trim_ws_start(
            trim_ws_end(
                walk(
                    tokens@,
                    *params,
                    *options,
                    init_layout(*options),
                    Seq::<char>::empty(),
                    0,
                    true,
                    false,
                ),
            ),
        ),
{
    let mut f = Formatter {
        index: 0,
        params: Params::new(),
        block_level: 0,
        indentation: Indentation::new(options.indent),
        inline_block: InlineBlock::new(
            options.max_inline_block,
            match options.max_inline_arguments {
                Some(l) => l,
                None => 0,
            },
            match options.max_inline_top_level {
                Some(l) => l,
                None => 0,
            },
        ),
    };
    let mut query: Vec<char> = Vec::new();
    let mut fmt_enabled = true;
    let mut prev_token_fmt_switch = false;
    let mut index: usize = 0;
    proof {
        assert(f.indentation.indent_types@ =~= Seq::<IndentType>::empty());
        assert(f.indentation.top_level_span@ =~= Seq::<SpanInfo>::empty());
        assert(f.indentation.previous@ =~= Seq::<PreviousTokens>::empty());
        assert(f.inline_block.info@ =~= Seq::<BlockInfo>::empty());
        assert(lay(f) == init_layout(*options));
    }
    let ghost target = walk(
        tokens@,
        *params,
        *options,
        init_layout(*options),
        Seq::<char>::empty(),
        0,
        true,
        false,
    );
    while index < tokens.len()
        invariant
            index <= tokens.len(),
            target == walk(
                tokens@,
                *params,
                *options,
                lay(f),
                query@,
                index as int,
                fmt_enabled,
                prev_token_fmt_switch,
            ),
        decreases tokens.len() - index,
    {
        let ghost st_e = lay(f);
        let ghost q_e = query@;
        let token = &tokens[index];
        if prev_token_fmt_switch {
            prev_token_fmt_switch = false;
            index = index + 1;
            continue;
        }
        if matches!(token.kind, TokenKind::LineComment | TokenKind::BlockComment) {
            match check_fmt_off(&token.value) {
                Some(is_off) => {
                    fmt_enabled = !is_off;
                    prev_token_fmt_switch = true;
                    index = index + 1;
                    continue;
                },
                None => {},
            }
        }
        f.index = index;
        if !fmt_enabled {
            push_all(&mut query, &token.value);
            index = index + 1;
            continue;
        }
        match token.kind {
            TokenKind::Whitespace => {},
            TokenKind::LineComment => {
                f.format_line_comment(tokens, token, options, &mut query);
            },
            TokenKind::BlockComment => {
                f.format_block_comment(token, options, &mut query);
            },
            TokenKind::ReservedTopLevel => {
                let span = f.format_top_level_reserved_word(tokens, token, options, &mut query);
                f.indentation.set_previous_top_level(index, span);
            },
            TokenKind::ReservedTopLevelNoIndent => {
                let span = f.format_top_level_reserved_word_no_indent(
                    tokens,
                    token,
                    options,
                    &mut query,
                );
                f.indentation.set_previous_top_level(index, span);
            },
            TokenKind::ReservedNewlineAfter => {
                let span = f.format_newline_after_reserved_word(tokens, token, options, &mut query);
                f.indentation.set_previous_top_level(index, span);
            },
            TokenKind::ReservedNewline => {
                f.format_newline_reserved_word(token, options, &mut query);
                f.indentation.set_previous_reserved(index);
            },
            TokenKind::Reserved => {
                f.format_with_spaces(token.kind, &token.value, options, &mut query);
                f.indentation.set_previous_reserved(index);
            },
            TokenKind::OpenParen => {
                f.format_opening_parentheses(tokens, token, options, &mut query);
            },
            TokenKind::CloseParen => {
                f.format_closing_parentheses(token, options, &mut query);
            },
            TokenKind::Placeholder => {
                let text = f.params.get(params, token);
                push_all(&mut query, &text);
                query.push(' ');
                proof {
                    assert(query@ =~= q_e + text@ + seq![' ']);
                }
            },
            TokenKind::TypeSpecifier => {
                f.format_type_specifier(tokens, token, options, &mut query);
            },
            _ => {
                if is_single_char(&token.value, ',') {
                    f.format_comma(tokens, token, options, &mut query);
                } else if is_single_char(&token.value, ':') {
                    trim_spaces_end(&mut query);
                    push_all(&mut query, &token.value);
                    query.push(' ');
                    proof {
                        assert(query@ =~= trim_line_end(q_e) + token.value@ + seq![' ']);
                    }
                } else if is_single_char(&token.value, '.') {
                    trim_spaces_end(&mut query);
                    push_all(&mut query, &token.value);
                } else if is_single_char(&token.value, ';') {
                    f.format_query_separator(token, options, &mut query);
                } else {
                    f.format_with_spaces(token.kind, &token.value, options, &mut query);
                }
            },
        }
        proof {
            // each dispatch arm lands exactly on the walk's step
            let sq = step(tokens@, *params, *options, st_e, q_e, index as int);
            assert(lay(f) == sq.0 && query@ == sq.1);
        }
        index = index + 1;
    }
    let out = trim_both_ends(&query);
    chars_to_string(&out)
}

} // verus!
