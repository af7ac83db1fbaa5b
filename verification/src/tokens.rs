//! Token data model: the atomic units the tokenizer produces and the
//! formatter consumes.

use vstd::prelude::*;

verus! {

/// The semantic class of a token.
#[derive(Debug, Clone, Copy, PartialEq, Eq, Structural)]
pub enum TokenKind {
    /// `::` or `[]`, glued to the preceding token.
    TypeSpecifier,
    /// A run of whitespace characters.
    Whitespace,
    /// A quoted string or bracketed identifier.
    String,
    /// A reserved word rendered inline.
    Reserved,
    /// A reserved word that opens a new top-level clause.
    ReservedTopLevel,
    /// A top-level clause keyword that does not change the indent.
    ReservedTopLevelNoIndent,
    /// A reserved word that starts a new line at the current depth.
    ReservedNewline,
    /// A reserved word after which a line break is forced.
    ReservedNewlineAfter,
    /// An operator or punctuation token.
    Operator,
    /// `(`, a PostgreSql `[`, or the word `CASE`.
    OpenParen,
    /// `)`, a PostgreSql `]`, or the word `END`.
    CloseParen,
    /// A comment running to the end of the line.
    LineComment,
    /// A `/* ... */` comment.
    BlockComment,
    /// A numeric literal.
    Number,
    /// A query parameter marker.
    Placeholder,
    /// A bare word: identifiers and anything else word-like.
    Word,
    /// A JOIN-family keyword, reclassified while tokenizing.
    Join,
}

/// How a placeholder names the parameter it stands for.
#[derive(Debug)]
pub enum PlaceholderKind {
    /// `@name`, `:name`, `$name`, `{name}` or a quoted variant.
    Named(Vec<char>),
    /// `?N`: an explicit zero-based index.
    ZeroIndexed(usize),
    /// `$N`: an explicit one-based index.
    OneIndexed(usize),
}

/// One token: its kind, its exact source text, the parameter key for
/// placeholders, and a normalized alias used to group variants.
#[derive(Debug)]
pub struct Token {
    pub kind: TokenKind,
    pub value: Vec<char>,
    pub key: Option<PlaceholderKind>,
    pub alias: Vec<char>,
}

impl PlaceholderKind {
    /// The placeholder's name: the key of a named placeholder, empty for
    /// the indexed kinds.
    pub fn named(&self) -> (r: Vec<char>)
        ensures
            r@ == match self {
                PlaceholderKind::Named(name) => name@,
                _ => Seq::<char>::empty(),
            },
    {
        match self {
            PlaceholderKind::Named(name) => {
                let r = crate::chars::copy_range(name, 0, name.len());
                proof {
                    assert(name@.subrange(0, name.len() as int) =~= name@);
                }
                r
            },
            _ => Vec::new(),
        }
    }

    /// The zero-based index of an indexed placeholder.  A one-based index
    /// of zero has nothing before it and resolves to nothing.
    pub fn indexed(&self) -> (r: Option<usize>)
        ensures
            r == match self {
                PlaceholderKind::ZeroIndexed(n) => Some(*n),
                PlaceholderKind::OneIndexed(n) => if *n > 0 {
                    Some((*n - 1) as usize)
                } else {
                    Option::<usize>::None
                },
                PlaceholderKind::Named(_) => Option::<usize>::None,
            },
    {
        match self {
            PlaceholderKind::ZeroIndexed(n) => Some(*n),
            PlaceholderKind::OneIndexed(n) => {
                if *n > 0 {
                    Some(*n - 1)
                } else {
                    None
                }
            },
            PlaceholderKind::Named(_) => None,
        }
    }
}

/// The length of a text in bytes: the sum of its characters' UTF-8
/// widths, stopping at the largest representable value.
pub open spec fn byte_len(v: Seq<char>) -> int
    decreases v.len(),
{
    if v.len() == 0 {
        0
    } else {
        crate::chars::sat(byte_len(v.drop_last()), crate::chars::utf8_len(v.last()))
    }
}

/// The total source length of `token` in bytes: the sum of its
/// characters' UTF-8 widths.
pub fn token_byte_len(token: &Token) -> (r: usize)
    ensures
        r == byte_len(token.value@),
{
    let mut total: usize = 0;
    let mut i: usize = 0;
    while i < token.value.len()
        invariant
            i <= token.value@.len(),
            total == byte_len(token.value@.take(i as int)),
        decreases token.value@.len() - i,
    {
        proof {
            assert(token.value@.take(i as int + 1).drop_last() =~= token.value@.take(i as int));
            assert(token.value@.take(i as int + 1).last() == token.value@[i as int]);
        }
        total = crate::chars::sat_add(total, crate::chars::utf8_len_char(token.value[i]));
        i = i + 1;
    }
    proof {
        assert(token.value@.take(token.value.len() as int) =~= token.value@);
    }
    total
}

/// A placeholder key as plain values.
pub enum KeyView {
    Named(Seq<char>),
    ZeroIndexed(int),
    OneIndexed(int),
}

/// A token as plain values: its kind, text, key and alias.
pub struct TokenView {
    pub kind: TokenKind,
    pub value: Seq<char>,
    pub key: Option<KeyView>,
    pub alias: Seq<char>,
}

/// The plain-value view of a placeholder key.
pub open spec fn key_view(k: Option<PlaceholderKind>) -> Option<KeyView> {
    match k {
        Some(PlaceholderKind::Named(name)) => Some(KeyView::Named(name@)),
        Some(PlaceholderKind::ZeroIndexed(n)) => Some(KeyView::ZeroIndexed(n as int)),
        Some(PlaceholderKind::OneIndexed(n)) => Some(KeyView::OneIndexed(n as int)),
        Option::None => Option::None,
    }
}

/// The plain-value view of one token.
pub open spec fn tok_view(t: Token) -> TokenView {
    TokenView { kind: t.kind, value: t.value@, key: key_view(t.key), alias: t.alias@ }
}

/// The plain-value views of a token sequence.
pub open spec fn toks_view(tokens: Seq<Token>) -> Seq<TokenView>
    decreases tokens.len(),
{
    if tokens.len() == 0 {
        Seq::<TokenView>::empty()
    } else {
        toks_view(tokens.drop_last()).push(tok_view(tokens.last()))
    }
}

/// Appending a token appends its view.
pub proof fn lemma_toks_view_push(tokens: Seq<Token>, t: Token)
    ensures
        toks_view(tokens.push(t)) == toks_view(tokens).push(tok_view(t)),
{
    assert(tokens.push(t).drop_last() =~= tokens);
    assert(tokens.push(t).last() == t);
}

/// Pushing then concatenating equals concatenating the singleton.
pub proof fn lemma_push_concat<A>(a: Seq<A>, x: A, b: Seq<A>)
    ensures
        a.push(x) + b == a + (seq![x] + b),
{
    assert(a.push(x) + b =~= a + (seq![x] + b));
}

/// The empty sequence is a left identity of concatenation.
pub proof fn lemma_empty_concat<A>(b: Seq<A>)
    ensures
        Seq::<A>::empty() + b == b,
{
    assert(Seq::<A>::empty() + b =~= b);
}

/// The empty sequence is a right identity of concatenation.
pub proof fn lemma_concat_empty<A>(a: Seq<A>)
    ensures
        a + Seq::<A>::empty() == a,
{
    assert(a + Seq::<A>::empty() =~= a);
}

/// The concatenation of the source text of `tokens`, in order.
pub open spec fn texts(tokens: Seq<Token>) -> Seq<char>
    decreases tokens.len(),
{
    if tokens.len() == 0 {
        Seq::<char>::empty()
    } else {
        texts(tokens.drop_last()) + tokens.last().value@
    }
}

/// Appending a token extends the concatenated text by that token's text.
pub proof fn lemma_texts_push(tokens: Seq<Token>, t: Token)
    ensures
        texts(tokens.push(t)) == texts(tokens) + t.value@,
{
    assert(tokens.push(t).drop_last() =~= tokens);
    assert(tokens.push(t).last() == t);
}

} // verus!
