//! A SQL pretty-printer: turns an arbitrary, possibly malformed SQL string
//! into a consistently indented, line-broken form, optionally re-casing
//! keywords and substituting placeholder parameters.
//!
//! The pipeline is a lossless tokenizer followed by a single-pass layout
//! formatter; neither ever rejects an input.

use vstd::prelude::*;

mod chars;
mod keywords;
mod tokens;
mod tokenizer;
mod params;
mod indentation;
mod inline_block;
mod formatter;

pub use tokens::Token;
pub use tokens::TokenKind;
pub use tokens::PlaceholderKind;
pub use tokens::texts;
pub use tokenizer::tokenize;
pub use inline_block::InlineBlock;
pub use indentation::Indentation;
pub use formatter::check_fmt_off;
pub use formatter::fmt_directive;
pub use params::Params;

verus! {

/// The SQL dialect to use. It selects which dialect-specific lexical
/// constructs the tokenizer recognizes.
#[derive(Debug, Clone, Copy, PartialEq, Eq, Structural)]
pub enum Dialect {
    /// Generic SQL syntax; dialect-specific constructs are disabled.
    Generic,
    /// Enables array syntax: `[` and `]` act like parentheses.
    PostgreSql,
    /// Enables `[bracketed identifiers]` as string tokens.
    SQLServer,
}

/// The indentation unit repeated once per nesting level.
#[derive(Debug, Clone, Copy, PartialEq, Eq, Structural)]
pub enum Indent {
    Spaces(u8),
    Tabs,
}

/// Replacements for the placeholders in a query.
#[derive(Debug)]
pub enum QueryParams {
    /// Values looked up by placeholder name.
    Named(Vec<(String, String)>),
    /// Values looked up by position or explicit index.
    Indexed(Vec<String>),
    /// No replacements: placeholders pass through unchanged.
    NoParams,
}

impl QueryParams {
    /// Whether the parameter set is the named variant.
    pub fn is_named(&self) -> (r: bool)
        ensures
            r == (self is Named),
    {
        match self {
            QueryParams::Named(_) => true,
            _ => false,
        }
    }
}

/// What a forward scan of one clause found, used to decide whether the
/// clause is broken around its keyword or folded onto one line.
#[derive(Debug, Clone, Copy)]
pub struct SpanInfo {
    /// The rendered length of the clause body, in bytes.
    pub full_span: usize,
    /// How many blocks open directly under the clause.
    pub blocks: usize,
    /// Whether a break is owed before the keyword.
    pub newline_before: bool,
    /// Whether a break is owed after the keyword.
    pub newline_after: bool,
    /// How many comma-separated arguments the clause has.
    pub arguments: usize,
}

/// Options controlling one formatting run.
#[derive(Debug)]
pub struct FormatOptions {
    /// Controls the type and length of indentation to use.
    pub indent: Indent,
    /// When set, changes reserved keywords to ALL CAPS (`Some(true)`) or to
    /// lower case (`Some(false)`).
    pub uppercase: Option<bool>,
    /// Controls the number of line breaks after a query.
    pub lines_between_queries: u8,
    /// Keywords exempted from the `uppercase` conversion.
    pub ignore_case_convert: Option<Vec<String>>,
    /// Keep the query on a single line.
    pub inline: bool,
    /// Maximum length of an inline parenthesized block.
    pub max_inline_block: usize,
    /// Maximum length for folding comma-separated arguments onto one line;
    /// unset keeps every argument on a separate line.
    pub max_inline_arguments: Option<usize>,
    /// Maximum length for folding a whole top-level clause onto the line of
    /// its keyword.
    pub max_inline_top_level: Option<usize>,
    /// Treat JOIN keywords as top-level clauses instead of newline words.
    pub joins_as_top_level: bool,
    /// The SQL dialect to tokenize with.
    pub dialect: Dialect,
    /// Replacements for the placeholders in the query.
    pub params: QueryParams,
}

impl Default for FormatOptions {
    /// Two-space indent, keyword case kept, one line between queries,
    /// 50-character inline blocks, generic dialect, no parameters.
    fn default() -> (r: Self)
        ensures
            r.indent == Indent::Spaces(2),
            r.uppercase is None,
            r.lines_between_queries == 1,
            r.ignore_case_convert is None,
            !r.inline,
            r.max_inline_block == 50,
            r.max_inline_arguments is None,
            r.max_inline_top_level is None,
            !r.joins_as_top_level,
            r.dialect is Generic,
            r.params is NoParams,
    {
        FormatOptions {
            indent: Indent::Spaces(2),
            uppercase: None,
            lines_between_queries: 1,
            ignore_case_convert: None,
            inline: false,
            max_inline_block: 50,
            max_inline_arguments: None,
            max_inline_top_level: None,
            joins_as_top_level: false,
            dialect: Dialect::Generic,
            params: QueryParams::NoParams,
        }
    }
}

impl FormatOptions {
    /// A builder over the default options.
    pub fn builder() -> (r: FormatOptionsBuilder)
        ensures
            r.options.indent == Indent::Spaces(2),
            r.options.uppercase is None,
            r.options.lines_between_queries == 1,
            r.options.ignore_case_convert is None,
            !r.options.inline,
            r.options.max_inline_block == 50,
            r.options.max_inline_arguments is None,
            r.options.max_inline_top_level is None,
            !r.options.joins_as_top_level,
            r.options.dialect is Generic,
            r.options.params is NoParams,
    {
        FormatOptionsBuilder { options: Default::default() }
    }

    /// Formats the SQL query string with these options.  The result is
    /// the layout walk of the query's tokenization — whose kinds, texts,
    /// keys and aliases are exactly the tokenizer's scan of the query —
    /// trimmed of surrounding whitespace.  The walk reads tokens only
    /// through those views, so the scan determines the result.
    pub fn format(&self, query: &str) -> (r: String)
        ensures
            formatter::trimmed(r@),
            exists|toks: Seq<Token>|
                {
                    &&& #[trigger] crate::tokens::toks_view(toks) == tokenizer::scan(
                        query@,
                        0,
                        tokenizer::start_flags(),
                        self.params is Named,
                        self.joins_as_top_level,
                        self.dialect,
                    )
                    &&& texts(toks) == query@
                    &&& r@ == formatter::trim_ws_start(
                        formatter::trim_ws_end(
                            formatter::walk(
                                toks,
                                self.params,
                                *self,
                                formatter::init_layout(*self),
                                Seq::<char>::empty(),
                                0,
                                true,
                                false,
                            ),
                        ),
                    )
                },
    {
        let named = self.params.is_named();
        let tokens = tokenizer::tokenize(query, named, self);
        let r = formatter::format(&tokens, &self.params, self);
        proof {
            assert(texts(tokens@) == query@);
        }
        r
    }

    /// The same options with a different parameter set: every other field
    /// carries over unchanged.
    pub fn with_params(&self, params: QueryParams) -> (r: FormatOptions)
        ensures
            r.params == params,
            r.indent == self.indent,
            r.uppercase == self.uppercase,
            r.lines_between_queries == self.lines_between_queries,
            (r.ignore_case_convert is Some) == (self.ignore_case_convert is Some),
            r.ignore_case_convert is Some ==> (r.ignore_case_convert->0)@
                == (self.ignore_case_convert->0)@,
            r.inline == self.inline,
            r.max_inline_block == self.max_inline_block,
            r.max_inline_arguments == self.max_inline_arguments,
            r.max_inline_top_level == self.max_inline_top_level,
            r.joins_as_top_level == self.joins_as_top_level,
            r.dialect == self.dialect,
    {
        FormatOptions {
            indent: self.indent,
            uppercase: self.uppercase,
            lines_between_queries: self.lines_between_queries,
            ignore_case_convert: match &self.ignore_case_convert {
                Some(v) => Some(clone_strings(v)),
                None => None,
            },
            inline: self.inline,
            max_inline_block: self.max_inline_block,
            max_inline_arguments: self.max_inline_arguments,
            max_inline_top_level: self.max_inline_top_level,
            joins_as_top_level: self.joins_as_top_level,
            dialect: self.dialect,
            params,
        }
    }
}

/// A copy of a string list whose elements are equal to the originals.
fn clone_strings(v: &Vec<String>) -> (r: Vec<String>)
    ensures
        r@ == v@,
{
    let mut r: Vec<String> = Vec::new();
    let mut i: usize = 0;
    while i < v.len()
        invariant
            i <= v.len(),
            r@ == v@.subrange(0, i as int),
        decreases v.len() - i,
    {
        r.push(v[i].clone());
        proof {
            assert(v@.subrange(0, i as int).push(v@[i as int]) =~= v@.subrange(0, i + 1));
        }
        i = i + 1;
    }
    proof {
        assert(v@.subrange(0, v.len() as int) =~= v@);
    }
    r
}

/// Builds a `FormatOptions` one field at a time.
#[derive(Debug)]
pub struct FormatOptionsBuilder {
    pub options: FormatOptions,
}

impl FormatOptionsBuilder {
    pub fn indent(self, indent: Indent) -> (r: Self)
        ensures
            r.options.indent == indent,
    {
        let mut b = self;
        b.options.indent = indent;
        b
    }

    pub fn uppercase(self, uppercase: bool) -> (r: Self)
        ensures
            r.options.uppercase == Some(uppercase),
    {
        let mut b = self;
        b.options.uppercase = Some(uppercase);
        b
    }

    pub fn lines_between_queries(self, n: u8) -> (r: Self)
        ensures
            r.options.lines_between_queries == n,
    {
        let mut b = self;
        b.options.lines_between_queries = n;
        b
    }

    pub fn ignore_case_convert(self, words: Vec<String>) -> (r: Self)
        ensures
            r.options.ignore_case_convert == Some(words),
    {
        let mut b = self;
        b.options.ignore_case_convert = Some(words);
        b
    }

    pub fn inline(self, inline: bool) -> (r: Self)
        ensures
            r.options.inline == inline,
    {
        let mut b = self;
        b.options.inline = inline;
        b
    }

    pub fn max_inline_block(self, n: usize) -> (r: Self)
        ensures
            r.options.max_inline_block == n,
    {
        let mut b = self;
        b.options.max_inline_block = n;
        b
    }

    pub fn max_inline_arguments(self, n: usize) -> (r: Self)
        ensures
            r.options.max_inline_arguments == Some(n),
    {
        let mut b = self;
        b.options.max_inline_arguments = Some(n);
        b
    }

    pub fn max_inline_top_level(self, n: usize) -> (r: Self)
        ensures
            r.options.max_inline_top_level == Some(n),
    {
        let mut b = self;
        b.options.max_inline_top_level = Some(n);
        b
    }

    pub fn joins_as_top_level(self, yes: bool) -> (r: Self)
        ensures
            r.options.joins_as_top_level == yes,
    {
        let mut b = self;
        b.options.joins_as_top_level = yes;
        b
    }

    pub fn dialect(self, dialect: Dialect) -> (r: Self)
        ensures
            r.options.dialect == dialect,
    {
        let mut b = self;
        b.options.dialect = dialect;
        b
    }

    pub fn params(self, params: QueryParams) -> (r: Self)
        ensures
            r.options.params == params,
    {
        let mut b = self;
        b.options.params = params;
        b
    }

    /// Finishes the builder.
    pub fn build(self) -> (r: FormatOptions)
        ensures
            r == self.options,
    {
        self.options
    }

    /// Builds and formats the query in one step.  The result is the
    /// layout walk of the query's tokenization — whose kinds, texts,
    /// keys and aliases are exactly the tokenizer's scan of the query —
    /// trimmed of surrounding whitespace.
    pub fn format(self, query: &str) -> (r: String)
        ensures
            formatter::trimmed(r@),
            exists|toks: Seq<Token>|
                {
                    &&& #[trigger] crate::tokens::toks_view(toks) == tokenizer::scan(
                        query@,
                        0,
                        tokenizer::start_flags(),
                        self.options.params is Named,
                        self.options.joins_as_top_level,
                        self.options.dialect,
                    )
                    &&& texts(toks) == query@
                    &&& r@ == formatter::trim_ws_start(
                        formatter::trim_ws_end(
                            formatter::walk(
                                toks,
                                self.options.params,
                                self.options,
                                formatter::init_layout(self.options),
                                Seq::<char>::empty(),
                                0,
                                true,
                                false,
                            ),
                        ),
                    )
                },
    {
        self.options.format(query)
    }
}

} // verus!
