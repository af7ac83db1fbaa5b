//! Placeholder resolution: maps a placeholder token's key to the literal
//! replacement supplied by the caller, falling back to the placeholder's
//! own text when nothing matches.

use vstd::prelude::*;
use crate::chars::str_chars;
use crate::tokens::PlaceholderKind;
use crate::tokens::Token;
use crate::QueryParams;

verus! {

/// The first value paired with `key`, or `fallback` when no pair matches.
pub open spec fn resolve_named(
    pairs: Seq<(String, String)>,
    key: Seq<char>,
    fallback: Seq<char>,
) -> Seq<char>
    decreases pairs.len(),
{
    if pairs.len() == 0 {
        fallback
    } else if pairs.first().0@ == key {
        pairs.first().1@
    } else {
        resolve_named(pairs.drop_first(), key, fallback)
    }
}

/// The value at `ix`, or `fallback` when the list is shorter.
pub open spec fn resolve_indexed(values: Seq<String>, ix: int, fallback: Seq<char>) -> Seq<char> {
    if 0 <= ix < values.len() {
        values[ix]@
    } else {
        fallback
    }
}

/// Whether the character vectors hold the same text as the string.
fn eq_string_chars(s: &String, v: &Vec<char>) -> (r: bool)
    ensures
        r == (s@ == v@),
{
    let sc = str_chars(s.as_str());
    crate::tokenizer::eq_chars(&sc, v)
}

/// The running state of placeholder resolution: bare `?` placeholders
/// consume indexed values left to right through this counter.
pub struct Params {
    pub index: usize,
}

impl Params {
    /// A fresh resolver whose running counter is at the first value.
    pub fn new() -> (r: Params)
        ensures
            r.index == 0,
    {
        Params { index: 0 }
    }

    /// The replacement text for `token`.  Explicitly indexed placeholders
    /// look their value up directly; a bare `?` takes the next value in
    /// order; named placeholders take the first value with their key.
    /// Anything unresolved falls back to the token's own text.
    #[verifier::loop_isolation(false)]
    pub fn get(&mut self, params: &QueryParams, token: &Token) -> (r: Vec<char>)
        ensures
            match params {
                QueryParams::Named(pairs) => final(self).index == old(self).index && match token.key {
                    Some(PlaceholderKind::Named(key)) => r@ == resolve_named(
                        pairs@,
                        key@,
                        token.value@,
                    ),
                    _ => r@ == token.value@,
                },
                QueryParams::Indexed(values) => match token.key {
                    Some(PlaceholderKind::ZeroIndexed(n)) => r@ == resolve_indexed(
                        values@,
                        n as int,
                        token.value@,
                    ) && final(self).index == old(self).index,
                    Some(PlaceholderKind::OneIndexed(n)) => r@ == (
                    if n == 0 {
                        token.value@
                    } else {
                        resolve_indexed(values@, n - 1, token.value@)
                    }) && final(self).index == old(self).index,
                    Some(PlaceholderKind::Named(_)) => r@ == token.value@ && final(self).index
                        == old(self).index,
                    Option::None => (r@ == resolve_indexed(
                        values@,
                        old(self).index as int,
                        token.value@,
                    ) && final(self).index == old(self).index + 1) || (old(self).index
                        == usize::MAX && final(self).index == usize::MAX && r@ == resolve_indexed(
                        values@,
                        old(self).index as int,
                        token.value@,
                    )),
                },
                QueryParams::NoParams => r@ == token.value@ && final(self).index == old(
                    self,
                ).index,
            },
    {
        match params {
            QueryParams::Named(pairs) => {
                match &token.key {
                    Some(PlaceholderKind::Named(key)) => {
                        let mut i: usize = 0;
                        proof {
                            assert(pairs@.skip(0) =~= pairs@);
                        }
                        while i < pairs.len()
                            invariant
                                i <= pairs.len(),
                                resolve_named(pairs@, key@, token.value@) == resolve_named(
                                    pairs@.skip(i as int),
                                    key@,
                                    token.value@,
                                ),
                            decreases pairs.len() - i,
                        {
                            proof {
                                assert(pairs@.skip(i as int).first() == pairs@[i as int]);
                                assert(pairs@.skip(i as int).drop_first() =~= pairs@.skip(
                                    i as int + 1,
                                ));
                            }
                            if eq_string_chars(&pairs[i].0, key) {
                                proof {
                                    assert(pairs@.skip(i as int).len() > 0);
                                    assert(pairs@.skip(i as int).first() == pairs@[i as int]);
                                    assert(resolve_named(pairs@.skip(i as int), key@, token.value@)
                                        == pairs@[i as int].1@);
                                }
                                return str_chars(pairs[i].1.as_str());
                            }
                            i = i + 1;
                        }
                        proof {
                            assert(pairs@.skip(pairs.len() as int).len() == 0);
                        }
                        copy_value(token)
                    },
                    _ => copy_value(token),
                }
            },
            QueryParams::Indexed(values) => {
                match &token.key {
                    Some(PlaceholderKind::ZeroIndexed(n)) => lookup_indexed(
                        values,
                        *n,
                        token,
                    ),
                    Some(PlaceholderKind::OneIndexed(n)) => {
                        if *n == 0 {
                            copy_value(token)
                        } else {
                            lookup_indexed(values, *n - 1, token)
                        }
                    },
                    Some(PlaceholderKind::Named(_)) => copy_value(token),
                    Option::None => {
                        let ix = self.index;
                        if self.index < usize::MAX {
                            self.index = self.index + 1;
                        }
                        lookup_indexed(values, ix, token)
                    },
                }
            },
            QueryParams::NoParams => copy_value(token),
        }
    }
}

/// The value at `ix`, or the token's own text.
fn lookup_indexed(values: &Vec<String>, ix: usize, token: &Token) -> (r: Vec<char>)
    ensures
        r@ == resolve_indexed(values@, ix as int, token.value@),
{
    if ix < values.len() {
        str_chars(values[ix].as_str())
    } else {
        copy_value(token)
    }
}

/// A copy of the token's own text.
fn copy_value(token: &Token) -> (r: Vec<char>)
    ensures
        r@ == token.value@,
{
    let r = crate::chars::copy_range(&token.value, 0, token.value.len());
    proof {
        assert(token.value@.subrange(0, token.value.len() as int) =~= token.value@);
    }
    r
}

} // verus!
