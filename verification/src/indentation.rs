//! The indentation stack: one frame per open top-level clause or block,
//! plus the per-level memory of the last reserved words seen.

use vstd::prelude::*;
use crate::Indent;
use crate::SpanInfo;

verus! {

/// What kind of frame sits on the indentation stack.
#[derive(Debug, Clone, Copy, PartialEq, Eq, Structural)]
pub enum IndentType {
    /// A top-level clause.
    Top,
    /// An expanded parenthesized block.
    Block,
    /// A block folded onto its clause's line; contributes no indent.
    FoldedBlock,
}

/// The reserved words last seen at one block level.  Tokens are referred
/// to by their index in the token list.
#[derive(Debug, Clone, Copy)]
pub struct PreviousTokens {
    pub top_level_reserved: Option<(usize, SpanInfo)>,
    pub reserved: Option<usize>,
}

/// The visible depth: every frame counts except folded blocks.
pub open spec fn visible_depth(types: Seq<IndentType>) -> int
    decreases types.len(),
{
    if types.len() == 0 {
        0
    } else {
        visible_depth(types.drop_last()) + if types.last() is FoldedBlock {
            0int
        } else {
            1int
        }
    }
}

/// The width of one indentation unit, in characters.
pub open spec fn unit_width(indent: Indent) -> int {
    match indent {
        Indent::Spaces(n) => n as int,
        Indent::Tabs => 1,
    }
}

/// The character the indentation is made of.
pub open spec fn indent_char(indent: Indent) -> char {
    match indent {
        Indent::Spaces(_) => ' ',
        Indent::Tabs => '\t',
    }
}

/// The length of the indentation for a stack, in characters.
pub open spec fn indent_len(ind: Indent, types: Seq<IndentType>, folded: bool) -> int {
    unit_width(ind) * ({
        let d = visible_depth(types);
        if folded && d > 0 {
            d - 1
        } else {
            d
        }
    })
}

/// The indentation text for a stack: the indent character repeated.
pub open spec fn indent_seq(ind: Indent, types: Seq<IndentType>, folded: bool) -> Seq<char> {
    Seq::new(indent_len(ind, types, folded) as nat, |i: int| indent_char(ind))
}

/// The stack after closing frames down to and including the innermost
/// block frame: open clauses above it close with it.
pub open spec fn pop_through_block(types: Seq<IndentType>) -> Seq<IndentType>
    decreases types.len(),
{
    if types.len() == 0 {
        types
    } else if types.last() is Top {
        pop_through_block(types.drop_last())
    } else {
        types.drop_last()
    }
}

/// The clause spans left after `pop_through_block`: one span goes per
/// closed top-level frame.
pub open spec fn ptb_spans(types: Seq<IndentType>, spans: Seq<SpanInfo>) -> Seq<SpanInfo>
    decreases types.len(),
{
    if types.len() == 0 {
        spans
    } else if types.last() is Top {
        ptb_spans(
            types.drop_last(),
            if spans.len() > 0 {
                spans.drop_last()
            } else {
                spans
            },
        )
    } else {
        spans
    }
}

/// The per-level word memory left after `pop_through_block`: one entry
/// goes per closed frame of any kind.
pub open spec fn ptb_previous(types: Seq<IndentType>, prev: Seq<PreviousTokens>) -> Seq<
    PreviousTokens,
>
    decreases types.len(),
{
    if types.len() == 0 {
        prev
    } else {
        let p2 = if prev.len() > 0 {
            prev.drop_last()
        } else {
            prev
        };
        if types.last() is Top {
            ptb_previous(types.drop_last(), p2)
        } else {
            p2
        }
    }
}

/// Whether the innermost block frame of the stack — the one that
/// `pop_through_block` closes — is a folded block.
pub open spec fn popped_block_was_folded(types: Seq<IndentType>) -> bool
    decreases types.len(),
{
    if types.len() == 0 {
        false
    } else if types.last() is Top {
        popped_block_was_folded(types.drop_last())
    } else {
        types.last() is FoldedBlock
    }
}

/// The word memory with its innermost entry's reserved slot set.
pub open spec fn set_reserved(prev: Seq<PreviousTokens>, ix: usize) -> Seq<PreviousTokens> {
    if prev.len() > 0 {
        prev.update(
            prev.len() - 1,
            PreviousTokens {
                top_level_reserved: prev.last().top_level_reserved,
                reserved: Some(ix),
            },
        )
    } else {
        seq![PreviousTokens { top_level_reserved: Option::None, reserved: Some(ix) }]
    }
}

/// The word memory with its innermost entry's top-level slot set.
pub open spec fn set_top_level(prev: Seq<PreviousTokens>, ix: usize, span: SpanInfo) -> Seq<
    PreviousTokens,
> {
    if prev.len() > 0 {
        prev.update(
            prev.len() - 1,
            PreviousTokens {
                top_level_reserved: Some((ix, span)),
                reserved: prev.last().reserved,
            },
        )
    } else {
        seq![PreviousTokens { top_level_reserved: Some((ix, span)), reserved: Some(ix) }]
    }
}

/// The indentation state of one formatting run.
pub struct Indentation {
    pub indent: Indent,
    pub indent_types: Vec<IndentType>,
    pub top_level_span: Vec<SpanInfo>,
    pub previous: Vec<PreviousTokens>,
}

impl Indentation {
    /// An empty stack using the configured indent unit.
    pub fn new(indent: Indent) -> (r: Indentation)
        ensures
            r.indent_types.len() == 0,
            r.top_level_span.len() == 0,
            r.previous.len() == 0,
            r.indent == indent,
    {
        Indentation {
            indent,
            indent_types: Vec::new(),
            top_level_span: Vec::new(),
            previous: Vec::new(),
        }
    }

    /// The indentation for the current depth: the unit repeated once per
    /// visible frame, one less while closing a folded block.
    pub fn get_indent(&self, folded: bool) -> (r: Vec<char>)
        ensures
            r@ == indent_seq(self.indent, self.indent_types@, folded),
    {
        let mut level: usize = 0;
        let mut i: usize = 0;
        proof {
            assert(self.indent_types@.take(0) =~= Seq::<IndentType>::empty());
        }
        while i < self.indent_types.len()
            invariant
                i <= self.indent_types.len(),
                level <= i,
                level == visible_depth(self.indent_types@.take(i as int)),
            decreases self.indent_types.len() - i,
        {
            proof {
                assert(self.indent_types@.take(i as int + 1).drop_last() =~= self.indent_types@.take(
                    i as int,
                ));
                assert(self.indent_types@.take(i as int + 1).last() == self.indent_types@[i as int]);
            }
            if !matches!(self.indent_types[i], IndentType::FoldedBlock) {
                level = level + 1;
            }
            i = i + 1;
        }
        proof {
            assert(self.indent_types@.take(self.indent_types.len() as int) =~= self.indent_types@);
        }
        if folded && level > 0 {
            level = level - 1;
        }
        let mut out: Vec<char> = Vec::new();
        let mut k: usize = 0;
        while k < level
            invariant
                k <= level,
                forall|j: int| 0 <= j < out.len() ==> out@[j] == indent_char(self.indent),
                out.len() == unit_width(self.indent) * k,
            decreases level - k,
        {
            match self.indent {
                Indent::Spaces(n) => {
                    let mut m: u8 = 0;
                    while m < n
                        invariant
                            m <= n,
                            forall|j: int| 0 <= j < out.len() ==> out@[j] == indent_char(self.indent),
                            out.len() == unit_width(self.indent) * k + m,
                            self.indent == Indent::Spaces(n),
                        decreases n - m,
                    {
                        out.push(' ');
                        m = m + 1;
                    }
                },
                Indent::Tabs => {
                    out.push('\t');
                },
            }
            proof {
                assert(unit_width(self.indent) * (k as int + 1) == unit_width(self.indent)
                    * k as int + unit_width(self.indent)) by (nonlinear_arith);
            }
            k = k + 1;
        }
        proof {
            assert(out@ =~= indent_seq(self.indent, self.indent_types@, folded));
        }
        out
    }

    /// Opens a top-level clause frame.
    pub fn increase_top_level(&mut self, span: SpanInfo)
        ensures
            final(self).indent_types@ == old(self).indent_types@.push(IndentType::Top),
            final(self).top_level_span@ == old(self).top_level_span@.push(span),
            final(self).previous@ == old(self).previous@,
            final(self).indent == old(self).indent,
    {
        self.indent_types.push(IndentType::Top);
        self.top_level_span.push(span);
    }

    /// Opens a block frame; a folded block keeps the current indent.
    pub fn increase_block_level(&mut self, folded: bool)
        ensures
            final(self).indent_types@ == old(self).indent_types@.push(
                if folded {
                    IndentType::FoldedBlock
                } else {
                    IndentType::Block
                },
            ),
            final(self).previous@ == old(self).previous@.push(
                PreviousTokens { top_level_reserved: Option::None, reserved: Option::None },
            ),
            final(self).top_level_span@ == old(self).top_level_span@,
            final(self).indent == old(self).indent,
    {
        self.indent_types.push(
            if folded {
                IndentType::FoldedBlock
            } else {
                IndentType::Block
            },
        );
        self.previous.push(
            PreviousTokens { top_level_reserved: Option::None, reserved: Option::None },
        );
    }

    /// Closes the innermost frame if it is a top-level clause.
    pub fn decrease_top_level(&mut self)
        ensures
            final(self).indent == old(self).indent,
            (old(self).indent_types.len() > 0 && old(self).indent_types@.last() is Top) ==> ({
                &&& final(self).indent_types@ == old(self).indent_types@.drop_last()
                &&& final(self).top_level_span@ == (if old(self).top_level_span.len() > 0 {
                    old(self).top_level_span@.drop_last()
                } else {
                    old(self).top_level_span@
                })
                &&& final(self).previous@ == (if old(self).previous.len() > 0 {
                    old(self).previous@.drop_last()
                } else {
                    old(self).previous@
                })
            }),
            !(old(self).indent_types.len() > 0 && old(self).indent_types@.last() is Top)
                ==> *final(self) == *old(self),
    {
        let n = self.indent_types.len();
        if n > 0 && matches!(self.indent_types[n - 1], IndentType::Top) {
            self.indent_types.pop();
            if self.top_level_span.len() > 0 {
                self.top_level_span.pop();
            }
            if self.previous.len() > 0 {
                self.previous.pop();
            }
        }
    }

    /// Closes frames down to and including the innermost block frame.
    /// Returns whether that block was folded.
    pub fn decrease_block_level(&mut self) -> (folded: bool)
        ensures
            final(self).indent == old(self).indent,
            final(self).indent_types@ == pop_through_block(old(self).indent_types@),
            final(self).top_level_span@ == ptb_spans(
                old(self).indent_types@,
                old(self).top_level_span@,
            ),
            final(self).previous@ == ptb_previous(
                old(self).indent_types@,
                old(self).previous@,
            ),
            folded == popped_block_was_folded(old(self).indent_types@),
    {
        let mut folded = false;
        loop
            invariant
                !folded,
                self.indent == old(self).indent,
                pop_through_block(self.indent_types@) == pop_through_block(
                    old(self).indent_types@,
                ),
                ptb_spans(self.indent_types@, self.top_level_span@) == ptb_spans(
                    old(self).indent_types@,
                    old(self).top_level_span@,
                ),
                ptb_previous(self.indent_types@, self.previous@) == ptb_previous(
                    old(self).indent_types@,
                    old(self).previous@,
                ),
                popped_block_was_folded(self.indent_types@) == popped_block_was_folded(
                    old(self).indent_types@,
                ),
            decreases self.indent_types.len(),
        {
            let n = self.indent_types.len();
            if n == 0 {
                return folded;
            }
            let kind = self.indent_types[n - 1];
            self.indent_types.pop();
            if self.previous.len() > 0 {
                self.previous.pop();
            }
            if matches!(kind, IndentType::Top) {
                if self.top_level_span.len() > 0 {
                    self.top_level_span.pop();
                }
            }
            folded = matches!(kind, IndentType::FoldedBlock);
            if !matches!(kind, IndentType::Top) {
                return folded;
            }
        }
    }

    /// Clears the whole stack, as a statement separator does.
    pub fn reset_indentation(&mut self)
        ensures
            final(self).indent_types.len() == 0,
            final(self).top_level_span.len() == 0,
            final(self).previous.len() == 0,
            final(self).indent == old(self).indent,
    {
        self.indent_types.clear();
        self.top_level_span.clear();
        self.previous.clear();
    }

    /// Records the last plain reserved word at the current level.
    pub fn set_previous_reserved(&mut self, token_index: usize)
        ensures
            final(self).indent == old(self).indent,
            final(self).indent_types@ == old(self).indent_types@,
            final(self).top_level_span@ == old(self).top_level_span@,
            final(self).previous@ == set_reserved(old(self).previous@, token_index),
    {
        let n = self.previous.len();
        if n > 0 {
            let top = self.previous[n - 1].top_level_reserved;
            let entry = PreviousTokens { top_level_reserved: top, reserved: Some(token_index) };
            self.previous.pop();
            self.previous.push(entry);
        } else {
            self.previous.push(
                PreviousTokens { top_level_reserved: Option::None, reserved: Some(token_index) },
            );
        }
    }

    /// Records the last top-level reserved word and its span.
    pub fn set_previous_top_level(&mut self, token_index: usize, span: SpanInfo)
        ensures
            final(self).indent == old(self).indent,
            final(self).indent_types@ == old(self).indent_types@,
            final(self).top_level_span@ == old(self).top_level_span@,
            final(self).previous@ == set_top_level(old(self).previous@, token_index, span),
    {
        let n = self.previous.len();
        if n > 0 {
            let res = self.previous[n - 1].reserved;
            let entry = PreviousTokens {
                top_level_reserved: Some((token_index, span)),
                reserved: res,
            };
            self.previous.pop();
            self.previous.push(entry);
        } else {
            self.previous.push(
                PreviousTokens {
                    top_level_reserved: Some((token_index, span)),
                    reserved: Some(token_index),
                },
            );
        }
    }

    /// The last plain reserved word of the current level, if any.
    pub fn previous_reserved(&self) -> (r: Option<usize>)
        ensures
            r == if self.previous.len() > 0 {
                self.previous@.last().reserved
            } else {
                Option::<usize>::None
            },
    {
        let n = self.previous.len();
        if n > 0 {
            self.previous[n - 1].reserved
        } else {
            None
        }
    }

    /// The last top-level reserved word of the current level, if any.
    pub fn previous_top_level_reserved(&self) -> (r: Option<(usize, SpanInfo)>)
        ensures
            r == if self.previous.len() > 0 {
                self.previous@.last().top_level_reserved
            } else {
                Option::<(usize, SpanInfo)>::None
            },
    {
        let n = self.previous.len();
        if n > 0 {
            self.previous[n - 1].top_level_reserved
        } else {
            None
        }
    }

    /// The full span between the innermost top-level clause's keyword and
    /// the next one, or zero outside any clause.
    pub fn span(&self) -> (r: usize)
        ensures
            r == if self.top_level_span.len() > 0 {
                self.top_level_span@.last().full_span as int
            } else {
                0
            },
    {
        let n = self.top_level_span.len();
        if n > 0 {
            self.top_level_span[n - 1].full_span
        } else {
            0
        }
    }
}

} // verus!
