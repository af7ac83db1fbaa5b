//! The inline-block detector: decides whether a parenthesized (or
//! `CASE ... END`) region is short and simple enough to stay on one line,
//! and tracks the nesting of such regions while they are open.

use vstd::prelude::*;
use crate::chars::sat;
use crate::chars::sat_add;
use crate::tokens::byte_len;
use crate::tokens::token_byte_len;
use crate::tokens::Token;
use crate::tokens::TokenKind;

verus! {

/// What a forward scan of one block found.
#[derive(Debug, Clone, Copy)]
pub struct BlockInfo {
    /// Total source length of the block, in bytes.
    pub length: usize,
    /// Whether the block holds comments or statement separators.
    pub has_forbidden_tokens: bool,
    /// Whether the block holds newline-reserved words.
    pub has_reserved_tokens: bool,
    /// The longest stretch between two same-depth top-level keywords.
    pub top_level_token_span: usize,
}

/// A token that disqualifies its block from inlining: a comment or a
/// statement separator.
pub open spec fn forbidden_token(t: Token) -> bool {
    t.kind is LineComment || t.kind is BlockComment || t.value@ =~= seq![';']
}

/// The running state of a block scan.
pub struct BlockScan {
    pub length: int,
    pub level: int,
    pub span: int,
    pub start_top: Option<int>,
    pub start_span: int,
    pub forbidden: bool,
    pub reserved: bool,
}

/// A fresh block scan.
pub open spec fn scan_start() -> BlockScan {
    BlockScan {
        length: 0,
        level: 0,
        span: 0,
        start_top: Option::None,
        start_span: 0,
        forbidden: false,
        reserved: false,
    }
}

/// What a finished scan reports.
pub open spec fn scan_result(acc: BlockScan) -> BlockInfo {
    BlockInfo {
        length: acc.length as usize,
        has_forbidden_tokens: acc.forbidden,
        has_reserved_tokens: acc.reserved,
        top_level_token_span: acc.span as usize,
    }
}

/// The scan of the block opening at `tokens[j]`: lengths accumulate over
/// every token, parenthesis nesting is tracked, the longest stretch
/// between two same-depth top-level keywords is kept, and the scan stops
/// just after the close that balances the opener.
pub open spec fn block_scan(tokens: Seq<Token>, j: int, acc: BlockScan) -> BlockInfo
    decreases tokens.len() - j,
{
    if j < 0 || j >= tokens.len() {
        scan_result(acc)
    } else {
        let t = tokens[j];
        let len2 = sat(acc.length, byte_len(t.value@));
        let a = BlockScan { length: len2, ..acc };
        match t.kind {
            TokenKind::ReservedTopLevel | TokenKind::ReservedTopLevelNoIndent => {
                let a2 = match a.start_top {
                    Some(st) => if st == a.level {
                        BlockScan {
                            span: if len2 - a.start_span > a.span {
                                len2 - a.start_span
                            } else {
                                a.span
                            },
                            start_top: Option::None,
                            ..a
                        }
                    } else {
                        a
                    },
                    Option::None => BlockScan {
                        start_top: Some(a.level),
                        start_span: len2,
                        ..a
                    },
                };
                block_scan(
                    tokens,
                    j + 1,
                    BlockScan { forbidden: a2.forbidden || forbidden_token(t), ..a2 },
                )
            },
            TokenKind::ReservedNewline => {
                block_scan(
                    tokens,
                    j + 1,
                    BlockScan {
                        reserved: true,
                        forbidden: a.forbidden || forbidden_token(t),
                        ..a
                    },
                )
            },
            TokenKind::OpenParen => {
                let a2 = BlockScan {
                    level: if a.level < i64::MAX {
                        a.level + 1
                    } else {
                        a.level
                    },
                    ..a
                };
                block_scan(
                    tokens,
                    j + 1,
                    BlockScan { forbidden: a2.forbidden || forbidden_token(t), ..a2 },
                )
            },
            TokenKind::CloseParen => {
                let a2 = BlockScan {
                    level: if a.level > i64::MIN {
                        a.level - 1
                    } else {
                        a.level
                    },
                    ..a
                };
                if a2.level == 0 {
                    scan_result(a2)
                } else {
                    block_scan(
                        tokens,
                        j + 1,
                        BlockScan { forbidden: a2.forbidden || forbidden_token(t), ..a2 },
                    )
                }
            },
            _ => {
                block_scan(
                    tokens,
                    j + 1,
                    BlockScan { forbidden: a.forbidden || forbidden_token(t), ..a },
                )
            },
        }
    }
}

/// Whether `info` qualifies for inline rendering under the limits of `ib`.
pub open spec fn inline_eligible(ib: InlineBlock, info: BlockInfo) -> bool {
    &&& !info.has_forbidden_tokens
    &&& info.length <= ib.inline_max_length
    &&& info.top_level_token_span <= ib.reserved_top_limit
    &&& (!info.has_reserved_tokens || info.length <= ib.reserved_limit)
}

/// Tracks whether formatting is currently inside an inline block.
pub struct InlineBlock {
    pub level: usize,
    pub inline_max_length: usize,
    pub reserved_limit: usize,
    pub reserved_top_limit: usize,
    pub info: Vec<BlockInfo>,
}

impl InlineBlock {
    /// A detector with the given limits: the inline-block ceiling, the
    /// argument-folding ceiling, and the top-level folding ceiling.
    pub fn new(inline_max_length: usize, reserved_limit: usize, reserved_top_limit: usize) -> (r:
        InlineBlock)
        ensures
            r.level == 0,
            r.inline_max_length == inline_max_length,
            r.reserved_limit == reserved_limit,
            r.reserved_top_limit == reserved_top_limit,
            r.info.len() == 0,
    {
        InlineBlock {
            level: 0,
            inline_max_length,
            reserved_limit,
            reserved_top_limit,
            info: Vec::new(),
        }
    }

    /// Whether a scanned block qualifies for inline rendering: nothing
    /// forbidden inside, short enough, no long top-level stretch, and
    /// newline-reserved words only under the argument ceiling.
    pub fn is_inline_block(&self, info: &BlockInfo) -> (r: bool)
        ensures
            r == (!info.has_forbidden_tokens && info.length <= self.inline_max_length
                && info.top_level_token_span <= self.reserved_top_limit
                && (!info.has_reserved_tokens || info.length <= self.reserved_limit)),
    {
        !info.has_forbidden_tokens && info.length <= self.inline_max_length
            && info.top_level_token_span <= self.reserved_top_limit
            && (!info.has_reserved_tokens || info.length <= self.reserved_limit)
    }

    /// Scans the block opening at `tokens[index]` and enters it when it is
    /// inline-eligible, or when an inline block is already open (a nested
    /// block inside an inline block is inline by construction).  Returns
    /// whether the formatter is inside an inline block afterwards.
    pub fn begin_if_possible(&mut self, tokens: &Vec<Token>, index: usize) -> (r: bool)
        requires
            index <= tokens.len(),
        ensures
            r == (final(self).level > 0),
            final(self).inline_max_length == old(self).inline_max_length,
            final(self).reserved_limit == old(self).reserved_limit,
            final(self).reserved_top_limit == old(self).reserved_top_limit,
            old(self).level > 0 ==> final(self).level == if old(self).level < usize::MAX {
                old(self).level + 1
            } else {
                old(self).level as int
            },
            old(self).level == 0 ==> final(self).level == if inline_eligible(
                *old(self),
                block_scan(tokens@, index as int, scan_start()),
            ) {
                1int
            } else {
                0
            },
            final(self).level > 0 ==> final(self).info@ == old(self).info@.push(
                block_scan(tokens@, index as int, scan_start()),
            ),
            final(self).level == 0 ==> final(self).info@ == old(self).info@,
    {
        let info = self.build_info(tokens, index);
        if self.level == 0 && self.is_inline_block(&info) {
            self.level = 1;
        } else if self.level > 0 {
            if self.level < usize::MAX {
                self.level = self.level + 1;
            }
        } else {
            self.level = 0;
        }
        if self.level > 0 {
            self.info.push(info);
            return true;
        }
        false
    }

    /// Leaves the innermost inline block; outside any block it does
    /// nothing rather than fail.  The limits never change.
    pub fn end(&mut self)
        ensures
            final(self).level == if old(self).level > 0 {
                old(self).level - 1
            } else {
                0int
            },
            final(self).inline_max_length == old(self).inline_max_length,
            final(self).reserved_limit == old(self).reserved_limit,
            final(self).reserved_top_limit == old(self).reserved_top_limit,
            old(self).info.len() > 0 ==> final(self).info@ == old(self).info@.drop_last(),
            old(self).info.len() == 0 ==> final(self).info@ == old(self).info@,
    {
        if self.info.len() > 0 {
            self.info.pop();
        }
        if self.level > 0 {
            self.level = self.level - 1;
        }
    }

    /// Whether formatting is inside an inline block.
    pub fn is_active(&self) -> (r: bool)
        ensures
            r == (self.level > 0),
    {
        self.level > 0
    }

    /// The scanned length of the innermost inline block, or zero.
    pub fn cur_len(&self) -> (r: usize)
        ensures
            r == if self.info.len() > 0 {
                self.info@.last().length as int
            } else {
                0
            },
    {
        let n = self.info.len();
        if n > 0 {
            self.info[n - 1].length
        } else {
            0
        }
    }

    /// Scans forward from the opening token to its matching close,
    /// collecting the block's length and composition.
    fn build_info(&self, tokens: &Vec<Token>, index: usize) -> (r: BlockInfo)
        requires
            index <= tokens.len(),
        ensures
            r == block_scan(tokens@, index as int, scan_start()),
    {
        let mut length: usize = 0;
        let mut level: i64 = 0;
        let mut top_level_token_span: usize = 0;
        let mut start_top_level: Option<i64> = None;
        let mut start_span: usize = 0;
        let mut has_forbidden_tokens = false;
        let mut has_reserved_tokens = false;
        let mut j = index;
        while j < tokens.len()
            invariant
                index <= j <= tokens.len(),
                start_span <= length,
                top_level_token_span <= length,
                block_scan(tokens@, index as int, scan_start()) == block_scan(
                    tokens@,
                    j as int,
                    BlockScan {
                        length: length as int,
                        level: level as int,
                        span: top_level_token_span as int,
                        start_top: match start_top_level {
                            Some(st) => Some(st as int),
                            None => Option::None,
                        },
                        start_span: start_span as int,
                        forbidden: has_forbidden_tokens,
                        reserved: has_reserved_tokens,
                    },
                ),
            decreases tokens.len() - j,
        {
            let ghost acc_entry = BlockScan {
                length: length as int,
                level: level as int,
                span: top_level_token_span as int,
                start_top: match start_top_level {
                    Some(st) => Some(st as int),
                    None => Option::None,
                },
                start_span: start_span as int,
                forbidden: has_forbidden_tokens,
                reserved: has_reserved_tokens,
            };
            let token = &tokens[j];
            length = sat_add(length, token_byte_len(token));
            match token.kind {
                TokenKind::ReservedTopLevel | TokenKind::ReservedTopLevelNoIndent => {
                    match start_top_level {
                        Some(st) => {
                            if st == level {
                                if length - start_span > top_level_token_span {
                                    top_level_token_span = length - start_span;
                                }
                                start_top_level = None;
                            }
                        },
                        None => {
                            start_top_level = Some(level);
                            start_span = length;
                        },
                    }
                },
                TokenKind::ReservedNewline => {
                    has_reserved_tokens = true;
                },
                TokenKind::OpenParen => {
                    if level < i64::MAX {
                        level = level + 1;
                    }
                },
                TokenKind::CloseParen => {
                    if level > i64::MIN {
                        level = level - 1;
                    }
                    if level == 0 {
                        proof {
                            assert(block_scan(tokens@, j as int, acc_entry) == scan_result(
                                BlockScan {
                                    length: length as int,
                                    level: level as int,
                                    span: top_level_token_span as int,
                                    start_top: match start_top_level {
                                        Some(st) => Some(st as int),
                                        None => Option::None,
                                    },
                                    start_span: start_span as int,
                                    forbidden: has_forbidden_tokens,
                                    reserved: has_reserved_tokens,
                                },
                            ));
                        }
                        return BlockInfo {
                            length,
                            has_forbidden_tokens,
                            has_reserved_tokens,
                            top_level_token_span,
                        };
                    }
                },
                _ => {},
            }
            if is_forbidden_token(token) {
                has_forbidden_tokens = true;
            }
            proof {
                assert(block_scan(tokens@, j as int, acc_entry) == block_scan(
                    tokens@,
                    j as int + 1,
                    BlockScan {
                        length: length as int,
                        level: level as int,
                        span: top_level_token_span as int,
                        start_top: match start_top_level {
                            Some(st) => Some(st as int),
                            None => Option::None,
                        },
                        start_span: start_span as int,
                        forbidden: has_forbidden_tokens,
                        reserved: has_reserved_tokens,
                    },
                ));
            }
            j = j + 1;
        }
        BlockInfo { length, has_forbidden_tokens, has_reserved_tokens, top_level_token_span }
    }
}

/// Comments and statement separators disqualify a block from inlining.
fn is_forbidden_token(token: &Token) -> (r: bool)
    ensures
        r == (token.kind is LineComment || token.kind is BlockComment || token.value@ =~= seq![';']),
{
    matches!(token.kind, TokenKind::LineComment) || matches!(token.kind, TokenKind::BlockComment)
        || crate::tokenizer::is_single_char(&token.value, ';')
}

} // verus!
