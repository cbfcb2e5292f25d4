//! Errors of the tokenizer, the diagnostics that report them, and the scan
//! of nested block comments `(* ... *)`.

use vstd::prelude::*;
use crate::diagnostics::Diagnostic;
use crate::protocol::{Position, Range};
use crate::text::{byte_len, byte_offset, char_width_exec, lemma_byte_offset_step, text_chars};
use crate::utils::{byte_position, byte_to_pos, rope_from_str};

verus! {

/// Why the tokenizer could not read a token.
#[derive(Debug, Clone, Copy, PartialEq, Eq, Structural)]
pub enum LexerError {
    /// Text that starts no token.
    Invalid,
    /// A block comment that is never closed.
    UnclosedComment,
}

impl Default for LexerError {
    fn default() -> (r: Self)
        ensures
            r == LexerError::Invalid,
    {
        LexerError::Invalid
    }
}

/// The message of each lexer error.
pub open spec fn lexer_error_message(e: LexerError) -> Seq<char> {
    match e {
        LexerError::Invalid => "Invalid token"@,
        LexerError::UnclosedComment => "Unclosed block comment"@,
    }
}

/// The position of a byte within the text (where there is one).
pub open spec fn position_in(t: Seq<char>, b: int) -> Position {
    match byte_position(t, b) {
        Some(p) => p,
        None => Position::zero(),
    }
}

impl LexerError {
    /// The diagnostic for this error at the byte range `span` of `source`:
    /// its message over that range, with no severity or source set.
    pub fn into_diags(self, span: core::ops::Range<usize>, source: &str) -> (d: Diagnostic)
        requires
            span.start <= byte_len(source@),
            span.end <= byte_len(source@),
        ensures
            d.range == (Range {
                start: position_in(source@, span.start as int),
                end: position_in(source@, span.end as int),
            }),
            byte_position(source@, span.start as int) is Some,
            byte_position(source@, span.end as int) is Some,
            d.severity.is_none(),
            d.source.is_none(),
            d.message@ == lexer_error_message(self),
    {
        let rope = rope_from_str(source);
        let msg = match self {
            LexerError::Invalid => String::from_str("Invalid token"),
            LexerError::UnclosedComment => String::from_str("Unclosed block comment"),
        };
        let start = match byte_to_pos(&rope, span.start) {
            Some(p) => p,
            None => Position::new(0, 0),
        };
        let end = match byte_to_pos(&rope, span.end) {
            Some(p) => p,
            None => Position::new(0, 0),
        };
        Diagnostic { range: Range::new(start, end), severity: None, source: None, message: msg }
    }
}

/// Scanning a block comment's remainder `t` from char `i` at nesting depth
/// `depth`: the char index just after the `*)` that closes the outermost
/// comment, or `None` where the text ends first. `(*` opens a nested
/// comment and `*)` closes one; each pair is taken as a whole.
pub open spec fn comment_close(t: Seq<char>, i: int, depth: nat) -> Option<int>
    decreases t.len() - i,
{
    if i < 0 || i >= t.len() {
        None
    } else if t[i] == '*' && i + 1 < t.len() && t[i + 1] == ')' {
        if depth <= 1 {
            Some(i + 2)
        } else {
            comment_close(t, i + 2, (depth - 1) as nat)
        }
    } else if t[i] == '(' && i + 1 < t.len() && t[i + 1] == '*' {
        comment_close(t, i + 2, depth + 1)
    } else {
        comment_close(t, i + 1, depth)
    }
}

/// Where a comment closes, it closes just after a `*)` past where the scan
/// began; where no `*)` follows, it never closes; and a `*)` right at the
/// start closes an unnested comment there.
pub proof fn law_comment_close(t: Seq<char>, i: int, depth: nat)
    requires
        0 <= i,
        depth >= 1,
    ensures
        comment_close(t, i, depth) matches Some(e) ==> i + 2 <= e <= t.len() && t[e - 2] == '*' && t[e
            - 1] == ')',
        (forall|j: int| i <= j && j + 1 < t.len() ==> !(#[trigger] t[j] == '*' && t[j + 1] == ')'))
            ==> comment_close(t, i, depth) is None,
        depth == 1 && i + 2 <= t.len() && t[i] == '*' && t[i + 1] == ')' ==> comment_close(t, i, depth)
            == Some(i + 2),
    decreases t.len() - i,
{
    if i < t.len() {
        if t[i] == '*' && i + 1 < t.len() && t[i + 1] == ')' {
            if depth > 1 {
                law_comment_close(t, i + 2, (depth - 1) as nat);
            }
        } else if t[i] == '(' && i + 1 < t.len() && t[i + 1] == '*' {
            law_comment_close(t, i + 2, depth + 1);
        } else {
            law_comment_close(t, i + 1, depth);
        }
    }
}

/// Scans the rest of a block comment after its opening `(*`: returns how
/// many bytes the comment still takes, and whether it was closed. A closed
/// comment ends just after the `*)` that matches the opening one; an
/// unclosed one takes all the rest and is an error.
pub fn lex_block_comment(remainder: &str) -> (r: (usize, Result<(), LexerError>))
    ensures
        match comment_close(remainder@, 0, 1) {
            Some(j) => r == (byte_offset(remainder@, j) as usize, Ok::<(), LexerError>(())),
            None => r == (byte_len(remainder@) as usize, Err::<(), LexerError>(LexerError::UnclosedComment)),
        },
{
    let cs = text_chars(remainder);
    let n = cs.len();
    let ghost t = remainder@;
    let total = crate::text::str_byte_len(remainder);
    let mut i: usize = 0;
    let mut depth: usize = 1;
    let mut b: usize = 0;
    proof {
        crate::text::lemma_byte_offset_monotone(t, 0, t.len() as int);
        assert(t.take(t.len() as int) =~= t);
    }
    while i < n
        invariant
            t == remainder@,
            cs@ == t,
            n == t.len(),
            total == byte_len(t),
            i <= n,
            1 <= depth <= i + 1,
            b == byte_offset(t, i as int),
            b <= total,
            comment_close(t, 0, 1) == comment_close(t, i as int, depth as nat),
        decreases n - i,
    {
        proof {
            lemma_byte_offset_step(t, i as int);
            crate::text::lemma_byte_offset_monotone(t, i + 1, t.len() as int);
        }
        let c = cs[i];
        let w = char_width_exec(c);
        if c == '*' && i + 1 < n && cs[i + 1] == ')' {
            proof {
                lemma_byte_offset_step(t, i + 1);
                crate::text::lemma_byte_offset_monotone(t, i + 2, t.len() as int);
            }
            let w2 = char_width_exec(cs[i + 1]);
            if depth == 1 {
                return (b + w + w2, Ok(()));
            }
            depth = depth - 1;
            b = b + w + w2;
            i = i + 2;
        } else if c == '(' && i + 1 < n && cs[i + 1] == '*' {
            proof {
                lemma_byte_offset_step(t, i + 1);
                crate::text::lemma_byte_offset_monotone(t, i + 2, t.len() as int);
            }
            let w2 = char_width_exec(cs[i + 1]);
            depth = depth + 1;
            b = b + w + w2;
            i = i + 2;
        } else {
            b = b + w;
            i = i + 1;
        }
    }
    (total, Err(LexerError::UnclosedComment))
}

} // verus!
