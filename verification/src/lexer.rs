//! The DSRV token grammar and the tokenizer built on it.
//!
//! Tokens are found by longest match: at each position the longest prefix of
//! the rest of the text that is a token is taken, and a keyword wins over an
//! identifier of the same spelling. Whitespace and line comments are skipped;
//! text that starts no token becomes an `Error` token.

use vstd::prelude::*;
use crate::text::{byte_len, byte_offset, char_width_exec, lemma_byte_offset_monotone, lemma_byte_offset_step, str_byte_len, substring, text_chars};
use crate::unicode::{is_decimal_digit, is_decimal_digit_exec, is_unicode_whitespace, is_unicode_whitespace_exec};

verus! {

/// The kinds of token of the DSRV language.
#[derive(Debug, Clone, Copy, PartialEq, Eq, PartialOrd, Ord, Hash, Structural)]
pub enum Token {
    LineComment,
    True,
    False,
    If,
    Then,
    Else,
    In,
    Out,
    Aux,
    Var,
    Dynamic,
    Defer,
    Eval,
    Update,
    Default,
    IsDefined,
    When,
    Latch,
    Init,
    MonitoredAt,
    Dist,
    Int,
    Float,
    Bool,
    Str,
    Unit,
    List,
    MapKeyword,
    AndAnd,
    OrOr,
    Impl,
    EqEq,
    Le,
    Ge,
    Lt,
    Gt,
    Concat,
    Eq,
    Plus,
    Minus,
    Star,
    Slash,
    Percent,
    Bang,
    LParen,
    RParen,
    LBracket,
    RBracket,
    LBrace,
    RBrace,
    Colon,
    Comma,
    Dot,
    Sin,
    Cos,
    Tan,
    Abs,
    Identifier,
    StringLiteral,
    FloatLiteral,
    IntLiteral,
    Whitespace,
    Error,
}

/// A token of a source text: its kind, its text and its byte range.
#[derive(Debug, PartialEq)]
pub struct TokenData {
    pub token: Token,
    pub content: String,
    pub span: core::ops::Range<usize>,
}

impl Clone for TokenData {
    fn clone(&self) -> (r: Self)
        ensures
            r == *self,
    {
        TokenData {
            token: self.token,
            content: self.content.clone(),
            span: self.span.start..self.span.end,
        }
    }
}

/// Classes of chars that a token may repeat.
pub enum CharClass {
    /// `[a-zA-Z0-9_]`
    IdentContinue,
    /// Unicode decimal digits (`\d`).
    Digit,
    /// Unicode white space (`\s`).
    Space,
    /// Any char but `\n` and `\r`.
    NotLineEnd,
}

/// `[a-zA-Z_]`
pub open spec fn is_ident_start(c: char) -> bool {
    ('a' <= c && c <= 'z') || ('A' <= c && c <= 'Z') || c == '_'
}

/// `[a-zA-Z0-9_]`
pub open spec fn is_ident_continue(c: char) -> bool {
    is_ident_start(c) || ('0' <= c && c <= '9')
}

/// Whether `c` is of class `cls`.
pub open spec fn in_class(cls: CharClass, c: char) -> bool {
    match cls {
        CharClass::IdentContinue => is_ident_continue(c),
        CharClass::Digit => is_decimal_digit(c),
        CharClass::Space => is_unicode_whitespace(c),
        CharClass::NotLineEnd => c != '\n' && c != '\r',
    }
}

/// Length of the longest run of chars of class `cls` starting at `p`.
pub open spec fn run_len(t: Seq<char>, p: int, cls: CharClass) -> nat
    decreases t.len() - p,
{
    if 0 <= p < t.len() && in_class(cls, t[p]) {
        1 + run_len(t, p + 1, cls)
    } else {
        0
    }
}

/// Scans the body of a string literal from `q`, just after its opening quote.
/// Returns whether the literal is closed, and the index just after the
/// closing quote, or else the end of the longest part that could still begin
/// a string literal.
pub open spec fn string_scan(t: Seq<char>, q: int) -> (bool, int)
    decreases t.len() - q,
{
    if q < 0 || q >= t.len() {
        (false, t.len() as int)
    } else if t[q] == '"' {
        (true, q + 1)
    } else if t[q] == '\\' {
        if q + 1 < t.len() && t[q + 1] != '\n' {
            string_scan(t, q + 2)
        } else {
            (false, q + 1)
        }
    } else {
        string_scan(t, q + 1)
    }
}

/// The operator or punctuation token at `p`, with its length, if any.
pub open spec fn symbol_at(t: Seq<char>, p: int) -> Option<(Token, nat)> {
    let len = t.len();
    let c = t[p];
    let two = p + 1 < len;
    let d = if two { t[p + 1] } else { ' ' };
    if two && c == '&' && d == '&' {
        Some((Token::AndAnd, 2))
    } else if two && c == '|' && d == '|' {
        Some((Token::OrOr, 2))
    } else if two && c == '=' && d == '>' {
        Some((Token::Impl, 2))
    } else if two && c == '=' && d == '=' {
        Some((Token::EqEq, 2))
    } else if two && c == '<' && d == '=' {
        Some((Token::Le, 2))
    } else if two && c == '>' && d == '=' {
        Some((Token::Ge, 2))
    } else if two && c == '+' && d == '+' {
        Some((Token::Concat, 2))
    } else if c == '<' {
        Some((Token::Lt, 1))
    } else if c == '>' {
        Some((Token::Gt, 1))
    } else if c == '=' {
        Some((Token::Eq, 1))
    } else if c == '+' {
        Some((Token::Plus, 1))
    } else if c == '-' {
        Some((Token::Minus, 1))
    } else if c == '*' {
        Some((Token::Star, 1))
    } else if c == '/' {
        Some((Token::Slash, 1))
    } else if c == '%' {
        Some((Token::Percent, 1))
    } else if c == '!' {
        Some((Token::Bang, 1))
    } else if c == '(' {
        Some((Token::LParen, 1))
    } else if c == ')' {
        Some((Token::RParen, 1))
    } else if c == '[' {
        Some((Token::LBracket, 1))
    } else if c == ']' {
        Some((Token::RBracket, 1))
    } else if c == '{' {
        Some((Token::LBrace, 1))
    } else if c == '}' {
        Some((Token::RBrace, 1))
    } else if c == ':' {
        Some((Token::Colon, 1))
    } else if c == ',' {
        Some((Token::Comma, 1))
    } else if c == '.' {
        Some((Token::Dot, 1))
    } else {
        None
    }
}

/// The token that starts at `p` (with `0 <= p < t.len()`) and its length in chars.
pub open spec fn next_token(t: Seq<char>, p: int) -> (Token, nat) {
    let c = t[p];
    if is_ident_start(c) {
        let n = 1 + run_len(t, p + 1, CharClass::IdentContinue);
        match keyword_token(t.subrange(p, p + n)) {
            Some(k) => (k, n),
            None => (Token::Identifier, n),
        }
    } else if is_decimal_digit(c) {
        let d = run_len(t, p, CharClass::Digit);
        let f = run_len(t, p + d + 1, CharClass::Digit);
        if p + d < t.len() && t[p + d] == '.' && f > 0 {
            (Token::FloatLiteral, d + 1 + f)
        } else {
            (Token::IntLiteral, d)
        }
    } else if is_unicode_whitespace(c) {
        (Token::Whitespace, run_len(t, p, CharClass::Space))
    } else if c == '"' {
        let (closed, e) = string_scan(t, p + 1);
        if closed {
            (Token::StringLiteral, (e - p) as nat)
        } else {
            (Token::Error, (e - p) as nat)
        }
    } else if c == '/' && p + 1 < t.len() && t[p + 1] == '/' {
        (Token::LineComment, 2 + run_len(t, p + 2, CharClass::NotLineEnd))
    } else {
        match symbol_at(t, p) {
            Some((k, n)) => (k, n),
            None => (Token::Error, 1),
        }
    }
}

/// Tokens that the tokenizer reports (all but whitespace and comments).
pub open spec fn is_reported(k: Token) -> bool {
    k != Token::Whitespace && k != Token::LineComment
}

/// The string scan ends after its start and within the text.
pub proof fn lemma_string_scan_bounds(t: Seq<char>, q: int)
    requires
        0 <= q,
    ensures
        q <= string_scan(t, q).1 <= t.len() || (q > t.len() && string_scan(t, q).1 == t.len()),
        string_scan(t, q).1 <= t.len(),
    decreases t.len() - q,
{
    if q < t.len() && t[q] != '"' {
        if t[q] == '\\' {
            if q + 1 < t.len() && t[q + 1] != '\n' {
                lemma_string_scan_bounds(t, q + 2);
            }
        } else {
            lemma_string_scan_bounds(t, q + 1);
        }
    }
}

/// A run never leaves the text.
pub proof fn lemma_run_len_bounds(t: Seq<char>, p: int, cls: CharClass)
    requires
        0 <= p <= t.len(),
    ensures
        p + run_len(t, p, cls) <= t.len(),
    decreases t.len() - p,
{
    if p < t.len() && in_class(cls, t[p]) {
        lemma_run_len_bounds(t, p + 1, cls);
    }
}

/// The next token is at least one char long and ends within the text.
pub proof fn lemma_next_token_bounds(t: Seq<char>, p: int)
    requires
        0 <= p < t.len(),
    ensures
        1 <= next_token(t, p).1,
        p + next_token(t, p).1 <= t.len(),
{
    lemma_run_len_bounds(t, p + 1, CharClass::IdentContinue);
    lemma_run_len_bounds(t, p, CharClass::Digit);
    lemma_run_len_bounds(t, p, CharClass::Space);
    lemma_string_scan_bounds(t, p + 1);
    if p + 2 <= t.len() {
        lemma_run_len_bounds(t, p + 2, CharClass::NotLineEnd);
    }
    let d = run_len(t, p, CharClass::Digit);
    if is_decimal_digit(t[p]) && p + d < t.len() {
        lemma_run_len_bounds(t, p + d + 1, CharClass::Digit);
    }
}

/// The reported tokens of `t` from char index `p` on, as (kind, start, end)
/// in char indices.
pub open spec fn lex_from(t: Seq<char>, p: int) -> Seq<(Token, int, int)>
    decreases t.len() - p,
{
    if p < 0 || p >= t.len() {
        Seq::empty()
    } else {
        proof {
            lemma_next_token_bounds(t, p);
        }
        let (k, n) = next_token(t, p);
        let rest = lex_from(t, p + n);
        if is_reported(k) {
            seq![(k, p, p + n)] + rest
        } else {
            rest
        }
    }
}

/// The reported tokens of `t`.
pub open spec fn lex(t: Seq<char>) -> Seq<(Token, int, int)> {
    lex_from(t, 0)
}

/// `d` is the token `tok` of the text `t`: same kind, the chars of its range,
/// and its range converted to byte offsets.
pub open spec fn token_data_of(d: TokenData, t: Seq<char>, tok: (Token, int, int)) -> bool {
    &&& d.token == tok.0
    &&& d.content@ == t.subrange(tok.1, tok.2)
    &&& d.span.start == byte_offset(t, tok.1)
    &&& d.span.end == byte_offset(t, tok.2)
}

/// The keyword token spelled by `w`, if `w` is a keyword.
pub open spec fn keyword_token(w: Seq<char>) -> Option<Token> {
    if w.len() == 4 && w[0] == 't' && w[1] == 'r' && w[2] == 'u' && w[3] == 'e' {
        Some(Token::True)
    } else if w.len() == 5 && w[0] == 'f' && w[1] == 'a' && w[2] == 'l' && w[3] == 's' && w[4] == 'e' {
        Some(Token::False)
    } else if w.len() == 2 && w[0] == 'i' && w[1] == 'f' {
        Some(Token::If)
    } else if w.len() == 4 && w[0] == 't' && w[1] == 'h' && w[2] == 'e' && w[3] == 'n' {
        Some(Token::Then)
    } else if w.len() == 4 && w[0] == 'e' && w[1] == 'l' && w[2] == 's' && w[3] == 'e' {
        Some(Token::Else)
    } else if w.len() == 2 && w[0] == 'i' && w[1] == 'n' {
        Some(Token::In)
    } else if w.len() == 3 && w[0] == 'o' && w[1] == 'u' && w[2] == 't' {
        Some(Token::Out)
    } else if w.len() == 3 && w[0] == 'a' && w[1] == 'u' && w[2] == 'x' {
        Some(Token::Aux)
    } else if w.len() == 3 && w[0] == 'v' && w[1] == 'a' && w[2] == 'r' {
        Some(Token::Var)
    } else if w.len() == 7 && w[0] == 'd' && w[1] == 'y' && w[2] == 'n' && w[3] == 'a' && w[4] == 'm' && w[5] == 'i' && w[6] == 'c' {
        Some(Token::Dynamic)
    } else if w.len() == 5 && w[0] == 'd' && w[1] == 'e' && w[2] == 'f' && w[3] == 'e' && w[4] == 'r' {
        Some(Token::Defer)
    } else if w.len() == 4 && w[0] == 'e' && w[1] == 'v' && w[2] == 'a' && w[3] == 'l' {
        Some(Token::Eval)
    } else if w.len() == 6 && w[0] == 'u' && w[1] == 'p' && w[2] == 'd' && w[3] == 'a' && w[4] == 't' && w[5] == 'e' {
        Some(Token::Update)
    } else if w.len() == 7 && w[0] == 'd' && w[1] == 'e' && w[2] == 'f' && w[3] == 'a' && w[4] == 'u' && w[5] == 'l' && w[6] == 't' {
        Some(Token::Default)
    } else if w.len() == 10 && w[0] == 'i' && w[1] == 's' && w[2] == '_' && w[3] == 'd' && w[4] == 'e' && w[5] == 'f' && w[6] == 'i' && w[7] == 'n' && w[8] == 'e' && w[9] == 'd' {
        Some(Token::IsDefined)
    } else if w.len() == 4 && w[0] == 'w' && w[1] == 'h' && w[2] == 'e' && w[3] == 'n' {
        Some(Token::When)
    } else if w.len() == 5 && w[0] == 'l' && w[1] == 'a' && w[2] == 't' && w[3] == 'c' && w[4] == 'h' {
        Some(Token::Latch)
    } else if w.len() == 4 && w[0] == 'i' && w[1] == 'n' && w[2] == 'i' && w[3] == 't' {
        Some(Token::Init)
    } else if w.len() == 12 && w[0] == 'm' && w[1] == 'o' && w[2] == 'n' && w[3] == 'i' && w[4] == 't' && w[5] == 'o' && w[6] == 'r' && w[7] == 'e' && w[8] == 'd' && w[9] == '_' && w[10] == 'a' && w[11] == 't' {
        Some(Token::MonitoredAt)
    } else if w.len() == 4 && w[0] == 'd' && w[1] == 'i' && w[2] == 's' && w[3] == 't' {
        Some(Token::Dist)
    } else if w.len() == 3 && w[0] == 'I' && w[1] == 'n' && w[2] == 't' {
        Some(Token::Int)
    } else if w.len() == 5 && w[0] == 'F' && w[1] == 'l' && w[2] == 'o' && w[3] == 'a' && w[4] == 't' {
        Some(Token::Float)
    } else if w.len() == 4 && w[0] == 'B' && w[1] == 'o' && w[2] == 'o' && w[3] == 'l' {
        Some(Token::Bool)
    } else if w.len() == 3 && w[0] == 'S' && w[1] == 't' && w[2] == 'r' {
        Some(Token::Str)
    } else if w.len() == 4 && w[0] == 'U' && w[1] == 'n' && w[2] == 'i' && w[3] == 't' {
        Some(Token::Unit)
    } else if w.len() == 4 && w[0] == 'L' && w[1] == 'i' && w[2] == 's' && w[3] == 't' {
        Some(Token::List)
    } else if w.len() == 3 && w[0] == 'M' && w[1] == 'a' && w[2] == 'p' {
        Some(Token::MapKeyword)
    } else if w.len() == 3 && w[0] == 's' && w[1] == 'i' && w[2] == 'n' {
        Some(Token::Sin)
    } else if w.len() == 3 && w[0] == 'c' && w[1] == 'o' && w[2] == 's' {
        Some(Token::Cos)
    } else if w.len() == 3 && w[0] == 't' && w[1] == 'a' && w[2] == 'n' {
        Some(Token::Tan)
    } else if w.len() == 3 && w[0] == 'a' && w[1] == 'b' && w[2] == 's' {
        Some(Token::Abs)
    } else {
        None
    }
}

/// The keyword spelled by the chars `s..e` of `t`, if any.
fn keyword_exec(t: &Vec<char>, s: usize, e: usize) -> (r: Option<Token>)
    requires
        s <= e <= t@.len(),
    ensures
        r == keyword_token(t@.subrange(s as int, e as int)),
{
    let n = e - s;
    let ghost w = t@.subrange(s as int, e as int);
    assert(forall|k: int| 0 <= k < n ==> w[k] == t@[s + k]);
    if n == 4 && t[s + 0] == 't' && t[s + 1] == 'r' && t[s + 2] == 'u' && t[s + 3] == 'e' {
        Some(Token::True)
    } else if n == 5 && t[s + 0] == 'f' && t[s + 1] == 'a' && t[s + 2] == 'l' && t[s + 3] == 's' && t[s + 4] == 'e' {
        Some(Token::False)
    } else if n == 2 && t[s + 0] == 'i' && t[s + 1] == 'f' {
        Some(Token::If)
    } else if n == 4 && t[s + 0] == 't' && t[s + 1] == 'h' && t[s + 2] == 'e' && t[s + 3] == 'n' {
        Some(Token::Then)
    } else if n == 4 && t[s + 0] == 'e' && t[s + 1] == 'l' && t[s + 2] == 's' && t[s + 3] == 'e' {
        Some(Token::Else)
    } else if n == 2 && t[s + 0] == 'i' && t[s + 1] == 'n' {
        Some(Token::In)
    } else if n == 3 && t[s + 0] == 'o' && t[s + 1] == 'u' && t[s + 2] == 't' {
        Some(Token::Out)
    } else if n == 3 && t[s + 0] == 'a' && t[s + 1] == 'u' && t[s + 2] == 'x' {
        Some(Token::Aux)
    } else if n == 3 && t[s + 0] == 'v' && t[s + 1] == 'a' && t[s + 2] == 'r' {
        Some(Token::Var)
    } else if n == 7 && t[s + 0] == 'd' && t[s + 1] == 'y' && t[s + 2] == 'n' && t[s + 3] == 'a' && t[s + 4] == 'm' && t[s + 5] == 'i' && t[s + 6] == 'c' {
        Some(Token::Dynamic)
    } else if n == 5 && t[s + 0] == 'd' && t[s + 1] == 'e' && t[s + 2] == 'f' && t[s + 3] == 'e' && t[s + 4] == 'r' {
        Some(Token::Defer)
    } else if n == 4 && t[s + 0] == 'e' && t[s + 1] == 'v' && t[s + 2] == 'a' && t[s + 3] == 'l' {
        Some(Token::Eval)
    } else if n == 6 && t[s + 0] == 'u' && t[s + 1] == 'p' && t[s + 2] == 'd' && t[s + 3] == 'a' && t[s + 4] == 't' && t[s + 5] == 'e' {
        Some(Token::Update)
    } else if n == 7 && t[s + 0] == 'd' && t[s + 1] == 'e' && t[s + 2] == 'f' && t[s + 3] == 'a' && t[s + 4] == 'u' && t[s + 5] == 'l' && t[s + 6] == 't' {
        Some(Token::Default)
    } else if n == 10 && t[s + 0] == 'i' && t[s + 1] == 's' && t[s + 2] == '_' && t[s + 3] == 'd' && t[s + 4] == 'e' && t[s + 5] == 'f' && t[s + 6] == 'i' && t[s + 7] == 'n' && t[s + 8] == 'e' && t[s + 9] == 'd' {
        Some(Token::IsDefined)
    } else if n == 4 && t[s + 0] == 'w' && t[s + 1] == 'h' && t[s + 2] == 'e' && t[s + 3] == 'n' {
        Some(Token::When)
    } else if n == 5 && t[s + 0] == 'l' && t[s + 1] == 'a' && t[s + 2] == 't' && t[s + 3] == 'c' && t[s + 4] == 'h' {
        Some(Token::Latch)
    } else if n == 4 && t[s + 0] == 'i' && t[s + 1] == 'n' && t[s + 2] == 'i' && t[s + 3] == 't' {
        Some(Token::Init)
    } else if n == 12 && t[s + 0] == 'm' && t[s + 1] == 'o' && t[s + 2] == 'n' && t[s + 3] == 'i' && t[s + 4] == 't' && t[s + 5] == 'o' && t[s + 6] == 'r' && t[s + 7] == 'e' && t[s + 8] == 'd' && t[s + 9] == '_' && t[s + 10] == 'a' && t[s + 11] == 't' {
        Some(Token::MonitoredAt)
    } else if n == 4 && t[s + 0] == 'd' && t[s + 1] == 'i' && t[s + 2] == 's' && t[s + 3] == 't' {
        Some(Token::Dist)
    } else if n == 3 && t[s + 0] == 'I' && t[s + 1] == 'n' && t[s + 2] == 't' {
        Some(Token::Int)
    } else if n == 5 && t[s + 0] == 'F' && t[s + 1] == 'l' && t[s + 2] == 'o' && t[s + 3] == 'a' && t[s + 4] == 't' {
        Some(Token::Float)
    } else if n == 4 && t[s + 0] == 'B' && t[s + 1] == 'o' && t[s + 2] == 'o' && t[s + 3] == 'l' {
        Some(Token::Bool)
    } else if n == 3 && t[s + 0] == 'S' && t[s + 1] == 't' && t[s + 2] == 'r' {
        Some(Token::Str)
    } else if n == 4 && t[s + 0] == 'U' && t[s + 1] == 'n' && t[s + 2] == 'i' && t[s + 3] == 't' {
        Some(Token::Unit)
    } else if n == 4 && t[s + 0] == 'L' && t[s + 1] == 'i' && t[s + 2] == 's' && t[s + 3] == 't' {
        Some(Token::List)
    } else if n == 3 && t[s + 0] == 'M' && t[s + 1] == 'a' && t[s + 2] == 'p' {
        Some(Token::MapKeyword)
    } else if n == 3 && t[s + 0] == 's' && t[s + 1] == 'i' && t[s + 2] == 'n' {
        Some(Token::Sin)
    } else if n == 3 && t[s + 0] == 'c' && t[s + 1] == 'o' && t[s + 2] == 's' {
        Some(Token::Cos)
    } else if n == 3 && t[s + 0] == 't' && t[s + 1] == 'a' && t[s + 2] == 'n' {
        Some(Token::Tan)
    } else if n == 3 && t[s + 0] == 'a' && t[s + 1] == 'b' && t[s + 2] == 's' {
        Some(Token::Abs)
    } else {
        None
    }
}

fn in_class_exec(cls: &CharClass, c: char) -> (r: bool)
    ensures
        r == in_class(*cls, c),
{
    match cls {
        CharClass::IdentContinue => ('a' <= c && c <= 'z') || ('A' <= c && c <= 'Z') || c == '_'
            || ('0' <= c && c <= '9'),
        CharClass::Digit => is_decimal_digit_exec(c),
        CharClass::Space => is_unicode_whitespace_exec(c),
        CharClass::NotLineEnd => c != '\n' && c != '\r',
    }
}

fn run_len_exec(t: &Vec<char>, p: usize, cls: CharClass) -> (r: usize)
    requires
        p <= t@.len(),
    ensures
        r == run_len(t@, p as int, cls),
        p + r <= t@.len(),
{
    let mut i = p;
    while i < t.len() && in_class_exec(&cls, t[i])
        invariant
            p <= i <= t@.len(),
            run_len(t@, p as int, cls) == (i - p) + run_len(t@, i as int, cls),
        decreases t@.len() - i,
    {
        i = i + 1;
    }
    i - p
}

fn string_scan_exec(t: &Vec<char>, q: usize) -> (r: (bool, usize))
    requires
        q <= t@.len(),
    ensures
        r.0 == string_scan(t@, q as int).0,
        r.1 == string_scan(t@, q as int).1,
{
    let mut i = q;
    while i < t.len()
        invariant
            q <= i <= t@.len(),
            string_scan(t@, q as int) == string_scan(t@, i as int),
        decreases t@.len() - i,
    {
        if t[i] == '"' {
            return (true, i + 1);
        } else if t[i] == '\\' {
            if i + 1 < t.len() && t[i + 1] != '\n' {
                i = i + 2;
            } else {
                return (false, i + 1);
            }
        } else {
            i = i + 1;
        }
    }
    (false, t.len())
}

fn symbol_exec(t: &Vec<char>, p: usize) -> (r: Option<(Token, usize)>)
    requires
        p < t@.len(),
    ensures
        match symbol_at(t@, p as int) {
            Some((k, n)) => r == Some((k, n as usize)),
            None => r.is_none(),
        },
{
    let len = t.len();
    let c = t[p];
    let two = p + 1 < len;
    let d = if two { t[p + 1] } else { ' ' };
    if two && c == '&' && d == '&' {
        Some((Token::AndAnd, 2))
    } else if two && c == '|' && d == '|' {
        Some((Token::OrOr, 2))
    } else if two && c == '=' && d == '>' {
        Some((Token::Impl, 2))
    } else if two && c == '=' && d == '=' {
        Some((Token::EqEq, 2))
    } else if two && c == '<' && d == '=' {
        Some((Token::Le, 2))
    } else if two && c == '>' && d == '=' {
        Some((Token::Ge, 2))
    } else if two && c == '+' && d == '+' {
        Some((Token::Concat, 2))
    } else if c == '<' {
        Some((Token::Lt, 1))
    } else if c == '>' {
        Some((Token::Gt, 1))
    } else if c == '=' {
        Some((Token::Eq, 1))
    } else if c == '+' {
        Some((Token::Plus, 1))
    } else if c == '-' {
        Some((Token::Minus, 1))
    } else if c == '*' {
        Some((Token::Star, 1))
    } else if c == '/' {
        Some((Token::Slash, 1))
    } else if c == '%' {
        Some((Token::Percent, 1))
    } else if c == '!' {
        Some((Token::Bang, 1))
    } else if c == '(' {
        Some((Token::LParen, 1))
    } else if c == ')' {
        Some((Token::RParen, 1))
    } else if c == '[' {
        Some((Token::LBracket, 1))
    } else if c == ']' {
        Some((Token::RBracket, 1))
    } else if c == '{' {
        Some((Token::LBrace, 1))
    } else if c == '}' {
        Some((Token::RBrace, 1))
    } else if c == ':' {
        Some((Token::Colon, 1))
    } else if c == ',' {
        Some((Token::Comma, 1))
    } else if c == '.' {
        Some((Token::Dot, 1))
    } else {
        None
    }
}

fn next_token_exec(t: &Vec<char>, p: usize) -> (r: (Token, usize))
    requires
        p < t@.len(),
    ensures
        r.0 == next_token(t@, p as int).0,
        r.1 == next_token(t@, p as int).1,
        1 <= r.1,
        p + r.1 <= t@.len(),
{
    proof {
        lemma_next_token_bounds(t@, p as int);
    }
    let len = t.len();
    let c = t[p];
    if ('a' <= c && c <= 'z') || ('A' <= c && c <= 'Z') || c == '_' {
        let n = 1 + run_len_exec(t, p + 1, CharClass::IdentContinue);
        match keyword_exec(t, p, p + n) {
            Some(k) => (k, n),
            None => (Token::Identifier, n),
        }
    } else if is_decimal_digit_exec(c) {
        let d = run_len_exec(t, p, CharClass::Digit);
        if p + d < t.len() && t[p + d] == '.' {
            let f = run_len_exec(t, p + d + 1, CharClass::Digit);
            if f > 0 {
                return (Token::FloatLiteral, d + 1 + f);
            }
        }
        (Token::IntLiteral, d)
    } else if is_unicode_whitespace_exec(c) {
        (Token::Whitespace, run_len_exec(t, p, CharClass::Space))
    } else if c == '"' {
        let (closed, e) = string_scan_exec(t, p + 1);
        proof {
            lemma_string_scan_bounds(t@, p + 1);
        }
        if closed {
            (Token::StringLiteral, e - p)
        } else {
            (Token::Error, e - p)
        }
    } else if c == '/' && p + 1 < t.len() && t[p + 1] == '/' {
        (Token::LineComment, 2 + run_len_exec(t, p + 2, CharClass::NotLineEnd))
    } else {
        match symbol_exec(t, p) {
            Some((k, n)) => (k, n),
            None => (Token::Error, 1),
        }
    }
}

/// Splits `text` into its tokens, in order, skipping whitespace and line
/// comments. Each token carries its text and its byte range in `text`.
pub fn tokenize(text: &str) -> (tokens: Vec<TokenData>)
    ensures
        tokens@.len() == lex(text@).len(),
        forall|i: int|
            0 <= i < tokens@.len() ==> token_data_of(#[trigger] tokens@[i], text@, lex(text@)[i]),
{
    let t = text_chars(text);
    let total = str_byte_len(text);
    let n = t.len();
    let mut tokens: Vec<TokenData> = Vec::new();
    let mut p: usize = 0;
    let mut bp: usize = 0;
    let ghost mut done: Seq<(Token, int, int)> = Seq::empty();
    proof {
        assert(t@.take(0) =~= Seq::<char>::empty());
    }
    while p < n
        invariant
            t@ == text@,
            n == t@.len(),
            total == byte_len(t@),
            p <= n,
            bp == byte_offset(t@, p as int),
            lex(t@) == done + lex_from(t@, p as int),
            tokens@.len() == done.len(),
            forall|i: int|
                0 <= i < tokens@.len() ==> token_data_of(#[trigger] tokens@[i], t@, done[i]),
        decreases n - p,
    {
        let (k, len) = next_token_exec(&t, p);
        let q = p + len;
        // byte offset of q
        let mut bq = bp;
        let mut j = p;
        while j < q
            invariant
                t@ == text@,
                n == t@.len(),
                total == byte_len(t@),
                p <= j <= q <= n,
                bq == byte_offset(t@, j as int),
            decreases q - j,
        {
            proof {
                lemma_byte_offset_step(t@, j as int);
                lemma_byte_offset_monotone(t@, j as int + 1, n as int);
            }
            let w = char_width_exec(t[j]);
            bq = bq + w;
            j = j + 1;
        }
        proof {
            assert(lex_from(t@, p as int) == if is_reported(k) {
                seq![(k, p as int, q as int)] + lex_from(t@, q as int)
            } else {
                lex_from(t@, q as int)
            });
        }
        if k != Token::Whitespace && k != Token::LineComment {
            let content = substring(text, p, q);
            let d = TokenData { token: k, content, span: bp..bq };
            tokens.push(d);
            proof {
                let tok = (k, p as int, q as int);
                assert(token_data_of(d, t@, tok));
                assert(done.push(tok) + lex_from(t@, q as int) =~= done + (seq![tok] + lex_from(t@, q as int)));
                done = done.push(tok);
            }
        }
        p = q;
        bp = bq;
    }
    proof {
        assert(lex_from(t@, p as int) == Seq::<(Token, int, int)>::empty());
        assert(done + Seq::<(Token, int, int)>::empty() =~= done);
    }
    tokens
}


/// Tokens that the user may be in the middle of typing.
pub open spec fn is_partial_word(k: Token) -> bool {
    k == Token::Identifier || k == Token::IntLiteral || k == Token::StringLiteral
        || k == Token::FloatLiteral
}

/// Index of the first token that starts at or after `offset` (searching from
/// `i`), or the number of tokens if there is none.
pub open spec fn first_at_or_after(s: Seq<TokenData>, offset: usize, i: int) -> int
    decreases s.len() - i,
{
    if i < 0 || i >= s.len() {
        s.len() as int
    } else if s[i].span.start >= offset {
        i
    } else {
        first_at_or_after(s, offset, i + 1)
    }
}

/// End (exclusive) of the context before the cursor: the tokens before the
/// cursor, less a last one that is a partial word.
pub open spec fn context_end(s: Seq<TokenData>, offset: usize) -> int {
    let pos = first_at_or_after(s, offset, 0);
    if pos > 0 && is_partial_word(s[pos - 1].token) {
        pos - 1
    } else {
        pos
    }
}

/// Start of the context: at most `n` tokens before its end.
pub open spec fn context_start(s: Seq<TokenData>, offset: usize, n: usize) -> int {
    let end = context_end(s, offset);
    if end >= n {
        end - n
    } else {
        0
    }
}

/// `first_at_or_after` is the first index at or after `i` whose token starts
/// at or after `offset`.
pub proof fn lemma_first_at_or_after(s: Seq<TokenData>, offset: usize, i: int)
    requires
        0 <= i <= s.len(),
    ensures
        i <= first_at_or_after(s, offset, i) <= s.len(),
        forall|j: int| i <= j < first_at_or_after(s, offset, i) ==> s[j].span.start < offset,
        first_at_or_after(s, offset, i) < s.len() ==> s[first_at_or_after(s, offset, i)].span.start
            >= offset,
    decreases s.len() - i,
{
    if i < s.len() && s[i].span.start < offset {
        lemma_first_at_or_after(s, offset, i + 1);
    }
}

/// The context before a cursor: the tokens of the context all start before
/// the cursor and are at most `n`, the last ones before it; the token just
/// before the cursor is left out exactly when it is an identifier or a
/// literal (a word the cursor may be completing).
pub proof fn law_context_before_cursor(s: Seq<TokenData>, offset: usize, n: usize)
    ensures
        ({
            let p = first_at_or_after(s, offset, 0);
            let b = context_start(s, offset, n);
            let e = context_end(s, offset);
            &&& 0 <= b <= e <= p <= s.len()
            &&& e - b <= n
            &&& (e - b < n ==> b == 0)
            &&& forall|j: int| b <= j < e ==> (#[trigger] s[j]).span.start < offset
            &&& p < s.len() ==> s[p].span.start >= offset
            &&& p > 0 && (s[p - 1].token == Token::Identifier || s[p - 1].token == Token::IntLiteral
                || s[p - 1].token == Token::FloatLiteral || s[p - 1].token == Token::StringLiteral)
                ==> e == p - 1
            &&& !(p > 0 && (s[p - 1].token == Token::Identifier || s[p - 1].token == Token::IntLiteral
                || s[p - 1].token == Token::FloatLiteral || s[p - 1].token == Token::StringLiteral))
                ==> e == p
        }),
{
    lemma_first_at_or_after(s, offset, 0);
}

/// The (at most `n`) tokens just before `cursor_offset`, in order, leaving out
/// a last one that is an identifier or a literal the cursor may be typing.
pub fn get_context_slice(tokens: &[TokenData], cursor_offset: usize, n: usize) -> (r: Vec<TokenData>)
    ensures
        r@ == tokens@.subrange(
            context_start(tokens@, cursor_offset, n),
            context_end(tokens@, cursor_offset),
        ),
{
    proof {
        lemma_first_at_or_after(tokens@, cursor_offset, 0);
    }
    let len = tokens.len();
    let mut pos: usize = 0;
    while pos < len && tokens[pos].span.start < cursor_offset
        invariant
            len == tokens@.len(),
            pos <= len,
            first_at_or_after(tokens@, cursor_offset, 0) == first_at_or_after(
                tokens@,
                cursor_offset,
                pos as int,
            ),
        decreases len - pos,
    {
        pos = pos + 1;
    }
    let mut end_idx = pos;
    if pos > 0 {
        let k = tokens[pos - 1].token;
        if k == Token::Identifier || k == Token::IntLiteral || k == Token::StringLiteral || k
            == Token::FloatLiteral {
            end_idx = pos - 1;
        }
    }
    let start_idx = if end_idx >= n {
        end_idx - n
    } else {
        0
    };
    let mut r: Vec<TokenData> = Vec::new();
    let mut i = start_idx;
    while i < end_idx
        invariant
            start_idx <= i <= end_idx <= len,
            len == tokens@.len(),
            r@ == tokens@.subrange(start_idx as int, i as int),
        decreases end_idx - i,
    {
        let d = tokens[i].clone();
        r.push(d);
        proof {
            assert(tokens@.subrange(start_idx as int, i + 1) =~= tokens@.subrange(
                start_idx as int,
                i as int,
            ).push(tokens@[i as int]));
        }
        i = i + 1;
    }
    r
}

/// The completion contexts that follow the given context tokens.
pub open spec fn suggestions_for(ctx: Seq<TokenData>) -> Seq<&'static str> {
    if ctx.len() == 0 {
        seq!["toplevel"]
    } else {
        let last = ctx.last().token;
        if last == Token::In || last == Token::Out || last == Token::Aux || last == Token::Var {
            seq!["_"]
        } else if last == Token::Colon || last == Token::Comma {
            seq!["type"]
        } else if last == Token::Dot {
            if ctx.len() >= 2 && ctx[ctx.len() - 2].token == Token::List {
                seq!["list method"]
            } else if ctx.len() >= 2 && ctx[ctx.len() - 2].token == Token::MapKeyword {
                seq!["map method"]
            } else {
                Seq::empty()
            }
        } else if is_expression_start(last) {
            seq!["expr"]
        } else {
            seq!["toplevel", "expr"]
        }
    }
}

/// Tokens after which an expression is expected.
pub open spec fn is_expression_start(k: Token) -> bool {
    k == Token::Eq || k == Token::Plus || k == Token::Minus || k == Token::Star || k == Token::Slash
        || k == Token::Percent || k == Token::LParen || k == Token::LBracket || k == Token::AndAnd
        || k == Token::OrOr || k == Token::Impl || k == Token::EqEq || k == Token::Le || k
        == Token::Ge || k == Token::Lt || k == Token::Gt || k == Token::Bang || k == Token::Concat
        || k == Token::If || k == Token::Then || k == Token::Else
}

/// The completion contexts at `offset`, judged from the (at most three)
/// context tokens before it.
pub open spec fn suggestions_at(s: Seq<TokenData>, offset: usize) -> Seq<&'static str> {
    suggestions_for(s.subrange(context_start(s, offset, 3), context_end(s, offset)))
}

/// In the tokens before the first one that starts at or after `offset`, that
/// one is still the first such (there is none, so it is their count).
proof fn lemma_first_at_or_after_prefix(s: Seq<TokenData>, offset: usize, i: int)
    requires
        0 <= i <= first_at_or_after(s, offset, 0),
        first_at_or_after(s, offset, i) == first_at_or_after(s, offset, 0),
    ensures
        first_at_or_after(s.subrange(0, first_at_or_after(s, offset, 0)), offset, i)
            == first_at_or_after(s, offset, 0),
    decreases first_at_or_after(s, offset, 0) - i,
{
    let p = first_at_or_after(s, offset, 0);
    lemma_first_at_or_after(s, offset, 0);
    lemma_first_at_or_after(s, offset, i);
    if i < p {
        assert(s[i].span.start < offset);
        lemma_first_at_or_after_prefix(s, offset, i + 1);
    }
}

/// What is suggested at `offset` depends only on the tokens that start before
/// it: the suggestions are those for the tokens up to the first one that
/// starts at or after `offset`. With no token before the cursor the one
/// suggestion is `toplevel`; there are never more than two suggestions, each
/// one of `toplevel`, `expr`, `_`, `type`, `list method` and `map method`.
pub proof fn law_suggestions_from_tokens_before(s: Seq<TokenData>, offset: usize)
    ensures
        suggestions_at(s, offset) == suggestions_at(
            s.subrange(0, first_at_or_after(s, offset, 0)),
            offset,
        ),
        first_at_or_after(s, offset, 0) == 0 ==> suggestions_at(s, offset) == seq!["toplevel"],
        suggestions_at(s, offset).len() <= 2,
        forall|k: int|
            0 <= k < suggestions_at(s, offset).len() ==> {
                let w = #[trigger] suggestions_at(s, offset)[k];
                w == "toplevel" || w == "expr" || w == "_" || w == "type" || w == "list method"
                    || w == "map method"
            },
{
    let p = first_at_or_after(s, offset, 0);
    let t = s.subrange(0, p);
    lemma_first_at_or_after(s, offset, 0);
    lemma_first_at_or_after_prefix(s, offset, 0);
    assert(first_at_or_after(t, offset, 0) == p);
    if p > 0 {
        assert(t[p - 1] == s[p - 1]);
    }
    let e = context_end(s, offset);
    let b = context_start(s, offset, 3);
    assert(context_end(t, offset) == e);
    assert(context_start(t, offset, 3) == b);
    assert(t.subrange(b, e) =~= s.subrange(b, e));
}

/// What is suggested, by the last context token before the cursor: nothing
/// before it gives `toplevel`; a stream declaration keyword (`in`, `out`,
/// `aux`, `var`) gives `_` (a name is typed next); `:` or `,` give `type`;
/// a `.` after `List` or `Map` gives that module's methods and after
/// anything else nothing; an operator, an opening bracket or `if`, `then`,
/// `else` give `expr`; any other token gives `toplevel` and `expr`.
pub proof fn law_suggestions_by_last_token(s: Seq<TokenData>, offset: usize)
    ensures
        ({
            let ctx = s.subrange(context_start(s, offset, 3), context_end(s, offset));
            let r = suggestions_at(s, offset);
            let last = ctx.last().token;
            let before = ctx[ctx.len() - 2].token;
            &&& ctx.len() == 0 ==> r == seq!["toplevel"]
            &&& ctx.len() > 0 && (last == Token::In || last == Token::Out || last == Token::Aux
                || last == Token::Var) ==> r == seq!["_"]
            &&& ctx.len() > 0 && (last == Token::Colon || last == Token::Comma) ==> r == seq!["type"]
            &&& ctx.len() >= 2 && last == Token::Dot && before == Token::List ==> r
                == seq!["list method"]
            &&& ctx.len() >= 2 && last == Token::Dot && before == Token::MapKeyword ==> r
                == seq!["map method"]
            &&& ctx.len() > 0 && last == Token::Dot && !(ctx.len() >= 2 && (before == Token::List
                || before == Token::MapKeyword)) ==> r == Seq::<&'static str>::empty()
            &&& ctx.len() > 0 && (last == Token::Eq || last == Token::Plus || last == Token::Minus || last == Token::Star || last == Token::Slash || last == Token::Percent || last == Token::LParen || last == Token::LBracket || last == Token::AndAnd || last == Token::OrOr || last == Token::Impl || last == Token::EqEq || last == Token::Le || last == Token::Ge || last == Token::Lt || last == Token::Gt || last == Token::Bang || last == Token::Concat || last == Token::If || last == Token::Then || last == Token::Else) ==> r == seq!["expr"]
            &&& ctx.len() > 0 && !(last == Token::In || last == Token::Out || last == Token::Aux
                || last == Token::Var || last == Token::Colon || last == Token::Comma || last
                == Token::Dot || last == Token::Eq || last == Token::Plus || last == Token::Minus || last == Token::Star || last == Token::Slash || last == Token::Percent || last == Token::LParen || last == Token::LBracket || last == Token::AndAnd || last == Token::OrOr || last == Token::Impl || last == Token::EqEq || last == Token::Le || last == Token::Ge || last == Token::Lt || last == Token::Gt || last == Token::Bang || last == Token::Concat || last == Token::If || last == Token::Then || last == Token::Else) ==> r == seq!["toplevel", "expr"]
        }),
{
}

/// The kinds of completion that fit at `cursor_offset`, judged from the three
/// tokens before it.
pub fn filter_suggestions(cursor_offset: usize, tokens: &[TokenData]) -> (r: Vec<&'static str>)
    ensures
        r@ == suggestions_at(tokens@, cursor_offset),
{
    let ctx = get_context_slice(tokens, cursor_offset, 3);
    let mut r: Vec<&'static str> = Vec::new();
    let m = ctx.len();
    if m == 0 {
        r.push("toplevel");
        return r;
    }
    let last = ctx[m - 1].token;
    if last == Token::In || last == Token::Out || last == Token::Aux || last == Token::Var {
        r.push("_");
    } else if last == Token::Colon || last == Token::Comma {
        r.push("type");
    } else if last == Token::Dot {
        if m >= 2 && ctx[m - 2].token == Token::List {
            r.push("list method");
        } else if m >= 2 && ctx[m - 2].token == Token::MapKeyword {
            r.push("map method");
        }
    } else if last == Token::Eq || last == Token::Plus || last == Token::Minus || last
        == Token::Star || last == Token::Slash || last == Token::Percent || last == Token::LParen
        || last == Token::LBracket || last == Token::AndAnd || last == Token::OrOr || last
        == Token::Impl || last == Token::EqEq || last == Token::Le || last == Token::Ge || last
        == Token::Lt || last == Token::Gt || last == Token::Bang || last == Token::Concat || last
        == Token::If || last == Token::Then || last == Token::Else {
        r.push("expr");
    } else {
        r.push("toplevel");
        r.push("expr");
    }
    assert(r@ =~= suggestions_for(ctx@));
    r
}

} // verus!
