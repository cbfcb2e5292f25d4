//! The languages of the DSRV tokens, each stated on its own, and the law
//! that the tokenizer follows them: at each position it takes the longest
//! word that is a token, a keyword before an identifier of the same
//! spelling, and an error only where no token starts.

use vstd::prelude::*;
use crate::lexer::{
    in_class, is_ident_start, keyword_token, lemma_next_token_bounds, lex, lex_from,
    next_token, run_len, string_scan, symbol_at, CharClass, Token,
};
use crate::lexer::{is_reported, token_data_of, TokenData};
use crate::text::{byte_len, byte_offset, lemma_byte_offset_monotone, lemma_encode_utf8_concat};
use crate::unicode::{is_decimal_digit, is_unicode_whitespace};
use vstd::utf8::encode_utf8;

verus! {

/// The chars of `w` from `from` to `to` are all of class `cls`.
pub open spec fn all_in(w: Seq<char>, from: int, to: int, cls: CharClass) -> bool {
    forall|j: int| from <= j < to ==> in_class(cls, #[trigger] w[j])
}

/// `[a-zA-Z_][a-zA-Z0-9_]*`
pub open spec fn is_identifier_word(w: Seq<char>) -> bool {
    w.len() >= 1 && is_ident_start(w[0]) && all_in(w, 1, w.len() as int, CharClass::IdentContinue)
}

/// `\d+`
pub open spec fn is_int_word(w: Seq<char>) -> bool {
    w.len() >= 1 && all_in(w, 0, w.len() as int, CharClass::Digit)
}

/// `\d+\.\d+` with the dot at `d`.
pub open spec fn is_float_word_at(w: Seq<char>, d: int) -> bool {
    &&& 1 <= d
    &&& d + 2 <= w.len()
    &&& w[d] == '.'
    &&& all_in(w, 0, d, CharClass::Digit)
    &&& all_in(w, d + 1, w.len() as int, CharClass::Digit)
}

/// `\d+\.\d+`
pub open spec fn is_float_word(w: Seq<char>) -> bool {
    exists|d: int| #[trigger] is_float_word_at(w, d)
}

/// `\s+`
pub open spec fn is_whitespace_word(w: Seq<char>) -> bool {
    w.len() >= 1 && all_in(w, 0, w.len() as int, CharClass::Space)
}

/// `//[^\n\r]*`
pub open spec fn is_comment_word(w: Seq<char>) -> bool {
    w.len() >= 2 && w[0] == '/' && w[1] == '/' && all_in(w, 2, w.len() as int, CharClass::NotLineEnd)
}

/// From index `i` on, `w` is a run of items, each a char other than `"` and
/// `\` or a `\` followed by a char other than a line feed, then a closing
/// `"` as its last char.
pub open spec fn string_body(w: Seq<char>, i: int) -> bool
    decreases w.len() - i,
{
    if i < 0 || i >= w.len() {
        false
    } else if w[i] == '"' {
        i == w.len() - 1
    } else if w[i] == '\\' {
        i + 1 < w.len() && w[i + 1] != '\n' && string_body(w, i + 2)
    } else {
        string_body(w, i + 1)
    }
}

/// `"([^"\\]|\\.)*"`
pub open spec fn is_string_word(w: Seq<char>) -> bool {
    w.len() >= 2 && w[0] == '"' && string_body(w, 1)
}

/// The operator or punctuation token spelled by `w`, if any.
pub open spec fn symbol_token(w: Seq<char>) -> Option<Token> {
    if w.len() == 2 {
        let c = w[0];
        let d = w[1];
        if c == '&' && d == '&' {
            Some(Token::AndAnd)
        } else if c == '|' && d == '|' {
            Some(Token::OrOr)
        } else if c == '=' && d == '>' {
            Some(Token::Impl)
        } else if c == '=' && d == '=' {
            Some(Token::EqEq)
        } else if c == '<' && d == '=' {
            Some(Token::Le)
        } else if c == '>' && d == '=' {
            Some(Token::Ge)
        } else if c == '+' && d == '+' {
            Some(Token::Concat)
        } else {
            None
        }
    } else if w.len() == 1 {
        let c = w[0];
        if c == '<' {
            Some(Token::Lt)
        } else if c == '>' {
            Some(Token::Gt)
        } else if c == '=' {
            Some(Token::Eq)
        } else if c == '+' {
            Some(Token::Plus)
        } else if c == '-' {
            Some(Token::Minus)
        } else if c == '*' {
            Some(Token::Star)
        } else if c == '/' {
            Some(Token::Slash)
        } else if c == '%' {
            Some(Token::Percent)
        } else if c == '!' {
            Some(Token::Bang)
        } else if c == '(' {
            Some(Token::LParen)
        } else if c == ')' {
            Some(Token::RParen)
        } else if c == '[' {
            Some(Token::LBracket)
        } else if c == ']' {
            Some(Token::RBracket)
        } else if c == '{' {
            Some(Token::LBrace)
        } else if c == '}' {
            Some(Token::RBrace)
        } else if c == ':' {
            Some(Token::Colon)
        } else if c == ',' {
            Some(Token::Comma)
        } else if c == '.' {
            Some(Token::Dot)
        } else {
            None
        }
    } else {
        None
    }
}

/// Whether the word `w` is a token of kind `k`.
pub open spec fn token_matches(k: Token, w: Seq<char>) -> bool {
    match k {
        Token::Identifier => is_identifier_word(w),
        Token::IntLiteral => is_int_word(w),
        Token::FloatLiteral => is_float_word(w),
        Token::Whitespace => is_whitespace_word(w),
        Token::LineComment => is_comment_word(w),
        Token::StringLiteral => is_string_word(w),
        Token::Error => false,
        _ => keyword_token(w) == Some(k) || symbol_token(w) == Some(k),
    }
}

/// The kinds spelled by a fixed word of letters.
pub open spec fn is_keyword(k: Token) -> bool {
    exists|w: Seq<char>| keyword_token(w) == Some(k)
}

/// The `m` chars of `t` from `p` on.
pub open spec fn word_at(t: Seq<char>, p: int, m: int) -> Seq<char> {
    t.subrange(p, p + m)
}

/// A run of class `cls` from `q` is all of that class, and what follows it
/// (if anything) is not.
pub proof fn lemma_run(t: Seq<char>, q: int, cls: CharClass)
    requires
        0 <= q <= t.len(),
    ensures
        q + run_len(t, q, cls) <= t.len(),
        forall|j: int| q <= j < q + run_len(t, q, cls) ==> in_class(cls, #[trigger] t[j]),
        q + run_len(t, q, cls) < t.len() ==> !in_class(cls, t[q + run_len(t, q, cls)]),
    decreases t.len() - q,
{
    if q < t.len() && in_class(cls, t[q]) {
        lemma_run(t, q + 1, cls);
    }
}

/// Every keyword is spelled like an identifier.
pub proof fn lemma_keyword_is_identifier(w: Seq<char>)
    requires
        keyword_token(w) is Some,
    ensures
        is_identifier_word(w),
{
    assert forall|j: int| 1 <= j < w.len() implies in_class(CharClass::IdentContinue, #[trigger] w[j]) by {
    }
}

/// What a token's first char is, by its kind.
pub open spec fn starts_kind(k: Token, c: char) -> bool {
    match k {
        Token::Identifier => is_ident_start(c),
        Token::IntLiteral | Token::FloatLiteral => is_decimal_digit(c),
        Token::Whitespace => is_unicode_whitespace(c),
        Token::LineComment => c == '/',
        Token::StringLiteral => c == '"',
        Token::Error => false,
        _ => is_ident_start(c) || is_symbol_char(c),
    }
}

/// The chars that begin an operator or punctuation token.
pub open spec fn is_symbol_char(c: char) -> bool {
    c == '&' || c == '|' || c == '=' || c == '<' || c == '>' || c == '+' || c == '-' || c == '*'
        || c == '/' || c == '%' || c == '!' || c == '(' || c == ')' || c == '[' || c == ']' || c
        == '{' || c == '}' || c == ':' || c == ',' || c == '.'
}

/// A token is at least one char long, and its first char fits its kind.
pub proof fn lemma_token_start(k: Token, w: Seq<char>)
    requires
        token_matches(k, w),
    ensures
        w.len() >= 1,
        starts_kind(k, w[0]),
{
    match k {
        Token::FloatLiteral => {
            let d = choose|d: int| is_float_word_at(w, d);
            assert(in_class(CharClass::Digit, w[0]));
        },
        Token::IntLiteral => {
            assert(in_class(CharClass::Digit, w[0]));
        },
        Token::Whitespace => {
            assert(in_class(CharClass::Space, w[0]));
        },
        Token::Identifier | Token::LineComment | Token::StringLiteral | Token::Error => {},
        _ => {
            if keyword_token(w) == Some(k) {
                lemma_keyword_is_identifier(w);
            }
        },
    }
}

/// The first chars of the different kinds of token do not overlap.
pub proof fn lemma_start_classes(c: char)
    ensures
        is_ident_start(c) ==> !is_decimal_digit(c) && !is_unicode_whitespace(c) && c != '"'
            && !is_symbol_char(c),
        is_decimal_digit(c) ==> !is_unicode_whitespace(c) && c != '"' && !is_symbol_char(c),
        is_unicode_whitespace(c) ==> c != '"' && !is_symbol_char(c),
        !is_symbol_char('"'),
        !is_decimal_digit('.'),
{
}

/// A closed string scan from `q` ends after `q`.
pub proof fn lemma_scan_closes_after(t: Seq<char>, q: int)
    requires
        0 <= q,
    ensures
        string_scan(t, q).0 ==> q < string_scan(t, q).1 <= t.len(),
    decreases t.len() - q,
{
    if q < t.len() && t[q] != '"' {
        if t[q] == '\\' {
            if q + 1 < t.len() && t[q + 1] != '\n' {
                lemma_scan_closes_after(t, q + 2);
            }
        } else {
            lemma_scan_closes_after(t, q + 1);
        }
    }
}

/// The word of `m` chars from `p` has a string body from `i` exactly when
/// the scan of `t` from `p + i` closes at `p + m`.
pub proof fn lemma_string_body_scan(t: Seq<char>, p: int, i: int, m: int)
    requires
        0 <= p,
        1 <= i <= m,
        p + m <= t.len(),
    ensures
        string_body(word_at(t, p, m), i) <==> string_scan(t, p + i) == (true, p + m),
    decreases m - i,
{
    let w = word_at(t, p, m);
    lemma_scan_closes_after(t, p + i);
    if i < m {
        assert(w[i] == t[p + i]);
        if t[p + i] == '\\' {
            if i + 1 < m {
                assert(w[i + 1] == t[p + i + 1]);
                lemma_string_body_scan(t, p, i + 2, m);
            } else {
                lemma_scan_closes_after(t, p + i + 2);
            }
        } else if t[p + i] != '"' {
            lemma_string_body_scan(t, p, i + 1, m);
        }
    }
}

/// The tokenizer's choice at `p` follows the token languages: where no
/// token starts at `p` it reports an error; otherwise it takes a token that
/// the word matches, no longer word from `p` is a token, and the only other
/// kind the word could be is an identifier where it took a keyword.
pub open spec fn takes_longest(t: Seq<char>, p: int) -> bool {
    let (k, n) = next_token(t, p);
    if k == Token::Error {
        forall|k2: Token, m: int|
            0 < m <= t.len() - p ==> !(#[trigger] token_matches(k2, word_at(t, p, m)))
    } else {
        &&& token_matches(k, word_at(t, p, n as int))
        &&& forall|k2: Token, m: int|
            n < m <= t.len() - p ==> !(#[trigger] token_matches(k2, word_at(t, p, m)))
        &&& forall|k2: Token|
            #[trigger] token_matches(k2, word_at(t, p, n as int)) ==> k2 == k || (is_keyword(k) && k2
                == Token::Identifier)
    }
}

proof fn lemma_ident_case(t: Seq<char>, p: int)
    requires
        0 <= p < t.len(),
        is_ident_start(t[p]),
    ensures
        takes_longest(t, p),
{
    lemma_run(t, p + 1, CharClass::IdentContinue);
    lemma_start_classes(t[p]);
    let n: int = 1 + run_len(t, p + 1, CharClass::IdentContinue) as int;
    let w = word_at(t, p, n);
    let k = next_token(t, p).0;
    assert(next_token(t, p).1 == n);
    assert forall|j: int| 1 <= j < n implies in_class(CharClass::IdentContinue, #[trigger] w[j]) by {
        assert(w[j] == t[p + j]);
    }
    assert(is_identifier_word(w));
    assert forall|k2: Token, m: int| n < m <= t.len() - p implies !(#[trigger] token_matches(
        k2,
        word_at(t, p, m),
    )) by {
        let wm = word_at(t, p, m);
        if token_matches(k2, wm) {
            lemma_token_start(k2, wm);
            assert(wm[0] == t[p]);
            if keyword_token(wm) is Some {
                lemma_keyword_is_identifier(wm);
            }
            assert(is_identifier_word(wm));
            assert(wm[n] == t[p + n]);
            assert(in_class(CharClass::IdentContinue, wm[n]));
        }
    }
    assert forall|k2: Token| #[trigger] token_matches(k2, word_at(t, p, n)) implies k2 == k || (is_keyword(
        k,
    ) && k2 == Token::Identifier) by {
        lemma_token_start(k2, w);
        if k2 != Token::Identifier {
            assert(keyword_token(w) == Some(k2));
        } else if k != Token::Identifier {
            assert(keyword_token(w) == Some(k));
        }
    }
}

proof fn lemma_digit_case(t: Seq<char>, p: int)
    requires
        0 <= p < t.len(),
        is_decimal_digit(t[p]),
    ensures
        takes_longest(t, p),
{
    lemma_start_classes(t[p]);
    lemma_start_classes('.');
    lemma_run(t, p, CharClass::Digit);
    let d: int = run_len(t, p, CharClass::Digit) as int;
    assert(d >= 1);
    if p + d < t.len() {
        lemma_run(t, p + d + 1, CharClass::Digit);
    }
    let f: int = run_len(t, p + d + 1, CharClass::Digit) as int;
    let is_float = p + d < t.len() && t[p + d] == '.' && f > 0;
    let k = next_token(t, p).0;
    let n: int = next_token(t, p).1 as int;
    let w = word_at(t, p, n);
    // Any float word from `p` has its dot at `d`.
    assert forall|m: int, e: int| 0 < m <= t.len() - p && #[trigger] is_float_word_at(word_at(t, p, m), e) implies e
        == d by {
        let wm = word_at(t, p, m);
        if e < d {
            assert(wm[e] == t[p + e]);
            assert(in_class(CharClass::Digit, t[p + e]));
        } else if e > d {
            assert(wm[d] == t[p + d]);
            assert(in_class(CharClass::Digit, wm[d]));
        }
    }
    if is_float {
        assert(n == d + 1 + f);
        assert forall|j: int| 0 <= j < d implies in_class(CharClass::Digit, #[trigger] w[j]) by {
            assert(w[j] == t[p + j]);
        }
        assert forall|j: int| d + 1 <= j < n implies in_class(CharClass::Digit, #[trigger] w[j]) by {
            assert(w[j] == t[p + j]);
        }
        assert(is_float_word_at(w, d));
        assert(token_matches(k, w));
    } else {
        assert(n == d);
        assert forall|j: int| 0 <= j < d implies in_class(CharClass::Digit, #[trigger] w[j]) by {
            assert(w[j] == t[p + j]);
        }
        assert(is_int_word(w));
    }
    assert forall|k2: Token, m: int| n < m <= t.len() - p implies !(#[trigger] token_matches(
        k2,
        word_at(t, p, m),
    )) by {
        let wm = word_at(t, p, m);
        if token_matches(k2, wm) {
            lemma_token_start(k2, wm);
            assert(wm[0] == t[p]);
            if k2 == Token::IntLiteral {
                assert(wm[d] == t[p + d]);
                assert(in_class(CharClass::Digit, wm[d]));
                if is_float {
                    assert(t[p + d] == '.');
                }
            } else if k2 == Token::FloatLiteral {
                let e = choose|e: int| is_float_word_at(wm, e);
                assert(e == d);
                assert(wm[d] == t[p + d]);
                if is_float {
                    assert(wm[n] == t[p + n]);
                    assert(in_class(CharClass::Digit, wm[n]));
                } else {
                    assert(wm[d + 1] == t[p + d + 1]);
                    assert(in_class(CharClass::Digit, wm[d + 1]));
                    assert(run_len(t, p + d + 1, CharClass::Digit) > 0);
                }
            } else {
                if keyword_token(wm) is Some {
                    lemma_keyword_is_identifier(wm);
                }
            }
        }
    }
    assert forall|k2: Token| #[trigger] token_matches(k2, word_at(t, p, n)) implies k2 == k || (
    is_keyword(k) && k2 == Token::Identifier) by {
        lemma_token_start(k2, w);
        assert(w[0] == t[p]);
        if k2 == Token::IntLiteral && is_float {
            assert(w[d] == t[p + d]);
            assert(in_class(CharClass::Digit, w[d]));
        } else if k2 == Token::FloatLiteral && !is_float {
            let e = choose|e: int| is_float_word_at(w, e);
            assert(e == d);
        } else if k2 != Token::IntLiteral && k2 != Token::FloatLiteral {
            if keyword_token(w) is Some {
                lemma_keyword_is_identifier(w);
            }
        }
    }
}

proof fn lemma_space_case(t: Seq<char>, p: int)
    requires
        0 <= p < t.len(),
        is_unicode_whitespace(t[p]),
    ensures
        takes_longest(t, p),
{
    lemma_start_classes(t[p]);
    lemma_run(t, p, CharClass::Space);
    let k = next_token(t, p).0;
    let n: int = next_token(t, p).1 as int;
    assert(n == run_len(t, p, CharClass::Space));
    let w = word_at(t, p, n);
    assert forall|j: int| 0 <= j < n implies in_class(CharClass::Space, #[trigger] w[j]) by {
        assert(w[j] == t[p + j]);
    }
    assert(is_whitespace_word(w));
    assert forall|k2: Token, m: int| n < m <= t.len() - p implies !(#[trigger] token_matches(
        k2,
        word_at(t, p, m),
    )) by {
        let wm = word_at(t, p, m);
        if token_matches(k2, wm) {
            lemma_token_start(k2, wm);
            assert(wm[0] == t[p]);
            assert(wm[n] == t[p + n]);
            assert(in_class(CharClass::Space, wm[n]));
        }
    }
    assert forall|k2: Token| #[trigger] token_matches(k2, word_at(t, p, n)) implies k2 == k || (is_keyword(
        k,
    ) && k2 == Token::Identifier) by {
        lemma_token_start(k2, w);
    }
}

proof fn lemma_string_case(t: Seq<char>, p: int)
    requires
        0 <= p < t.len(),
        t[p] == '"',
    ensures
        takes_longest(t, p),
{
    lemma_start_classes(t[p]);
    lemma_scan_closes_after(t, p + 1);
    lemma_string_scan_bounds_ge(t, p + 1);
    let (closed, e) = string_scan(t, p + 1);
    let k = next_token(t, p).0;
    let n: int = next_token(t, p).1 as int;
    assert forall|k2: Token, m: int| 0 < m <= t.len() - p && #[trigger] token_matches(k2, word_at(t, p, m)) implies k2
        == Token::StringLiteral && closed && m == e - p by {
        let wm = word_at(t, p, m);
        lemma_token_start(k2, wm);
        assert(wm[0] == t[p]);
        if k2 == Token::StringLiteral {
            lemma_string_body_scan(t, p, 1, m);
        }
    }
    if closed {
        assert(n == e - p);
        lemma_string_body_scan(t, p, 1, n);
        assert(token_matches(k, word_at(t, p, n)));
    }
}

/// A string scan never ends before where it starts.
proof fn lemma_string_scan_bounds_ge(t: Seq<char>, q: int)
    requires
        0 <= q,
    ensures
        string_scan(t, q).1 >= q || q > t.len(),
        string_scan(t, q).1 <= t.len(),
{
    crate::lexer::lemma_string_scan_bounds(t, q);
}

proof fn lemma_comment_case(t: Seq<char>, p: int)
    requires
        0 <= p,
        p + 1 < t.len(),
        t[p] == '/',
        t[p + 1] == '/',
    ensures
        takes_longest(t, p),
{
    lemma_start_classes(t[p]);
    lemma_run(t, p + 2, CharClass::NotLineEnd);
    let k = next_token(t, p).0;
    let n: int = next_token(t, p).1 as int;
    assert(n == 2 + run_len(t, p + 2, CharClass::NotLineEnd));
    let w = word_at(t, p, n);
    assert forall|j: int| 2 <= j < n implies in_class(CharClass::NotLineEnd, #[trigger] w[j]) by {
        assert(w[j] == t[p + j]);
    }
    assert(w[1] == t[p + 1]);
    assert(is_comment_word(w));
    assert forall|k2: Token, m: int| n < m <= t.len() - p implies !(#[trigger] token_matches(
        k2,
        word_at(t, p, m),
    )) by {
        let wm = word_at(t, p, m);
        if token_matches(k2, wm) {
            lemma_token_start(k2, wm);
            assert(wm[0] == t[p]);
            assert(wm[n] == t[p + n]);
            if k2 == Token::LineComment {
                assert(in_class(CharClass::NotLineEnd, wm[n]));
            } else if keyword_token(wm) is Some {
                lemma_keyword_is_identifier(wm);
            }
        }
    }
    assert forall|k2: Token| #[trigger] token_matches(k2, word_at(t, p, n)) implies k2 == k || (is_keyword(
        k,
    ) && k2 == Token::Identifier) by {
        lemma_token_start(k2, w);
        assert(w[0] == t[p]);
        if keyword_token(w) is Some {
            lemma_keyword_is_identifier(w);
        }
    }
}

proof fn lemma_symbol_case(t: Seq<char>, p: int)
    requires
        0 <= p < t.len(),
        !is_ident_start(t[p]),
        !is_decimal_digit(t[p]),
        !is_unicode_whitespace(t[p]),
        t[p] != '"',
        !(t[p] == '/' && p + 1 < t.len() && t[p + 1] == '/'),
    ensures
        takes_longest(t, p),
{
    let k = next_token(t, p).0;
    let n: int = next_token(t, p).1 as int;
    let c = t[p];
    assert forall|k2: Token, m: int| 0 < m <= t.len() - p && #[trigger] token_matches(k2, word_at(t, p, m)) implies symbol_token(
        word_at(t, p, m),
    ) == Some(k2) by {
        let wm = word_at(t, p, m);
        lemma_token_start(k2, wm);
        assert(wm[0] == t[p]);
        if m >= 2 {
            assert(wm[1] == t[p + 1]);
        }
        if keyword_token(wm) is Some {
            lemma_keyword_is_identifier(wm);
        }
    }
    if symbol_at(t, p) is Some {
        let w = word_at(t, p, n);
        assert(w[0] == t[p]);
        if n == 2 {
            assert(w[1] == t[p + 1]);
        }
        assert(symbol_token(w) == Some(k));
        assert forall|k2: Token, m: int| n < m <= t.len() - p implies !(#[trigger] token_matches(
            k2,
            word_at(t, p, m),
        )) by {
            let wm = word_at(t, p, m);
            if token_matches(k2, wm) {
                assert(symbol_token(wm) == Some(k2));
                assert(wm[0] == t[p]);
                assert(wm[1] == t[p + 1]);
            }
        }
    } else {
        assert forall|k2: Token, m: int| 0 < m <= t.len() - p implies !(#[trigger] token_matches(
            k2,
            word_at(t, p, m),
        )) by {
            let wm = word_at(t, p, m);
            if token_matches(k2, wm) {
                assert(symbol_token(wm) == Some(k2));
                assert(wm[0] == t[p]);
                if m >= 2 {
                    assert(wm[1] == t[p + 1]);
                }
            }
        }
    }
}

/// At every position of every text, the tokenizer takes the longest token
/// there, a keyword rather than an identifier spelled the same, and reports
/// an error exactly where no token starts.
pub proof fn law_longest_match(t: Seq<char>, p: int)
    requires
        0 <= p < t.len(),
    ensures
        takes_longest(t, p),
{
    let c = t[p];
    lemma_start_classes(c);
    if is_ident_start(c) {
        lemma_ident_case(t, p);
    } else if is_decimal_digit(c) {
        lemma_digit_case(t, p);
    } else if is_unicode_whitespace(c) {
        lemma_space_case(t, p);
    } else if c == '"' {
        lemma_string_case(t, p);
    } else if c == '/' && p + 1 < t.len() && t[p + 1] == '/' {
        lemma_comment_case(t, p);
    } else {
        lemma_symbol_case(t, p);
    }
}

/// Each token that lexing from `p` reports is the tokenizer's choice at
/// its start, and starts within the text at or after `p`.
pub proof fn lemma_lex_from_entries(t: Seq<char>, p: int)
    requires
        0 <= p,
    ensures
        forall|i: int|
            0 <= i < lex_from(t, p).len() ==> {
                let tok = #[trigger] lex_from(t, p)[i];
                &&& p <= tok.1 < t.len()
                &&& next_token(t, tok.1) == (tok.0, (tok.2 - tok.1) as nat)
            },
    decreases t.len() - p,
{
    if p < t.len() {
        lemma_next_token_bounds(t, p);
        let (k, n) = next_token(t, p);
        lemma_lex_from_entries(t, p + n);
        let rest = lex_from(t, p + n);
        let all = lex_from(t, p);
        assert forall|i: int| 0 <= i < all.len() implies {
            let tok = #[trigger] all[i];
            &&& p <= tok.1 < t.len()
            &&& next_token(t, tok.1) == (tok.0, (tok.2 - tok.1) as nat)
        } by {
            if crate::lexer::is_reported(k) {
                assert(all == seq![(k, p, p + n)] + rest);
                if i > 0 {
                    assert(all[i] == rest[i - 1]);
                }
            } else {
                assert(all == rest);
            }
        }
    }
}

/// Every token that the tokenizer reports for a text is the longest token
/// at its start (a keyword rather than an identifier spelled the same), and
/// an error token is reported exactly where no token starts.
pub proof fn law_reported_tokens_longest(t: Seq<char>, i: int)
    requires
        0 <= i < lex(t).len(),
    ensures
        takes_longest(t, lex(t)[i].1),
        next_token(t, lex(t)[i].1) == (lex(t)[i].0, (lex(t)[i].2 - lex(t)[i].1) as nat),
{
    lemma_lex_from_entries(t, 0);
    let tok = lex(t)[i];
    assert(lex(t) == lex_from(t, 0));
    assert(0 <= tok.1 < t.len());
    law_longest_match(t, tok.1);
}

/// The tokens that lexing from `p` reports are reported kinds, each at
/// least one char long, within the text, starting at or after `p`, and in
/// order without overlap.
pub proof fn lemma_lex_from_ordered(t: Seq<char>, p: int)
    requires
        0 <= p,
    ensures
        forall|i: int|
            0 <= i < lex_from(t, p).len() ==> {
                let tok = #[trigger] lex_from(t, p)[i];
                &&& p <= tok.1 < tok.2 <= t.len()
                &&& is_reported(tok.0)
            },
        forall|i: int|
            0 <= i && i + 1 < lex_from(t, p).len() ==> (#[trigger] lex_from(t, p)[i]).2 <= lex_from(t, p)[i
                + 1].1,
    decreases t.len() - p,
{
    if p < t.len() {
        lemma_next_token_bounds(t, p);
        let (k, n) = next_token(t, p);
        lemma_lex_from_ordered(t, p + n);
        let rest = lex_from(t, p + n);
        let all = lex_from(t, p);
        if is_reported(k) {
            assert(all == seq![(k, p, p + n)] + rest);
            assert forall|i: int| 0 <= i < all.len() implies {
                let tok = #[trigger] all[i];
                &&& p <= tok.1 < tok.2 <= t.len()
                &&& is_reported(tok.0)
            } by {
                if i > 0 {
                    assert(all[i] == rest[i - 1]);
                }
            }
            assert forall|i: int| 0 <= i && i + 1 < all.len() implies (#[trigger] all[i]).2 <= all[i + 1].1 by {
                assert(all[i + 1] == rest[i]);
                if i > 0 {
                    assert(all[i] == rest[i - 1]);
                }
            }
        } else {
            assert(all == rest);
        }
    }
}

/// The bytes of the chars `s..e` of `t` are the bytes of `t` from the
/// byte offset of `s` to that of `e`.
pub proof fn lemma_encode_subrange(t: Seq<char>, s: int, e: int)
    requires
        0 <= s <= e <= t.len(),
    ensures
        encode_utf8(t.subrange(s, e)) == encode_utf8(t).subrange(byte_offset(t, s) as int, byte_offset(t, e) as int),
{
    let a = t.take(s);
    let m = t.subrange(s, e);
    let z = t.skip(e);
    assert(t.take(e) =~= a + m);
    assert(t =~= (a + m) + z);
    lemma_encode_utf8_concat(a, m);
    lemma_encode_utf8_concat(a + m, z);
    assert(encode_utf8(t).subrange(byte_offset(t, s) as int, byte_offset(t, e) as int) =~= encode_utf8(m));
}

/// A token the tokenizer gives for a text is no white space or comment,
/// and covers a non-empty byte range within the text whose bytes are those
/// of its content.
proof fn lemma_token_well_formed(t: Seq<char>, d: TokenData, tok: (Token, int, int))
    requires
        token_data_of(d, t, tok),
        0 <= tok.1 < tok.2 <= t.len(),
        is_reported(tok.0),
    ensures
        d.token != Token::Whitespace,
        d.token != Token::LineComment,
        d.span.start < d.span.end <= byte_len(t),
        encode_utf8(d.content@) == encode_utf8(t).subrange(d.span.start as int, d.span.end as int),
{
    lemma_byte_offset_monotone(t, tok.1, tok.2);
    lemma_byte_offset_monotone(t, tok.2, t.len() as int);
    lemma_encode_subrange(t, tok.1, tok.2);
}

/// The tokens that the tokenizer gives for a text are no white space or
/// comment, each covers a non-empty byte range within the text whose bytes
/// are those of its content, and they come in order without overlap.
#[verifier::rlimit(50)]
#[verifier::spinoff_prover]
pub proof fn law_tokens_well_formed(t: Seq<char>, toks: Seq<TokenData>)
    requires
        toks.len() == lex(t).len(),
        forall|i: int| 0 <= i < toks.len() ==> token_data_of(#[trigger] toks[i], t, lex(t)[i]),
    ensures
        forall|i: int|
            0 <= i < toks.len() ==> {
                &&& (#[trigger] toks[i]).token != Token::Whitespace
                &&& toks[i].token != Token::LineComment
                &&& toks[i].span.start < toks[i].span.end <= byte_len(t)
                &&& encode_utf8(toks[i].content@) == encode_utf8(t).subrange(
                    toks[i].span.start as int,
                    toks[i].span.end as int,
                )
            },
        forall|i: int| 0 <= i && i + 1 < toks.len() ==> (#[trigger] toks[i]).span.end <= toks[i + 1].span.start,
{
    lemma_lex_from_ordered(t, 0);
    let l = lex(t);
    assert(l == lex_from(t, 0));
    assert forall|i: int| 0 <= i < toks.len() implies {
        &&& (#[trigger] toks[i]).token != Token::Whitespace
        &&& toks[i].token != Token::LineComment
        &&& toks[i].span.start < toks[i].span.end <= byte_len(t)
        &&& encode_utf8(toks[i].content@) == encode_utf8(t).subrange(
            toks[i].span.start as int,
            toks[i].span.end as int,
        )
    } by {
        assert(token_data_of(toks[i], t, l[i]));
        lemma_token_well_formed(t, toks[i], l[i]);
    }
    assert forall|i: int| 0 <= i && i + 1 < toks.len() implies (#[trigger] toks[i]).span.end
        <= toks[i + 1].span.start by {
        assert(token_data_of(toks[i], t, l[i]));
        assert(token_data_of(toks[i + 1], t, l[i + 1]));
        assert(l[i].2 <= l[i + 1].1);
        assert(l[i + 1].1 < l[i + 1].2 <= t.len());
        lemma_byte_offset_monotone(t, l[i].2, l[i + 1].1);
    }
}

} // verus!
