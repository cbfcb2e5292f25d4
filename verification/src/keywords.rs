//! The spelling of each keyword of the DSRV language, written down once as
//! a table, and the laws that hold the tokenizer to it: a keyword kind is
//! only ever given to its own spelling, and a word spelled like a keyword is
//! never an identifier.

use vstd::prelude::*;
use crate::lexer::{
    keyword_token, lex, next_token, token_data_of, Token, TokenData,
};
use crate::grammar::lemma_lex_from_entries;

verus! {

/// How each keyword is written; the other kinds have no fixed letters (the
/// empty word).
pub open spec fn keyword_spelling(k: Token) -> Seq<char> {
    match k {
        Token::True => seq!['t', 'r', 'u', 'e'],
        Token::False => seq!['f', 'a', 'l', 's', 'e'],
        Token::If => seq!['i', 'f'],
        Token::Then => seq!['t', 'h', 'e', 'n'],
        Token::Else => seq!['e', 'l', 's', 'e'],
        Token::In => seq!['i', 'n'],
        Token::Out => seq!['o', 'u', 't'],
        Token::Aux => seq!['a', 'u', 'x'],
        Token::Var => seq!['v', 'a', 'r'],
        Token::Dynamic => seq!['d', 'y', 'n', 'a', 'm', 'i', 'c'],
        Token::Defer => seq!['d', 'e', 'f', 'e', 'r'],
        Token::Eval => seq!['e', 'v', 'a', 'l'],
        Token::Update => seq!['u', 'p', 'd', 'a', 't', 'e'],
        Token::Default => seq!['d', 'e', 'f', 'a', 'u', 'l', 't'],
        Token::IsDefined => seq!['i', 's', '_', 'd', 'e', 'f', 'i', 'n', 'e', 'd'],
        Token::When => seq!['w', 'h', 'e', 'n'],
        Token::Latch => seq!['l', 'a', 't', 'c', 'h'],
        Token::Init => seq!['i', 'n', 'i', 't'],
        Token::MonitoredAt => seq!['m', 'o', 'n', 'i', 't', 'o', 'r', 'e', 'd', '_', 'a', 't'],
        Token::Dist => seq!['d', 'i', 's', 't'],
        Token::Int => seq!['I', 'n', 't'],
        Token::Float => seq!['F', 'l', 'o', 'a', 't'],
        Token::Bool => seq!['B', 'o', 'o', 'l'],
        Token::Str => seq!['S', 't', 'r'],
        Token::Unit => seq!['U', 'n', 'i', 't'],
        Token::List => seq!['L', 'i', 's', 't'],
        Token::MapKeyword => seq!['M', 'a', 'p'],
        Token::Sin => seq!['s', 'i', 'n'],
        Token::Cos => seq!['c', 'o', 's'],
        Token::Tan => seq!['t', 'a', 'n'],
        Token::Abs => seq!['a', 'b', 's'],
        _ => Seq::empty(),
    }
}

/// The kind is a keyword: it has a spelling.
pub open spec fn is_keyword_kind(k: Token) -> bool {
    keyword_spelling(k).len() > 0
}

/// The keywords are exactly the words of the table: a word is the keyword
/// `k` if and only if it is `k`'s spelling.
pub proof fn law_keyword_table(w: Seq<char>, k: Token)
    ensures
        keyword_token(w) == Some(k) <==> (is_keyword_kind(k) && w == keyword_spelling(k)),
{
    if keyword_token(w) == Some(k) {
        assert(w =~= keyword_spelling(k));
    }
    if is_keyword_kind(k) && w == keyword_spelling(k) {
        assert(keyword_token(keyword_spelling(k)) == Some(k));
    }
}

/// Two keyword kinds spelled the same are the same kind: each spelling
/// names one keyword.
pub proof fn law_keyword_spellings_distinct(k1: Token, k2: Token)
    requires
        is_keyword_kind(k1),
        keyword_spelling(k1) == keyword_spelling(k2),
    ensures
        k1 == k2,
{
    law_keyword_table(keyword_spelling(k1), k1);
    law_keyword_table(keyword_spelling(k1), k2);
}

/// At any position, a keyword kind is chosen only for its own spelling, and
/// an identifier only for a word that is no keyword.
proof fn lemma_next_token_keyword(t: Seq<char>, p: int)
    requires
        0 <= p < t.len(),
    ensures
        is_keyword_kind(next_token(t, p).0) ==> t.subrange(p, p + next_token(t, p).1)
            == keyword_spelling(next_token(t, p).0),
        next_token(t, p).0 == Token::Identifier ==> keyword_token(
            t.subrange(p, p + next_token(t, p).1),
        ) is None,
{
    let (k, n) = next_token(t, p);
    let w = t.subrange(p, p + n);
    match keyword_token(w) {
        Some(kw) => {
            law_keyword_table(w, kw);
        },
        None => {},
    }
    if is_keyword_kind(k) && keyword_token(w) == Some(k) {
        law_keyword_table(w, k);
    }
}

/// The tokens the tokenizer gives for a text: one of a keyword kind has
/// exactly that keyword's spelling as its content, and an identifier's
/// content is spelled like no keyword.
pub proof fn law_keywords_spelled(t: Seq<char>, toks: Seq<TokenData>)
    requires
        toks.len() == lex(t).len(),
        forall|i: int| 0 <= i < toks.len() ==> token_data_of(#[trigger] toks[i], t, lex(t)[i]),
    ensures
        forall|i: int|
            0 <= i < toks.len() && is_keyword_kind(#[trigger] toks[i].token) ==> toks[i].content@
                == keyword_spelling(toks[i].token),
        forall|i: int, k: Token|
            0 <= i < toks.len() && (#[trigger] toks[i]).token == Token::Identifier && is_keyword_kind(k)
                ==> toks[i].content@ != #[trigger] keyword_spelling(k),
{
    lemma_lex_from_entries(t, 0);
    let l = lex(t);
    assert(l == crate::lexer::lex_from(t, 0));
    assert forall|i: int| 0 <= i < toks.len() implies {
        &&& is_keyword_kind(#[trigger] toks[i].token) ==> toks[i].content@ == keyword_spelling(toks[i].token)
        &&& toks[i].token == Token::Identifier ==> keyword_token(toks[i].content@) is None
    } by {
        assert(token_data_of(toks[i], t, l[i]));
        let tok = l[i];
        assert(tok == crate::lexer::lex_from(t, 0)[i]);
        assert(0 <= tok.1 < t.len());
        assert(next_token(t, tok.1) == (tok.0, (tok.2 - tok.1) as nat));
        crate::grammar::lemma_lex_from_ordered(t, 0);
        assert(tok.1 < tok.2);
        lemma_next_token_keyword(t, tok.1);
        assert(t.subrange(tok.1, tok.1 + next_token(t, tok.1).1) == toks[i].content@);
    }
    assert forall|i: int, k: Token|
        0 <= i < toks.len() && (#[trigger] toks[i]).token == Token::Identifier && is_keyword_kind(k)
            implies toks[i].content@ != #[trigger] keyword_spelling(k) by {
        law_keyword_table(toks[i].content@, k);
    }
}

} // verus!
