//! Small DSRV documents for quick checks.

use vstd::prelude::*;
use crate::lexer::{lex, token_data_of, tokenize, TokenData};

verus! {

pub fn input_valid_simple() -> (r: &'static str)
    ensures
        r@ == ("in x\nin y\nout z\nz = x + y")@,
{
    "in x\nin y\nout z\nz = x + y"
}

pub fn input_valid_typed() -> (r: &'static str)
    ensures
        r@ == ("in x: Int\nin y: Int\nout z: Int\n\nz = x + y")@,
{
    "in x: Int\nin y: Int\nout z: Int\n\nz = x + y"
}

pub fn input_invalid_simple() -> (r: &'static str)
    ensures
        r@ == ("in x\nout z\nz = ")@,
{
    "in x\nout z\nz = "
}

pub fn input_invalid_typed() -> (r: &'static str)
    ensures
        r@ == ("in x: Int\n in y: Str\nout z: Int\nz = x + y")@,
{
    "in x: Int\n in y: Str\nout z: Int\nz = x + y"
}

pub fn input_semantic_undeclared_var() -> (r: &'static str)
    ensures
        r@ == ("in x: Int\nout z: Int\nz = x + y")@,
{
    "in x: Int\nout z: Int\nz = x + y"
}

pub fn input_empty() -> (r: &'static str)
    ensures
        r@ == ("")@,
{
    ""
}

/// The tokens of `input`.
pub fn tokenize_input(input: &str) -> (r: Vec<TokenData>)
    ensures
        r@.len() == lex(input@).len(),
        forall|i: int| 0 <= i < r@.len() ==> token_data_of(#[trigger] r@[i], input@, lex(input@)[i]),
{
    tokenize(input)
}

} // verus!
