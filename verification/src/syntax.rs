//! Kinds of the nodes and tokens of a concrete syntax tree, and spans of
//! the source that tree nodes cover.

use vstd::prelude::*;
use crate::lexer::Token;

verus! {

/// The kinds of the nodes and tokens of a concrete syntax tree.
#[derive(Debug, Clone, Copy, PartialEq, Eq, Hash, Structural)]
pub enum SyntaxKind {
    /// Trivia: white space.
    Whitespace,
    /// Trivia: a comment.
    Comment,
    /// Malformed text.
    Error,
    /// An identifier.
    Ident,
    /// A number.
    Number,
    /// A string literal.
    StringLit,
    /// `true` or `false`.
    BoolLit,
    IntType,
    FloatType,
    StrType,
    BoolType,
    InKw,
    OutKw,
    AuxKw,
    IfKw,
    ThenKw,
    ElseKw,
    DynamicKw,
    DeferKw,
    UpdateKw,
    DefaultKw,
    IsDefinedKw,
    WhenKw,
    EvalKw,
    LatchKw,
    InitKw,
    MonitoredAtKw,
    DistKw,
    ListKw,
    MapKw,
    SinKw,
    CosKw,
    TanKw,
    AbsKw,
    Plus,
    Minus,
    Star,
    Slash,
    Percent,
    DoublePipe,
    DoubleAmp,
    DoublePlus,
    EqEq,
    LAngleEq,
    RAngleEq,
    LAngle,
    RAngle,
    Bang,
    Arrow,
    Dot,
    Comma,
    Colon,
    Eq,
    LParen,
    RParen,
    LBracket,
    RBracket,
    LBrace,
    RBrace,
    /// The whole specification.
    Root,
    /// An assignment statement.
    StmtAssignment,
    /// An input declaration.
    StmtInput,
    /// A binary operation.
    ExprBinOp,
    /// A conditional expression.
    ExprIf,
    /// A list expression.
    ExprList,
    /// A map expression.
    ExprMap,
    /// A parameter list.
    ParamList,
}

/// The syntax kind of a token of each kind; the unit type keyword has none.
pub open spec fn syntax_kind_of(token: Token) -> Option<SyntaxKind> {
    match token {
        Token::Whitespace => Some(SyntaxKind::Whitespace),
        Token::LineComment => Some(SyntaxKind::Comment),
        Token::Error => Some(SyntaxKind::Error),
        Token::Identifier => Some(SyntaxKind::Ident),
        Token::IntLiteral | Token::FloatLiteral => Some(SyntaxKind::Number),
        Token::StringLiteral => Some(SyntaxKind::StringLit),
        Token::True | Token::False => Some(SyntaxKind::BoolLit),
        Token::In => Some(SyntaxKind::InKw),
        Token::Out => Some(SyntaxKind::OutKw),
        Token::Aux | Token::Var => Some(SyntaxKind::AuxKw),
        Token::If => Some(SyntaxKind::IfKw),
        Token::Then => Some(SyntaxKind::ThenKw),
        Token::Else => Some(SyntaxKind::ElseKw),
        Token::Dynamic => Some(SyntaxKind::DynamicKw),
        Token::Defer => Some(SyntaxKind::DeferKw),
        Token::Update => Some(SyntaxKind::UpdateKw),
        Token::Default => Some(SyntaxKind::DefaultKw),
        Token::Eval => Some(SyntaxKind::EvalKw),
        Token::IsDefined => Some(SyntaxKind::IsDefinedKw),
        Token::When => Some(SyntaxKind::WhenKw),
        Token::Latch => Some(SyntaxKind::LatchKw),
        Token::Init => Some(SyntaxKind::InitKw),
        Token::MonitoredAt => Some(SyntaxKind::MonitoredAtKw),
        Token::Dist => Some(SyntaxKind::DistKw),
        Token::List => Some(SyntaxKind::ListKw),
        Token::MapKeyword => Some(SyntaxKind::MapKw),
        Token::Int => Some(SyntaxKind::IntType),
        Token::Float => Some(SyntaxKind::FloatType),
        Token::Str => Some(SyntaxKind::StrType),
        Token::Bool => Some(SyntaxKind::BoolType),
        Token::Sin => Some(SyntaxKind::SinKw),
        Token::Cos => Some(SyntaxKind::CosKw),
        Token::Tan => Some(SyntaxKind::TanKw),
        Token::Abs => Some(SyntaxKind::AbsKw),
        Token::Plus => Some(SyntaxKind::Plus),
        Token::Minus => Some(SyntaxKind::Minus),
        Token::Star => Some(SyntaxKind::Star),
        Token::Slash => Some(SyntaxKind::Slash),
        Token::Percent => Some(SyntaxKind::Percent),
        Token::AndAnd => Some(SyntaxKind::DoubleAmp),
        Token::OrOr => Some(SyntaxKind::DoublePipe),
        Token::Concat => Some(SyntaxKind::DoublePlus),
        Token::EqEq => Some(SyntaxKind::EqEq),
        Token::Le => Some(SyntaxKind::LAngleEq),
        Token::Ge => Some(SyntaxKind::RAngleEq),
        Token::Lt => Some(SyntaxKind::LAngle),
        Token::Gt => Some(SyntaxKind::RAngle),
        Token::Bang => Some(SyntaxKind::Bang),
        Token::Impl => Some(SyntaxKind::Arrow),
        Token::Dot => Some(SyntaxKind::Dot),
        Token::Comma => Some(SyntaxKind::Comma),
        Token::Colon => Some(SyntaxKind::Colon),
        Token::Eq => Some(SyntaxKind::Eq),
        Token::LParen => Some(SyntaxKind::LParen),
        Token::RParen => Some(SyntaxKind::RParen),
        Token::LBracket => Some(SyntaxKind::LBracket),
        Token::RBracket => Some(SyntaxKind::RBracket),
        Token::LBrace => Some(SyntaxKind::LBrace),
        Token::RBrace => Some(SyntaxKind::RBrace),
        Token::Unit => None,
    }
}

/// The syntax kind of a token, for building tree nodes from tokens.
pub fn token_to_syntaxkind(token: &Token) -> (r: Option<SyntaxKind>)
    ensures
        r == syntax_kind_of(*token),
{
    match token {
        Token::Whitespace => Some(SyntaxKind::Whitespace),
        Token::LineComment => Some(SyntaxKind::Comment),
        Token::Error => Some(SyntaxKind::Error),
        Token::Identifier => Some(SyntaxKind::Ident),
        Token::IntLiteral | Token::FloatLiteral => Some(SyntaxKind::Number),
        Token::StringLiteral => Some(SyntaxKind::StringLit),
        Token::True | Token::False => Some(SyntaxKind::BoolLit),
        Token::In => Some(SyntaxKind::InKw),
        Token::Out => Some(SyntaxKind::OutKw),
        Token::Aux | Token::Var => Some(SyntaxKind::AuxKw),
        Token::If => Some(SyntaxKind::IfKw),
        Token::Then => Some(SyntaxKind::ThenKw),
        Token::Else => Some(SyntaxKind::ElseKw),
        Token::Dynamic => Some(SyntaxKind::DynamicKw),
        Token::Defer => Some(SyntaxKind::DeferKw),
        Token::Update => Some(SyntaxKind::UpdateKw),
        Token::Default => Some(SyntaxKind::DefaultKw),
        Token::Eval => Some(SyntaxKind::EvalKw),
        Token::IsDefined => Some(SyntaxKind::IsDefinedKw),
        Token::When => Some(SyntaxKind::WhenKw),
        Token::Latch => Some(SyntaxKind::LatchKw),
        Token::Init => Some(SyntaxKind::InitKw),
        Token::MonitoredAt => Some(SyntaxKind::MonitoredAtKw),
        Token::Dist => Some(SyntaxKind::DistKw),
        Token::List => Some(SyntaxKind::ListKw),
        Token::MapKeyword => Some(SyntaxKind::MapKw),
        Token::Int => Some(SyntaxKind::IntType),
        Token::Float => Some(SyntaxKind::FloatType),
        Token::Str => Some(SyntaxKind::StrType),
        Token::Bool => Some(SyntaxKind::BoolType),
        Token::Sin => Some(SyntaxKind::SinKw),
        Token::Cos => Some(SyntaxKind::CosKw),
        Token::Tan => Some(SyntaxKind::TanKw),
        Token::Abs => Some(SyntaxKind::AbsKw),
        Token::Plus => Some(SyntaxKind::Plus),
        Token::Minus => Some(SyntaxKind::Minus),
        Token::Star => Some(SyntaxKind::Star),
        Token::Slash => Some(SyntaxKind::Slash),
        Token::Percent => Some(SyntaxKind::Percent),
        Token::AndAnd => Some(SyntaxKind::DoubleAmp),
        Token::OrOr => Some(SyntaxKind::DoublePipe),
        Token::Concat => Some(SyntaxKind::DoublePlus),
        Token::EqEq => Some(SyntaxKind::EqEq),
        Token::Le => Some(SyntaxKind::LAngleEq),
        Token::Ge => Some(SyntaxKind::RAngleEq),
        Token::Lt => Some(SyntaxKind::LAngle),
        Token::Gt => Some(SyntaxKind::RAngle),
        Token::Bang => Some(SyntaxKind::Bang),
        Token::Impl => Some(SyntaxKind::Arrow),
        Token::Dot => Some(SyntaxKind::Dot),
        Token::Comma => Some(SyntaxKind::Comma),
        Token::Colon => Some(SyntaxKind::Colon),
        Token::Eq => Some(SyntaxKind::Eq),
        Token::LParen => Some(SyntaxKind::LParen),
        Token::RParen => Some(SyntaxKind::RParen),
        Token::LBracket => Some(SyntaxKind::LBracket),
        Token::RBracket => Some(SyntaxKind::RBracket),
        Token::LBrace => Some(SyntaxKind::LBrace),
        Token::RBrace => Some(SyntaxKind::RBrace),
        Token::Unit => None,
    }
}

/// Each keyword gets the syntax kind named after it (`var` shares the kind
/// of `aux`, and `true` and `false` are both boolean literals), and the unit
/// type keyword gets none.
pub proof fn law_keyword_syntax_kinds()
    ensures
        syntax_kind_of(Token::In) == Some(SyntaxKind::InKw),
        syntax_kind_of(Token::Out) == Some(SyntaxKind::OutKw),
        syntax_kind_of(Token::Aux) == Some(SyntaxKind::AuxKw),
        syntax_kind_of(Token::Var) == Some(SyntaxKind::AuxKw),
        syntax_kind_of(Token::If) == Some(SyntaxKind::IfKw),
        syntax_kind_of(Token::Then) == Some(SyntaxKind::ThenKw),
        syntax_kind_of(Token::Else) == Some(SyntaxKind::ElseKw),
        syntax_kind_of(Token::Dynamic) == Some(SyntaxKind::DynamicKw),
        syntax_kind_of(Token::Defer) == Some(SyntaxKind::DeferKw),
        syntax_kind_of(Token::Update) == Some(SyntaxKind::UpdateKw),
        syntax_kind_of(Token::Default) == Some(SyntaxKind::DefaultKw),
        syntax_kind_of(Token::Eval) == Some(SyntaxKind::EvalKw),
        syntax_kind_of(Token::IsDefined) == Some(SyntaxKind::IsDefinedKw),
        syntax_kind_of(Token::When) == Some(SyntaxKind::WhenKw),
        syntax_kind_of(Token::Latch) == Some(SyntaxKind::LatchKw),
        syntax_kind_of(Token::Init) == Some(SyntaxKind::InitKw),
        syntax_kind_of(Token::MonitoredAt) == Some(SyntaxKind::MonitoredAtKw),
        syntax_kind_of(Token::Dist) == Some(SyntaxKind::DistKw),
        syntax_kind_of(Token::List) == Some(SyntaxKind::ListKw),
        syntax_kind_of(Token::MapKeyword) == Some(SyntaxKind::MapKw),
        syntax_kind_of(Token::Int) == Some(SyntaxKind::IntType),
        syntax_kind_of(Token::Float) == Some(SyntaxKind::FloatType),
        syntax_kind_of(Token::Str) == Some(SyntaxKind::StrType),
        syntax_kind_of(Token::Bool) == Some(SyntaxKind::BoolType),
        syntax_kind_of(Token::Sin) == Some(SyntaxKind::SinKw),
        syntax_kind_of(Token::Cos) == Some(SyntaxKind::CosKw),
        syntax_kind_of(Token::Tan) == Some(SyntaxKind::TanKw),
        syntax_kind_of(Token::Abs) == Some(SyntaxKind::AbsKw),
        syntax_kind_of(Token::True) == Some(SyntaxKind::BoolLit),
        syntax_kind_of(Token::False) == Some(SyntaxKind::BoolLit),
        syntax_kind_of(Token::Identifier) == Some(SyntaxKind::Ident),
        syntax_kind_of(Token::Unit) is None,
{
}

/// Different tokens get different syntax kinds, except the two boolean
/// literals, the two number literals, and `aux` and `var`.
#[verifier::spinoff_prover]
pub proof fn law_syntax_kinds_distinct(a: Token, b: Token)
    requires
        syntax_kind_of(a) is Some,
        syntax_kind_of(a) == syntax_kind_of(b),
    ensures
        a == b || ((a == Token::True || a == Token::False) && (b == Token::True || b == Token::False))
            || ((a == Token::IntLiteral || a == Token::FloatLiteral) && (b == Token::IntLiteral || b
            == Token::FloatLiteral)) || ((a == Token::Aux || a == Token::Var) && (b == Token::Aux || b
            == Token::Var)),
{
}

/// A tree node with the byte range `start..end` of the source it covers.
#[derive(Debug, Clone)]
pub struct Spanned<'a, T> {
    pub node: &'a T,
    pub start: usize,
    pub end: usize,
}

impl<'a, T> Spanned<'a, T> {
    /// `node` spanning `start..end`.
    pub fn new(node: &'a T, start: usize, end: usize) -> (r: Self)
        ensures
            r.node == node,
            r.start == start,
            r.end == end,
    {
        Spanned { node, start, end }
    }
}

} // verus!
