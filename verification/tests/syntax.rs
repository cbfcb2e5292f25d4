use dsrv_lsp::lexer::{tokenize, Token};
use dsrv_lsp::lexer_error::{lex_block_comment, LexerError};
use dsrv_lsp::protocol::{Position, Range};
use dsrv_lsp::syntax::{token_to_syntaxkind, Spanned, SyntaxKind};

#[test]
fn tokens_map_to_syntax_kinds() {
    assert_eq!(token_to_syntaxkind(&Token::Whitespace), Some(SyntaxKind::Whitespace));
    assert_eq!(token_to_syntaxkind(&Token::LineComment), Some(SyntaxKind::Comment));
    assert_eq!(token_to_syntaxkind(&Token::IntLiteral), Some(SyntaxKind::Number));
    assert_eq!(token_to_syntaxkind(&Token::FloatLiteral), Some(SyntaxKind::Number));
    assert_eq!(token_to_syntaxkind(&Token::True), Some(SyntaxKind::BoolLit));
    assert_eq!(token_to_syntaxkind(&Token::Var), Some(SyntaxKind::AuxKw));
    assert_eq!(token_to_syntaxkind(&Token::MapKeyword), Some(SyntaxKind::MapKw));
    assert_eq!(token_to_syntaxkind(&Token::AndAnd), Some(SyntaxKind::DoubleAmp));
    assert_eq!(token_to_syntaxkind(&Token::Impl), Some(SyntaxKind::Arrow));
    assert_eq!(token_to_syntaxkind(&Token::Le), Some(SyntaxKind::LAngleEq));
    assert_eq!(token_to_syntaxkind(&Token::Unit), None);
}

#[test]
fn spanned_nodes_keep_their_range() {
    let node = 42u8;
    let s = Spanned::new(&node, 3, 9);
    assert_eq!((*s.node, s.start, s.end), (42, 3, 9));
}

#[test]
fn lexer_errors_default_to_invalid() {
    assert_eq!(LexerError::default(), LexerError::Invalid);
}

#[test]
fn lexer_error_diagnostics() {
    let d = LexerError::Invalid.into_diags(5..6, "in x\n#");
    assert_eq!(d.message, "Invalid token");
    assert_eq!(d.range, Range::new(Position::new(1, 0), Position::new(1, 1)));
    assert_eq!(d.severity, None);
    assert_eq!(d.source, None);
    let d = LexerError::UnclosedComment.into_diags(0..7, "(* abc\n");
    assert_eq!(d.message, "Unclosed block comment");
    assert_eq!(d.range, Range::new(Position::new(0, 0), Position::new(1, 0)));
}

#[test]
fn block_comments_close_at_their_match() {
    assert_eq!(lex_block_comment(" a *) rest"), (5, Ok(())));
    assert_eq!(lex_block_comment("*)"), (2, Ok(())));
    assert_eq!(lex_block_comment(" (* inner *) outer *) x"), (21, Ok(())));
    assert_eq!(lex_block_comment("(**)*)"), (6, Ok(())));
    assert_eq!(lex_block_comment("ϕ *)"), (5, Ok(())));
}

#[test]
fn unclosed_block_comments_take_the_rest() {
    assert_eq!(lex_block_comment(""), (0, Err(LexerError::UnclosedComment)));
    assert_eq!(lex_block_comment(" (* *) "), (7, Err(LexerError::UnclosedComment)));
    assert_eq!(lex_block_comment("ϕϕ"), (4, Err(LexerError::UnclosedComment)));
    assert_eq!(lex_block_comment("*"), (1, Err(LexerError::UnclosedComment)));
}

fn token_kinds(text: &str) -> Vec<Token> {
    tokenize(text).iter().map(|t| t.token).collect()
}

#[test]
fn longest_token_is_taken() {
    assert_eq!(token_kinds("inx"), vec![Token::Identifier]);
    assert_eq!(token_kinds("in"), vec![Token::In]);
    assert_eq!(token_kinds("in_"), vec![Token::Identifier]);
    assert_eq!(token_kinds("1.5"), vec![Token::FloatLiteral]);
    assert_eq!(token_kinds("1."), vec![Token::IntLiteral, Token::Dot]);
    assert_eq!(token_kinds("1.x"), vec![Token::IntLiteral, Token::Dot, Token::Identifier]);
    assert_eq!(token_kinds("==>"), vec![Token::EqEq, Token::Gt]);
    assert_eq!(token_kinds("=>="), vec![Token::Impl, Token::Eq]);
    assert_eq!(token_kinds("+++"), vec![Token::Concat, Token::Plus]);
    assert_eq!(token_kinds("\"a\\\"b\"c"), vec![Token::StringLiteral, Token::Identifier]);
    assert_eq!(token_kinds("monitored_at"), vec![Token::MonitoredAt]);
    assert_eq!(token_kinds("monitored_at2"), vec![Token::Identifier]);
}

#[test]
fn errors_only_where_no_token_starts() {
    assert_eq!(token_kinds("#"), vec![Token::Error]);
    assert_eq!(token_kinds("\"open"), vec![Token::Error]);
    assert_eq!(token_kinds("a # b"), vec![Token::Identifier, Token::Error, Token::Identifier]);
}
