use dsrv_lsp::fixtures;
use dsrv_lsp::lexer::{filter_suggestions, get_context_slice, tokenize, Token, TokenData};

#[test]
fn test_tokenize_simple_input() {
    let input = fixtures::input_untyped_valid_simple();
    let tokens = fixtures::tokenize_input(input);

    println!("Tokens: {:#?}", tokens);

    assert!(tokens.len() == 11, "Expected 11 tokens, got {}", tokens.len());

    assert!(
        matches!(tokens[3].token, Token::Identifier),
        "Expected Identifier token, got {:?}",
        tokens[3].token
    );

    assert!(tokens[7].content == "=", "Expected '=' token, got {:?}", tokens[7].content)
}

#[test]
fn test_tokenize_typed_input() {
    let input = fixtures::input_typed_valid_simple();
    let tokens = fixtures::tokenize_input(input);

    println!("Tokens: {:#?}", tokens);

    assert!(
        matches!(tokens[2].token, Token::Colon),
        "Expected Colon token, got {:?}",
        tokens[2].token
    );
    assert!(
        matches!(tokens[7].token, Token::Int),
        "Expected Int token, got {:?}",
        tokens[7].token
    );
}

#[test]
fn test_tokenize_invalid_input() {
    let input = fixtures::input_untyped_invalid_simple();
    let tokens = fixtures::tokenize_input(input);

    println!("Tokens: {:#?}", tokens);

    assert!(!tokens.is_empty(), "Expected tokens, got none");

    assert!(
        matches!(tokens.last().unwrap().token, Token::Eq),
        "Expected Eq token, got {:?}",
        tokens.last().unwrap().token
    );
}

#[test]
fn test_tokenize_empty_input() {
    let input = fixtures::input_empty();
    let tokens = fixtures::tokenize_input(input);

    println!("Tokens: {:#?}", tokens);

    assert!(tokens.is_empty(), "Expected no tokens, got {:?}", tokens);
}

#[test]
fn test_get_context_slide() {
    let input = fixtures::input_untyped_invalid_simple();
    let tokens = fixtures::tokenize_input(input);

    let context_slide = get_context_slice(&tokens, 15, 2);

    let result = vec![
        TokenData { token: Token::Identifier, content: "z".to_string(), span: 11..12 },
        TokenData { token: Token::Eq, content: "=".to_string(), span: 13..14 },
    ];

    println!("Context slide: {:#?}", context_slide);

    assert!(
        context_slide.len() == 2,
        "Expected 2 tokens in context slide, got {}",
        context_slide.len()
    );
    assert_eq!(
        context_slide, result,
        "Expected context slide to be {:?}, got {:?}",
        result, context_slide
    );
}

#[test]
fn test_get_context_slide_complex() {
    let input = fixtures::input_untyped_complex_invalid();
    let tokens = fixtures::tokenize_input(input);

    let context_slide = get_context_slice(&tokens, 250, 3);

    println!("Context slide: {:#?}", context_slide);

    let result = vec![
        TokenData { token: Token::Eq, content: "=".to_string(), span: 244..245 },
        TokenData { token: Token::MapKeyword, content: "Map".to_string(), span: 246..249 },
        TokenData { token: Token::Dot, content: ".".to_string(), span: 249..250 },
    ];

    assert!(
        context_slide.len() == 3,
        "Expected 3 tokens in context slide, got {}",
        context_slide.len()
    );
    assert_eq!(
        context_slide, result,
        "Expected context slide to be {:?}, got {:?}",
        result, context_slide
    );
}

#[test]
fn test_filter_suggestions_simple() {
    let input = fixtures::input_untyped_invalid_simple();
    let tokens = fixtures::tokenize_input(input);

    let filter = filter_suggestions(15, &tokens);

    println!("Filter: {:#?}", filter);

    assert!(!filter.is_empty(), "Expected suggestions, got none");

    assert_eq!(filter, vec!["expr"], "Expected [\"expr\"], but got {:?}", filter);
}

#[test]
fn test_filter_suggestions_complex() {
    let input = fixtures::input_untyped_complex_invalid();
    let tokens = fixtures::tokenize_input(input);

    let filter = filter_suggestions(250, &tokens);

    println!("Filter: {:#?}", filter);

    assert!(!filter.is_empty(), "Expected suggestions, got none");

    assert_eq!(filter, vec!["map method"], "Expected [\"map method\"], but got {:?}", filter);
}

fn kinds(text: &str) -> Vec<Token> {
    tokenize(text).iter().map(|t| t.token).collect()
}

#[test]
fn longest_match_prefers_longer_operators() {
    assert_eq!(
        kinds("a => b == c <= d >= e && f || g ++ h"),
        vec![
            Token::Identifier, Token::Impl, Token::Identifier, Token::EqEq, Token::Identifier,
            Token::Le, Token::Identifier, Token::Ge, Token::Identifier, Token::AndAnd,
            Token::Identifier, Token::OrOr, Token::Identifier, Token::Concat, Token::Identifier
        ]
    );
}

#[test]
fn keywords_win_over_identifiers_of_the_same_length_only() {
    assert_eq!(
        kinds("in init inx Int Integer is_defined monitored_at Map List"),
        vec![
            Token::In, Token::Init, Token::Identifier, Token::Int, Token::Identifier,
            Token::IsDefined, Token::MonitoredAt, Token::MapKeyword, Token::List
        ]
    );
}

#[test]
fn numbers_and_dots() {
    assert_eq!(kinds("1.5"), vec![Token::FloatLiteral]);
    assert_eq!(kinds("1."), vec![Token::IntLiteral, Token::Dot]);
    assert_eq!(kinds("1.x"), vec![Token::IntLiteral, Token::Dot, Token::Identifier]);
    assert_eq!(kinds(".5"), vec![Token::Dot, Token::IntLiteral]);
    // Unicode decimal digits are digits.
    assert_eq!(kinds("\u{663}\u{664}"), vec![Token::IntLiteral]);
}

#[test]
fn comments_strings_and_errors() {
    let toks = tokenize("x // note \u{e9}\ny = \"a\\\"b\" & \\");
    let ks: Vec<Token> = toks.iter().map(|t| t.token).collect();
    assert_eq!(
        ks,
        vec![Token::Identifier, Token::Identifier, Token::Eq, Token::StringLiteral, Token::Error, Token::Error]
    );
    assert_eq!(toks[3].content, "\"a\\\"b\"");
    assert_eq!(toks[4].content, "&");
    // unterminated string: the error covers the whole rest
    let toks = tokenize("s = \"abc");
    assert_eq!(toks.len(), 3);
    assert_eq!(toks[2].token, Token::Error);
    assert_eq!(toks[2].content, "\"abc");
    assert_eq!(toks[2].span, 4..8);
}

#[test]
fn spans_are_byte_offsets() {
    // 'é' takes two bytes, NBSP is whitespace
    let toks = tokenize("\u{e9} x\u{a0}y");
    assert_eq!(toks.len(), 3);
    assert_eq!(toks[0].token, Token::Error);
    assert_eq!(toks[0].span, 0..2);
    assert_eq!(toks[1].span, 3..4);
    assert_eq!(toks[2].content, "y");
    assert_eq!(toks[2].span, 6..7);
}

#[test]
fn context_slice_edges() {
    let tokens = tokenize("x = fo");
    // the partial identifier "fo" is left out
    let ctx = get_context_slice(&tokens, 6, 3);
    assert_eq!(ctx.iter().map(|t| t.token).collect::<Vec<_>>(), vec![Token::Identifier, Token::Eq]);
    assert_eq!(get_context_slice(&tokens, 0, 3), vec![]);
    assert_eq!(filter_suggestions(0, &tokens), vec!["toplevel"]);
    assert_eq!(filter_suggestions(6, &tokens), vec!["expr"]);
    let tokens = tokenize("in x: ");
    assert_eq!(filter_suggestions(6, &tokens), vec!["type"]);
    assert_eq!(filter_suggestions(2, &tokens), vec!["_"]);
    let tokens = tokenize("z = List.");
    assert_eq!(filter_suggestions(9, &tokens), vec!["list method"]);
    let tokens = tokenize("z = x.");
    assert_eq!(filter_suggestions(6, &tokens), Vec::<&str>::new());
    let tokens = tokenize("z = (x)");
    assert_eq!(filter_suggestions(7, &tokens), vec!["toplevel", "expr"]);
}

#[test]
fn suggestions_depend_only_on_tokens_before_cursor() {
    let input = fixtures::input_untyped_valid_simple();
    let tokens = fixtures::tokenize_input(input);
    let allowed = ["toplevel", "expr", "_", "type", "list method", "map method"];
    for c in 0..input.len() + 2 {
        let p = tokens.iter().position(|t| t.span.start >= c).unwrap_or(tokens.len());
        let all = filter_suggestions(c, &tokens);
        assert_eq!(all, filter_suggestions(c, &tokens[..p]));
        if p == 0 {
            assert_eq!(all, vec!["toplevel"]);
        }
        assert!(all.len() <= 2);
        assert!(all.iter().all(|w| allowed.contains(w)));
    }
}
