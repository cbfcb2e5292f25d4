use dsrv_lsp::analysis::{
    analysis_of_parse_failure, analysis_of_spec, needs_type_check, CheckOutcome, SExpr, Span, SpannedExpr,
    SpecificationSnapshot,
};
use dsrv_lsp::diagnostics::{
    checked_range_from_error, checked_report_diag, extract_range_from_error, report_diag, range_from_location_captures, ast_error_span, create_diag, create_semantic_diag, lalr_error_diag, lalr_error_diag_plain, parse_diag, parse_diag_at,
    parse_error_position, position_from_captures, semantic_error_message, source_char_at, span_range, AstError,
    DiagnosticSeverity, LalrParseError, ParseFailure, SemanticError, SemanticErrorKind,
};
use dsrv_lsp::fixtures;
use dsrv_lsp::protocol::{Position, Range};
use dsrv_lsp::text::{parse_u32, str_contains};
use ropey::Rope;

fn at(line: u32, character: u32) -> Position {
    Position::new(line, character)
}

fn failure(details: &str) -> ParseFailure {
    ParseFailure { details: details.to_string(), ast_error: None }
}

#[test]
fn diagnostics_are_dsrv_errors() {
    let d = create_diag("boom", Range::new(at(1, 2), at(3, 4)));
    assert_eq!(d.message, "boom");
    assert_eq!(d.severity, Some(DiagnosticSeverity::Error));
    assert_eq!(d.source.as_deref(), Some("DSRV"));
    assert_eq!(d.range, Range::new(at(1, 2), at(3, 4)));
}

#[test]
fn semantic_messages_have_their_kind_prefix() {
    let cases = [
        (SemanticErrorKind::TypeError, "Type error: m"),
        (SemanticErrorKind::DeferredError, "Deferred error: m"),
        (SemanticErrorKind::UndeclaredVariable, "Undeclared variable: m"),
        (SemanticErrorKind::MissingTypeAnnotation, "Missing type annotation: m"),
        (SemanticErrorKind::MissingTypeAscription, "Missing type ascription: m"),
        (SemanticErrorKind::UnsupportedDistributionConstraint, "Unsupported distribution constraint: m"),
        (SemanticErrorKind::UnsupportedLiteral, "Unsupported literal: m"),
        (SemanticErrorKind::UnsupportedExpression, "Unsupported expression: m"),
        (SemanticErrorKind::InvalidRuntimeScope, "Invalid runtime scope: m"),
        (SemanticErrorKind::UnresolvedType, "Unresolved type: m"),
    ];
    for (kind, expected) in cases {
        let e = SemanticError { kind, message: "m".to_string(), span: None };
        assert_eq!(semantic_error_message(&e), expected);
    }
}

#[test]
fn semantic_diagnostics_cover_their_span() {
    let rope = Rope::from_str("in x\nout z\nz = x + y");
    let d = create_semantic_diag(&rope, "Undeclared variable: y", Some(Span { start: 19, end: 20 }));
    assert_eq!(d.range, Range::new(at(2, 8), at(2, 9)));
    assert_eq!(d.message, "Undeclared variable: y");
    let d = create_semantic_diag(&rope, "m", None);
    assert_eq!(d.range, Range::new(at(0, 0), at(0, 0)));
    let d = create_semantic_diag(&rope, "m", Some(Span { start: 5, end: 500 }));
    assert_eq!(d.range, Range::new(at(1, 0), at(0, 0)));
}

#[test]
fn span_ranges_follow_lines() {
    let text = "ab\ncd";
    assert_eq!(span_range(text, Span { start: 1, end: 4 }), Range::new(at(0, 1), at(1, 1)));
    assert_eq!(span_range(text, Span { start: 5, end: 6 }), Range::new(at(1, 2), at(0, 0)));
}

#[test]
fn chars_at_positions() {
    let text = "ab\r\ncd\n\nx \\ y";
    assert_eq!(source_char_at(text, at(0, 1)), Some('b'));
    assert_eq!(source_char_at(text, at(0, 2)), None);
    assert_eq!(source_char_at(text, at(1, 0)), Some('c'));
    assert_eq!(source_char_at(text, at(2, 0)), None);
    assert_eq!(source_char_at(text, at(3, 2)), Some('\\'));
    assert_eq!(source_char_at(text, at(4, 0)), None);
    assert_eq!(source_char_at("a\r", at(0, 1)), Some('\r'));
    assert_eq!(source_char_at("é", at(0, 0)), Some('\u{c3}'));
    assert_eq!(source_char_at("", at(0, 0)), None);
    assert_eq!(source_char_at("a\n", at(1, 0)), None);
}

#[test]
fn u32_parsing_matches_std() {
    for s in ["0", "7", "+12", "4294967295", "4294967296", "", "+", "-1", "1a", "٣", "00012", " 1"] {
        assert_eq!(parse_u32(s), s.parse::<u32>().ok(), "{s:?}");
    }
}

#[test]
fn substring_search_matches_std() {
    for (h, n) in [("abc", "bc"), ("abc", "cb"), ("abc", ""), ("", "a"), ("aaa", "aaaa"), ("xUnrecognized EOFy", "Unrecognized EOF")] {
        assert_eq!(str_contains(h, n), h.contains(n), "{h:?} {n:?}");
    }
}

#[test]
fn location_found_in_parser_report() {
    assert_eq!(parse_error_position("error at line 3, column 7: oops"), at(2, 6));
    assert_eq!(parse_error_position("line  12,column   1"), at(11, 0));
    assert_eq!(parse_error_position("no location here"), at(0, 0));
    assert_eq!(parse_error_position("line 0, column 0"), at(0, 0));
    assert_eq!(parse_error_position("line 99999999999, column 5"), at(0, 4));
}

#[test]
fn positions_from_capture_groups() {
    assert_eq!(position_from_captures(&None), at(0, 0));
    let groups = Some(vec![Some("line 2, column 3".to_string()), Some("2".to_string()), Some("3".to_string())]);
    assert_eq!(position_from_captures(&groups), at(1, 2));
    let groups = Some(vec![Some("whole".to_string()), None]);
    assert_eq!(position_from_captures(&groups), at(0, 0));
    let groups = Some(vec![Some("w".to_string()), Some("x".to_string()), Some("+5".to_string())]);
    assert_eq!(position_from_captures(&groups), at(0, 4));
}

#[test]
fn parse_diagnostics_by_report_words() {
    let text = "in x\nin y\nout z\n\n z = x \\ y";
    let d = parse_diag(text, &failure("UnrecognizedEof { .. }\nUnrecognized EOF found at line 2, column 3"));
    assert_eq!(d.message, "Syntax error: Unexpected EOF");
    assert_eq!(d.range, Range::new(at(1, 2), at(1, 2)));
    let d = parse_diag(text, &failure("InvalidToken at line 5, column 8"));
    assert_eq!(d.message, "Syntax error: Invalid Token");
    assert_eq!(d.range, Range::new(at(4, 7), at(4, 7)));
    let d = parse_diag(text, &failure("Unrecognized token `\\` found at line 5, column 8"));
    assert_eq!(d.message, "Syntax error: Invalid Token");
    assert_eq!(d.range, Range::new(at(4, 7), at(4, 7)));
    let d = parse_diag(text, &failure("Unrecognized token `y` found at line 5, column 10"));
    assert_eq!(d.message, "Syntax error: Unrecognized token");
    assert_eq!(d.range, Range::new(at(4, 9), at(4, 10)));
    let d = parse_diag(text, &failure("ExtraToken at line 1, column 1"));
    assert_eq!(d.message, "Syntax error: Extra token:");
    assert_eq!(d.range, Range::new(at(0, 0), at(0, 1)));
    let d = parse_diag(text, &failure("UnrecognizedToken at line 1, column 2"));
    assert_eq!(d.message, "Syntax error: Unrecognized token");
    assert_eq!(d.range, Range::new(at(0, 1), at(0, 2)));
    let d = parse_diag(text, &failure("something else"));
    assert_eq!(d.message, "Syntax error: Invalid DSRV syntax");
    assert_eq!(d.range, Range::new(at(0, 0), at(0, 0)));
}

#[test]
fn parse_diagnostics_of_tree_errors() {
    let text = "out z\nz = 1\nz = 2";
    let f = ParseFailure {
        details: "Ast(DuplicateAssignment)\nduplicate".to_string(),
        ast_error: Some((AstError::DuplicateAssignment { duplicate: Span { start: 12, end: 17 } }, "duplicate assignment to z".to_string())),
    };
    let d = parse_diag(text, &f);
    assert_eq!(d.message, "Syntax error: duplicate assignment to z");
    assert_eq!(d.range, Range::new(at(2, 0), at(2, 5)));
    let f = ParseFailure {
        details: "Ast(InvalidExpressionMap)".to_string(),
        ast_error: Some((AstError::InvalidExpressionMap, "bad map".to_string())),
    };
    let d = parse_diag_at(text, &f, at(1, 1));
    assert_eq!(d.message, "Syntax error: bad map");
    assert_eq!(d.range, Range::new(at(1, 1), at(1, 1)));
    assert_eq!(ast_error_span(&AstError::DuplicateExpressionField), None);
    assert_eq!(ast_error_span(&AstError::InvalidExpressionForest), None);
}

#[test]
fn saturating_column_after_error() {
    let d = parse_diag_at("x", &failure("ExtraToken"), at(0, u32::MAX));
    assert_eq!(d.range, Range::new(at(0, u32::MAX), at(0, u32::MAX)));
}

#[test]
fn lalr_errors_become_diagnostics() {
    let text = "in x\nout z\nz = x +";
    let d = lalr_error_diag(text, &LalrParseError::InvalidToken { location: 6 });
    assert_eq!((d.message.as_str(), d.range), ("Syntax error: Invalid Token", Range::new(at(1, 1), at(1, 1))));
    let d = lalr_error_diag(text, &LalrParseError::UnrecognizedEof { location: 18 });
    assert_eq!((d.message.as_str(), d.range), ("Syntax error: Unexpected EOF", Range::new(at(2, 7), at(2, 7))));
    let d = lalr_error_diag(text, &LalrParseError::UnrecognizedToken { start: 11, end: 12 });
    assert_eq!((d.message.as_str(), d.range), ("Syntax error: Unrecognized token", Range::new(at(2, 0), at(2, 1))));
    let d = lalr_error_diag(text, &LalrParseError::ExtraToken { start: 0, end: 100 });
    assert_eq!((d.message.as_str(), d.range), ("Syntax error: Extra token:", Range::new(at(0, 0), at(0, 0))));
    let d = lalr_error_diag(text, &LalrParseError::User { error: "\"oops\"".to_string() });
    assert_eq!((d.message.as_str(), d.range), ("User error: \"oops\"", Range::new(at(1, 1), at(1, 1))));
}

#[test]
fn failed_parse_gives_one_diagnostic_and_no_spec() {
    let text = fixtures::input_untyped_invalid_simple();
    let a = analysis_of_parse_failure(text, &failure("UnrecognizedEof\nUnrecognized EOF found at line 3, column 4"));
    assert!(a.spec.is_none());
    assert!(a.typed.is_none());
    assert!(a.spanned_nodes.is_empty());
    assert_eq!(a.diags.len(), 1);
    assert_eq!(a.diags[0].message, "Syntax error: Unexpected EOF");
    assert_eq!(a.diags[0].range, Range::new(at(2, 3), at(2, 3)));
}

fn typed_spec() -> SpecificationSnapshot {
    SpecificationSnapshot::from_parts(
        vec!["x".to_string()],
        vec!["z".to_string()],
        vec![],
        vec![("x".to_string(), "Int".to_string()), ("z".to_string(), "Int".to_string())],
    )
}

#[test]
fn only_annotated_specs_are_type_checked() {
    assert!(needs_type_check(&typed_spec()));
    assert!(!needs_type_check(&SpecificationSnapshot::from_parts(vec![], vec![], vec![], vec![])));
}

#[test]
fn analysis_follows_type_check_outcome() {
    let text = fixtures::input_semantic_undeclared_var();
    let a = analysis_of_spec(text, typed_spec(), &[], Some(CheckOutcome::Passed));
    assert!(a.typed.is_some());
    assert!(a.diags.is_empty());
    assert_eq!(a.spec, Some(typed_spec()));
    let errs = vec![
        SemanticError { kind: SemanticErrorKind::UndeclaredVariable, message: "y".to_string(), span: Some(Span { start: 29, end: 30 }) },
        SemanticError { kind: SemanticErrorKind::TypeError, message: "Int vs Str".to_string(), span: None },
    ];
    let a = analysis_of_spec(text, typed_spec(), &[], Some(CheckOutcome::Failed(errs)));
    assert!(a.typed.is_none());
    assert_eq!(a.diags.len(), 2);
    assert_eq!(a.diags[0].message, "Undeclared variable: y");
    assert_eq!(a.diags[0].range, Range::new(at(2, 8), at(2, 9)));
    assert_eq!(a.diags[1].message, "Type error: Int vs Str");
    let a = analysis_of_spec(text, typed_spec(), &[], Some(CheckOutcome::Panicked));
    assert!(a.typed.is_none() && a.diags.is_empty() && a.spec.is_some());
    let untyped = SpecificationSnapshot::from_parts(vec!["x".to_string()], vec![], vec![], vec![]);
    let a = analysis_of_spec(text, untyped, &[], Some(CheckOutcome::Passed));
    assert!(a.typed.is_none() && a.diags.is_empty());
}

#[test]
fn analysis_nodes_are_sorted_declarations_and_expressions() {
    let text = "in x\nout z\nz = x";
    let spec = SpecificationSnapshot::from_parts(vec!["x".to_string()], vec!["z".to_string()], vec![], vec![]);
    let exprs = vec![SpannedExpr { node: SExpr::Var("x".to_string()), span: Span { start: 15, end: 16 } }];
    let a = analysis_of_spec(text, spec, &exprs, None);
    let spans: Vec<(u32, u32)> = a.spanned_nodes.iter().map(|n| (n.span.start, n.span.end)).collect();
    assert_eq!(spans, vec![(0, 4), (5, 10), (11, 12), (15, 16)]);
}

#[test]
fn ranges_found_in_older_reports() {
    let msg = "Error { found at line 2, column 5:line 2, column 9: unexpected }";
    assert_eq!(extract_range_from_error(msg), Some(Range::new(at(1, 4), at(1, 8))));
    assert_eq!(extract_range_from_error("nothing here"), None);
    assert_eq!(checked_range_from_error(msg), Some(Some(Range::new(at(1, 4), at(1, 8)))));
    assert_eq!(checked_range_from_error("found at line 0, column 1:line 1, column 1"), None);
    assert_eq!(checked_range_from_error("no range"), Some(None));
    let groups: Vec<Option<String>> =
        vec![Some("w".to_string()), Some("3".to_string()), Some("1".to_string()), Some("4".to_string()), Some("2".to_string())];
    assert_eq!(range_from_location_captures(&Some(groups)), Some(Range::new(at(2, 0), at(3, 1))));
    let missing: Vec<Option<String>> = vec![Some("w".to_string()), Some("3".to_string()), None];
    assert_eq!(range_from_location_captures(&Some(missing)), None);
}

#[test]
fn plain_lalr_wording_for_invalid_tokens() {
    let text = "in x\nout z";
    let d = lalr_error_diag_plain(text, &LalrParseError::InvalidToken { location: 5 });
    assert_eq!((d.message.as_str(), d.range), ("Invalid Token", Range::new(at(1, 0), at(1, 0))));
    let d = lalr_error_diag_plain(text, &LalrParseError::UnrecognizedEof { location: 10 });
    assert_eq!(d.message, "Syntax error: Unexpected EOF");
    assert_eq!(d.range, Range::new(at(1, 5), at(1, 5)));
}

#[test]
fn reports_become_diagnostics_over_their_range() {
    let debug = "UnrecognizedToken { found at line 1, column 4:line 1, column 6 }";
    let d = report_diag(debug, "unexpected token");
    assert_eq!(d.message, "unexpected token");
    assert_eq!(d.range, Range::new(at(0, 3), at(0, 5)));
    let d = report_diag("no location", "bad");
    assert_eq!(d.range, Range::new(at(0, 0), at(0, 0)));
    assert_eq!(checked_report_diag(debug, "unexpected token").map(|d| d.range), Some(Range::new(at(0, 3), at(0, 5))));
    assert!(checked_report_diag("found at line 1, column 0:line 1, column 1", "x").is_none());
}
