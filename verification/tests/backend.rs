use dsrv_lsp::analysis::{analysis_of_spec, extract_from_stmts, Analysis, CheckOutcome, Literal, SExpr, Span, SpannedExpr, SpecificationSnapshot};
use dsrv_lsp::backend::{
    change_action, completions_at, create_hover_item, create_hover_variable, create_variable_hover,
    get_all_declared_symbols, hover_at, hover_label, next_revision, str_trim, Backend, ChangeAction, Variables,
};
use dsrv_lsp::completions::{get_builtin_by_label, CompletionItemKind, DsrvBuiltIn, InsertTextFormat};
use dsrv_lsp::completions::create_item;
use dsrv_lsp::completions::{completion_kind_from_str, insert_format_from_str, json_to_completionItem, BuiltinEntry};
use dsrv_lsp::fixtures;
use dsrv_lsp::lexer::tokenize;
use dsrv_lsp::protocol::{Position, Range};
use ropey::Rope;

fn in_builtin() -> DsrvBuiltIn {
    DsrvBuiltIn {
        label: "in",
        kind: CompletionItemKind::Keyword,
        trigger_context: &["toplevel"],
        insert_text: "in $1",
        insert_text_format: InsertTextFormat::Snippet,
        detail: "in <label> [: <Type>]",
        documentation: "Declares an input stream that provides a sequence of event values to the monitor. The label acts as a variable name in the input namespace in(ϕ)",
    }
}

fn names(v: &[&str]) -> Vec<String> {
    v.iter().map(|s| s.to_string()).collect()
}

fn simple_spec() -> SpecificationSnapshot {
    SpecificationSnapshot::from_parts(names(&["x", "y"]), names(&["z"]), vec![], vec![])
}

#[test]
fn test_create_item() {
    let dsrv = in_builtin();
    let item = create_item(&dsrv);
    println!("Created completion item: {:#?}", item);
    assert!(item.label == "in", "Expected label to be `out`, found `{}`", item.label);
    assert!(
        item.kind == Some(CompletionItemKind::Keyword),
        "Expected kind to be `FUNCTION`, found `{:?}`",
        item.kind
    );
}

#[test]
fn test_create_hover_item() {
    let dsrv = in_builtin();
    let rope = Rope::from_str(fixtures::input_untyped_valid_simple());
    let item = create_hover_item(&dsrv, &Span { start: 1, end: 2 }, &rope);
    println!("Created hover item: {:#?}", item);
    assert!(
        item.contents == format!("```dsrv\n{}\n```\n---\n{}", dsrv.detail, dsrv.documentation.trim()),
        "Hover contents do not match expected value"
    );
    assert!(
        item.range.unwrap().start == Position { line: 0, character: 1 },
        "Hover range start does not match expected value"
    );
    assert!(
        item.range.unwrap().end == Position { line: 0, character: 2 },
        "Hover range end does not match expected value"
    );
}

#[test]
fn test_create_variable() {
    let rope = Rope::from_str(fixtures::input_untyped_valid_simple());
    let var = format!(
        "```dsrv\n{} {}{}\n```\n---\n{}",
        "in",
        "x",
        "",
        get_builtin_by_label("in").unwrap().documentation
    );
    let item = create_hover_variable(&var, &Span { start: 1, end: 4 }, &rope);
    println!("Created variable hover item: {:#?}", item);
    assert!(item.contents == var, "Variable hover contents do not match expected value");
    assert!(
        item.range.unwrap().start == Position { line: 0, character: 1 },
        "Variable hover range start does not match expected value"
    );
    assert!(
        item.range.unwrap().end == Position { line: 0, character: 4 },
        "Variable hover range end does not match expected value"
    );
}

#[test]
fn declared_symbols_of_simple_spec() {
    let vars = get_all_declared_symbols(&simple_spec());
    let expected = vec![
        Variables {
            label: "x".to_string(),
            kind: CompletionItemKind::Variable,
            trigger_context: &["expr", "input_stream", "variable"],
            type_anno: None,
            detail: "Input Stream".to_string(),
        },
        Variables {
            label: "y".to_string(),
            kind: CompletionItemKind::Variable,
            trigger_context: &["expr", "input_stream", "variable"],
            type_anno: None,
            detail: "Input Stream".to_string(),
        },
        Variables {
            label: "z".to_string(),
            kind: CompletionItemKind::Variable,
            trigger_context: &["expr", "output_stream", "variable"],
            type_anno: None,
            detail: "Output Stream".to_string(),
        },
    ];
    assert_eq!(vars, expected);
}

#[test]
fn declared_symbols_list_aux_streams_once() {
    let spec = SpecificationSnapshot::from_parts(names(&["a"]), names(&["h", "o"]), names(&["h"]), vec![]);
    let vars = get_all_declared_symbols(&spec);
    let labels: Vec<&str> = vars.iter().map(|v| v.label.as_str()).collect();
    assert_eq!(labels, vec!["a", "h", "o"]);
    assert_eq!(vars[1].detail, "Auxiliary internal stream variable");
    assert_eq!(vars[1].trigger_context, &["expr", "aux_stream", "variable"]);
    assert_eq!(vars[2].detail, "Output Stream");
}

#[test]
fn declared_symbols_of_empty_spec() {
    let spec = SpecificationSnapshot::from_parts(vec![], vec![], vec![], vec![]);
    assert!(get_all_declared_symbols(&spec).is_empty());
}

#[test]
fn trim_removes_unicode_whitespace_at_both_ends() {
    assert_eq!(str_trim("  a b \n"), "a b");
    assert_eq!(str_trim("\u{3000}x\u{2028}"), "x");
    assert_eq!(str_trim(" \t\n "), "");
    assert_eq!(str_trim(""), "");
    assert_eq!(str_trim("ϕ"), "ϕ");
    for s in ["  a b \n", "\u{85}q\u{a0}", " \t", "plain"] {
        assert_eq!(str_trim(s), s.trim());
    }
}

#[test]
fn hover_labels_of_node_kinds() {
    assert_eq!(hover_label(&SExpr::Val(Literal::Bool(true))), Some("true"));
    assert_eq!(hover_label(&SExpr::Val(Literal::Bool(false))), Some("false"));
    assert_eq!(hover_label(&SExpr::Val(Literal::Other)), None);
    assert_eq!(hover_label(&SExpr::If), Some("If then else"));
    assert_eq!(hover_label(&SExpr::List), Some("List."));
    assert_eq!(hover_label(&SExpr::MapExpr), Some("Map."));
    assert_eq!(hover_label(&SExpr::MHasKey), Some("Map.has_key"));
    assert_eq!(hover_label(&SExpr::MonitoredAt), Some("Monitored_at"));
    assert_eq!(hover_label(&SExpr::Neg), Some("Neg"));
    assert_eq!(hover_label(&SExpr::BinOp), None);
    assert_eq!(hover_label(&SExpr::Lambda), None);
}

#[test]
fn variable_hover_shows_stream_and_type() {
    let spec = SpecificationSnapshot::from_parts(
        names(&["x"]),
        names(&["z"]),
        vec![],
        vec![("x".to_string(), "Int".to_string())],
    );
    let text = "in x: Int\nout z\nz = x";
    let rope = Rope::from_str(text);
    let h = create_variable_hover(&spec, "x", Span { start: 3, end: 4 }, &rope).unwrap();
    let expected = format!("```dsrv\nin x: Int\n```\n---\n{}", get_builtin_by_label("in").unwrap().documentation);
    assert_eq!(h.contents, expected);
    assert_eq!(h.range, Some(Range::new(Position::new(0, 3), Position::new(0, 4))));
    let h = create_variable_hover(&spec, "z", Span { start: 14, end: 15 }, &rope).unwrap();
    let expected = format!("```dsrv\nout z\n```\n---\n{}", get_builtin_by_label("out").unwrap().documentation);
    assert_eq!(h.contents, expected);
    assert_eq!(h.range, Some(Range::new(Position::new(1, 4), Position::new(1, 5))));
    let h = create_variable_hover(&spec, "w", Span { start: 0, end: 100 }, &rope).unwrap();
    assert_eq!(h.contents, "```dsrv\nstream w\n```\n---\nstream");
    assert_eq!(h.range, Some(Range::new(Position::new(0, 0), Position::new(0, 0))));
}

fn analysed(text: &str, spec: SpecificationSnapshot, exprs: &[SpannedExpr]) -> Analysis {
    analysis_of_spec(text, spec, exprs, None)
}

#[test]
fn hover_over_declaration_and_builtin() {
    let text = "in x\nout z\nz = default(x, 0)";
    let rope = Rope::from_str(text);
    let spec = SpecificationSnapshot::from_parts(names(&["x"]), names(&["z"]), vec![], vec![]);
    let exprs = vec![SpannedExpr { node: SExpr::Default, span: Span { start: 15, end: 28 } }];
    let analysis = analysed(text, spec, &exprs);
    // On the declared `x` of line 0.
    let h = hover_at(&analysis, &rope, Position::new(0, 3)).unwrap();
    assert!(h.contents.starts_with("```dsrv\nin x\n```\n---\n"));
    assert_eq!(h.range, Some(Range::new(Position::new(0, 0), Position::new(0, 4))));
    // On `default`.
    let h = hover_at(&analysis, &rope, Position::new(2, 6)).unwrap();
    let b = get_builtin_by_label("default").unwrap();
    assert_eq!(h.contents, format!("```dsrv\n{}\n```\n---\n{}", b.detail, b.documentation.trim()));
    assert_eq!(h.range, Some(Range::new(Position::new(2, 4), Position::new(2, 17))));
}

#[test]
fn no_hover_without_specification_or_node() {
    let text = "in x";
    let rope = Rope::from_str(text);
    let empty = Analysis { spec: None, typed: None, diags: vec![], spanned_nodes: vec![] };
    assert_eq!(hover_at(&empty, &rope, Position::new(0, 0)), None);
    let analysis = analysed(text, SpecificationSnapshot::from_parts(vec![], vec![], vec![], vec![]), &[]);
    assert_eq!(hover_at(&analysis, &rope, Position::new(0, 0)), Some(hover_for_in_x(&rope)));
    let text = "   ";
    let rope = Rope::from_str(text);
    let analysis = analysed(text, SpecificationSnapshot::from_parts(vec![], vec![], vec![], vec![]), &[]);
    assert_eq!(hover_at(&analysis, &rope, Position::new(0, 1)), None);
}

fn hover_for_in_x(rope: &Rope) -> dsrv_lsp::backend::Hover {
    let spec = SpecificationSnapshot::from_parts(vec![], vec![], vec![], vec![]);
    create_variable_hover(&spec, "x", Span { start: 0, end: 4 }, rope).unwrap()
}

#[test]
fn completions_after_assignment_offer_expressions_and_streams() {
    let text = "in x\nout z\nz = ";
    let rope = Rope::from_str(text);
    let tokens = tokenize(text);
    let spec = SpecificationSnapshot::from_parts(names(&["x"]), names(&["z"]), vec![], vec![]);
    let analysis = analysed(text, spec, &[]);
    let items = completions_at(&rope, &tokens, Some(&analysis), Position::new(2, 4)).unwrap();
    let n = items.len();
    assert!(n >= 2);
    assert_eq!(items[n - 2].label, "x");
    assert_eq!(items[n - 2].detail.as_deref(), Some("Input Stream"));
    assert_eq!(items[n - 1].label, "z");
    assert_eq!(items[n - 1].kind, Some(CompletionItemKind::Variable));
    assert_eq!(items[n - 1].insert_text, None);
    assert!(items[..n - 2].iter().all(|i| i.kind != Some(CompletionItemKind::Variable)));
    // At the top level no stream is offered.
    let items = completions_at(&rope, &tokens, Some(&analysis), Position::new(0, 0)).unwrap();
    assert!(items.iter().all(|i| i.label != "x" && i.label != "z"));
    assert!(items.iter().any(|i| i.label == "in"));
}

#[test]
fn no_completions_without_analysis() {
    let text = "in x\n";
    let rope = Rope::from_str(text);
    let tokens = tokenize(text);
    assert_eq!(completions_at(&rope, &tokens, None, Position::new(1, 0)), None);
    let failed = Analysis { spec: None, typed: None, diags: vec![], spanned_nodes: vec![] };
    assert_eq!(completions_at(&rope, &tokens, Some(&failed), Position::new(1, 0)), None);
}

#[test]
fn revisions_count_up_and_saturate() {
    assert_eq!(next_revision(0), 1);
    assert_eq!(next_revision(41), 42);
    assert_eq!(next_revision(u64::MAX), u64::MAX);
}

#[test]
fn stale_analyses_are_dropped() {
    let ok = Analysis { spec: Some(simple_spec()), typed: None, diags: vec![], spanned_nodes: vec![] };
    let failed = Analysis { spec: None, typed: None, diags: vec![], spanned_nodes: vec![] };
    assert_eq!(change_action(Some(3), 2, &ok), ChangeAction::Discard);
    assert_eq!(change_action(None, 2, &ok), ChangeAction::Discard);
    assert_eq!(change_action(Some(2), 2, &ok), ChangeAction::Store);
    assert_eq!(change_action(Some(2), 2, &failed), ChangeAction::Forget);
}

#[test]
fn backend_change_then_requests() {
    let mut backend = Backend::new();
    let uri = "file:///tmp/spec.dsrv";
    let text = fixtures::input_untyped_valid_simple();
    assert_eq!(backend.provide_hover(uri, Position::new(0, 3)), None);
    assert_eq!(backend.get_completion(uri, Position::new(0, 0)), None);
    let r1 = backend.begin_change(uri, text);
    let r2 = backend.begin_change(uri, text);
    assert_eq!((r1, r2), (1, 2));
    // Known but not yet analysed: no hover, and no completions.
    assert_eq!(backend.provide_hover(uri, Position::new(0, 3)), None);
    assert_eq!(backend.get_completion(uri, Position::new(0, 0)), None);
    let analysis = analysis_of_spec(text, simple_spec(), &[], Some(CheckOutcome::Passed));
    // The first change's result is stale.
    assert_eq!(backend.finish_change(uri, r1, analysis.clone()), None);
    assert_eq!(backend.provide_hover(uri, Position::new(0, 3)), None);
    let diags = backend.finish_change(uri, r2, analysis).unwrap();
    assert!(diags.is_empty());
    let h = backend.provide_hover(uri, Position::new(0, 3)).unwrap();
    assert!(h.contents.starts_with("```dsrv\nin x\n```"));
    let items = backend.get_completion(uri, Position::new(3, 4)).unwrap();
    assert!(items.iter().any(|i| i.label == "y"));
    // Other documents are unknown.
    assert_eq!(backend.finish_change("file:///other.dsrv", 1, Analysis { spec: None, typed: None, diags: vec![], spanned_nodes: vec![] }), None);
    // A new change forgets the analysis until it is done.
    assert_eq!(backend.begin_change(uri, "in q"), 3);
    assert_eq!(backend.provide_hover(uri, Position::new(0, 3)), None);
}

#[test]
fn failed_analysis_is_published_but_not_kept() {
    let mut backend = Backend::new();
    let uri = "file:///tmp/bad.dsrv";
    let r = backend.begin_change(uri, "in x\nout z\nz =");
    let diag = dsrv_lsp::diagnostics::create_diag("Syntax error: Unexpected EOF", dsrv_lsp::protocol::Range::new(Position::new(2, 3), Position::new(2, 3)));
    let failed = Analysis { spec: None, typed: None, diags: vec![diag.clone()], spanned_nodes: vec![] };
    assert_eq!(backend.finish_change(uri, r, failed), Some(vec![diag]));
    assert_eq!(backend.provide_hover(uri, Position::new(0, 3)), None);
    assert_eq!(backend.get_completion(uri, Position::new(0, 0)), None);
}

#[test]
fn catalog_entries_become_completion_items() {
    assert_eq!(completion_kind_from_str("function"), Some(CompletionItemKind::Function));
    assert_eq!(completion_kind_from_str("keyword"), Some(CompletionItemKind::Keyword));
    assert_eq!(completion_kind_from_str("constant"), Some(CompletionItemKind::Constant));
    assert_eq!(completion_kind_from_str("operator"), Some(CompletionItemKind::Operator));
    assert_eq!(completion_kind_from_str("type"), Some(CompletionItemKind::Unit));
    assert_eq!(completion_kind_from_str("Function"), None);
    assert_eq!(insert_format_from_str("snippet"), Some(InsertTextFormat::Snippet));
    assert_eq!(insert_format_from_str("plain"), Some(InsertTextFormat::PlainText));
    assert_eq!(insert_format_from_str(""), None);
    let entries = vec![
        BuiltinEntry {
            name: "sin".to_string(),
            kind: "function".to_string(),
            context: vec!["expr".to_string()],
            insert: Some("sin($1)".to_string()),
            insert_format: Some("snippet".to_string()),
            signature: Some("sin(x: Float) -> Float".to_string()),
            docs: Some("Sine.".to_string()),
        },
        BuiltinEntry {
            name: "Int".to_string(),
            kind: "mystery".to_string(),
            context: vec![],
            insert: None,
            insert_format: None,
            signature: None,
            docs: None,
        },
    ];
    let items = json_to_completionItem(&entries);
    assert_eq!(items.len(), 2);
    assert_eq!(items[0].label, "sin");
    assert_eq!(items[0].kind, Some(CompletionItemKind::Function));
    assert_eq!(items[0].detail.as_deref(), Some("sin(x: Float) -> Float"));
    assert_eq!(items[0].insert_text.as_deref(), Some("sin($1)"));
    assert_eq!(items[0].insert_text_format, Some(InsertTextFormat::Snippet));
    assert_eq!(items[0].documentation.as_deref(), Some("Sine."));
    assert_eq!(items[1].kind, None);
    assert_eq!(items[1].insert_text.as_deref(), Some("Int"));
    assert_eq!(items[1].insert_text_format, None);
    assert_eq!(items[1].detail, None);
}

fn node(node: SExpr, start: u32, end: u32) -> SpannedExpr {
    SpannedExpr { node, span: Span { start, end } }
}

#[test]
fn smallest_node_at_offset_is_found() {
    let analysis = Analysis {
        spec: None,
        typed: None,
        diags: vec![],
        spanned_nodes: vec![
            node(SExpr::If, 0, 20),
            node(SExpr::Not, 4, 8),
            node(SExpr::Neg, 5, 9),
            node(SExpr::Abs, 12, 14),
        ],
    };
    assert_eq!(analysis.node_at_offset(6).map(|n| n.node.clone()), Some(SExpr::Not));
    assert_eq!(analysis.node_at_offset(9).map(|n| n.node.clone()), Some(SExpr::Neg));
    assert_eq!(analysis.node_at_offset(14).map(|n| n.node.clone()), Some(SExpr::Abs));
    assert_eq!(analysis.node_at_offset(2).map(|n| n.node.clone()), Some(SExpr::If));
    assert_eq!(analysis.node_at_offset(21), None);
}

#[test]
fn nodes_sort_by_start_longest_first() {
    let sorted = dsrv_lsp::analysis::sort_nodes(vec![
        node(SExpr::Abs, 5, 6),
        node(SExpr::If, 0, 3),
        node(SExpr::Not, 5, 9),
        node(SExpr::Neg, 5, 6),
    ]);
    let kinds: Vec<SExpr> = sorted.into_iter().map(|n| n.node).collect();
    assert_eq!(kinds, vec![SExpr::If, SExpr::Not, SExpr::Abs, SExpr::Neg]);
}

#[test]
fn test_extract_from_stmts() {
    let source = fixtures::input_untyped_valid_simple();
    // The checker's expression nodes of `z = x + y`.
    let expressions = vec![
        node(SExpr::BinOp, 20, 25),
        node(SExpr::Var("x".to_string()), 20, 21),
        node(SExpr::Var("y".to_string()), 24, 25),
    ];
    let mut results = Vec::new();
    extract_from_stmts(&expressions, source, &mut results);

    assert_eq!(results.len(), 7);
    assert!(matches!(results[0].node, SExpr::Var(ref name) if name == "x"));
    assert!(matches!(results[1].node, SExpr::Var(ref name) if name == "y"));
    assert!(matches!(results[2].node, SExpr::Var(ref name) if name == "z"));
    assert!(matches!(results[3].node, SExpr::Var(ref name) if name == "z"));
}

#[test]
fn test_lambdas_and_folds_completion_and_hover() {
    let text = fixtures::input_lambdas_and_folds();
    let map_line = text.lines().nth(8).unwrap();
    let line_start = text.find(map_line).unwrap() as u32;
    let map_start = map_line.find("List.map").unwrap() as u32;
    let samples_start = map_line.find("samples").unwrap() as u32;
    let map_end = map_line.len() as u32;
    let spec = SpecificationSnapshot::from_parts(
        names(&["bias", "samples"]),
        names(&["adjustedSum", "allPositive", "doubled", "positives", "sum"]),
        vec![],
        vec![
            ("adjustedSum".to_string(), "Int".to_string()),
            ("allPositive".to_string(), "Bool".to_string()),
            ("bias".to_string(), "Int".to_string()),
            ("doubled".to_string(), "List<Int>".to_string()),
            ("positives".to_string(), "List<Int>".to_string()),
            ("samples".to_string(), "List<Int>".to_string()),
            ("sum".to_string(), "Int".to_string()),
        ],
    );
    let exprs = vec![
        node(SExpr::LMap, line_start + map_start, line_start + map_end),
        node(SExpr::Var("samples".to_string()), line_start + samples_start, line_start + samples_start + 7),
    ];
    let mut backend = Backend::new();
    let uri = "file:///dsrv-vscode/assets/test/test.dsrv";
    let revision = backend.begin_change(uri, text);
    let analysis = analysis_of_spec(text, spec, &exprs, Some(CheckOutcome::Passed));
    backend.finish_change(uri, revision, analysis).unwrap();

    let completion = backend
        .get_completion(uri, Position::new(8, (map_line.find("x *").unwrap() + 3) as u32))
        .expect("valid lambda document should have completion results");
    assert!(completion.iter().any(|item| item.label == "samples"), "variable completion lost the real specification: {completion:#?}");

    let map_hover = backend.provide_hover(uri, Position::new(8, map_start)).expect("expected List.map hover information");
    assert!(map_hover.contents.contains("List.map"));

    let samples_hover =
        backend.provide_hover(uri, Position::new(8, samples_start)).expect("expected lambda expression variable hover information");
    assert!(samples_hover.contents.contains("in samples: List<Int>"));
}

#[test]
fn list_methods_have_builtins() {
    for label in ["List.map", "List.filter", "List.fold"] {
        let b = get_builtin_by_label(label).unwrap();
        assert!(b.detail.starts_with(label));
        assert_eq!(b.trigger_context, &["list method"]);
    }
}
