//! Diagnostics: the syntax and semantic errors reported to the editor, and
//! how each error the parser or the type checker reports becomes one.

use vstd::prelude::*;
use ropey::Rope;
use crate::analysis::Span;
use crate::protocol::{Position, Range};
use crate::text::{has_infix, parse_u32, parse_u32_spec, str_contains};
use vstd::utf8::encode_utf8;
use crate::utils::{byte_position, byte_to_pos, rope_from_str, rope_text};

verus! {

/// How severe a diagnostic is.
#[derive(Debug, Clone, Copy, PartialEq, Eq, Structural)]
pub enum DiagnosticSeverity {
    Error,
    Warning,
    Information,
    Hint,
}

/// A message about a range of a document.
#[derive(Debug, PartialEq)]
pub struct Diagnostic {
    pub range: Range,
    pub severity: Option<DiagnosticSeverity>,
    pub source: Option<String>,
    pub message: String,
}

impl Clone for Diagnostic {
    fn clone(&self) -> (r: Self)
        ensures
            r == *self,
    {
        Diagnostic {
            range: self.range,
            severity: self.severity,
            source: match &self.source {
                Some(s) => Some(s.clone()),
                None => None,
            },
            message: self.message.clone(),
        }
    }
}

/// An error diagnostic from the DSRV server: `d` reports `msg` at `range`.
pub open spec fn is_dsrv_error(d: Diagnostic, msg: Seq<char>, range: Range) -> bool {
    &&& d.range == range
    &&& d.severity == Some(DiagnosticSeverity::Error)
    &&& d.source matches Some(s) && s@ == "DSRV"@
    &&& d.message@ == msg
}

/// An error diagnostic from the DSRV server with message `msg` at `range`.
pub fn create_diag(msg: &str, range: Range) -> (d: Diagnostic)
    ensures
        is_dsrv_error(d, msg@, range),
{
    Diagnostic {
        range,
        severity: Some(DiagnosticSeverity::Error),
        source: Some(String::from_str("DSRV")),
        message: String::from_str(msg),
    }
}

/// The position of byte `b` of `t`, or the start of the document where `b`
/// is past the end.
pub open spec fn position_or_start(t: Seq<char>, b: int) -> Position {
    match byte_position(t, b) {
        Some(p) => p,
        None => Position::zero(),
    }
}

/// The range of `t` that a span of bytes covers, each end falling back to
/// the start of the document where it is past the end.
pub open spec fn span_range_spec(t: Seq<char>, span: Span) -> Range {
    Range { start: position_or_start(t, span.start as int), end: position_or_start(t, span.end as int) }
}

pub(crate) fn position_or_start_exec(rope: &Rope, byte: usize) -> (r: Position)
    ensures
        r == position_or_start(rope_text(*rope), byte as int),
{
    match byte_to_pos(rope, byte) {
        Some(p) => p,
        None => Position::new(0, 0),
    }
}

/// The range of the rope's text that `span` covers.
pub(crate) fn span_range_in(rope: &Rope, span: Span) -> (r: Range)
    ensures
        r == span_range_spec(rope_text(*rope), span),
{
    Range::new(
        position_or_start_exec(rope, span.start as usize),
        position_or_start_exec(rope, span.end as usize),
    )
}

/// The range of `text` that `span` covers.
pub fn span_range(text: &str, span: Span) -> (r: Range)
    ensures
        r == span_range_spec(text@, span),
{
    let rope = rope_from_str(text);
    Range::new(
        position_or_start_exec(&rope, span.start as usize),
        position_or_start_exec(&rope, span.end as usize),
    )
}

/// An error diagnostic with message `msg` over the range that `span` covers
/// in the rope's text, or over the empty range at the start of the document
/// where there is no span.
pub fn create_semantic_diag(rope: &Rope, msg: &str, span: Option<Span>) -> (d: Diagnostic)
    ensures
        is_dsrv_error(
            d,
            msg@,
            match span {
                Some(s) => span_range_spec(rope_text(*rope), s),
                None => Range::zero(),
            },
        ),
{
    let range = match span {
        Some(s) => Range::new(
            position_or_start_exec(rope, s.start as usize),
            position_or_start_exec(rope, s.end as usize),
        ),
        None => Range::new(Position::new(0, 0), Position::new(0, 0)),
    };
    create_diag(msg, range)
}

/// The kinds of error the type checker reports.
#[derive(Debug, Clone, Copy, PartialEq, Eq, Structural)]
pub enum SemanticErrorKind {
    TypeError,
    DeferredError,
    UndeclaredVariable,
    MissingTypeAnnotation,
    MissingTypeAscription,
    UnsupportedDistributionConstraint,
    UnsupportedLiteral,
    UnsupportedExpression,
    InvalidRuntimeScope,
    UnresolvedType,
}

/// An error of the type checker: its kind, its message and, where the
/// checker knows it, the span of the source it is about.
#[derive(Debug, Clone, PartialEq)]
pub struct SemanticError {
    pub kind: SemanticErrorKind,
    pub message: String,
    pub span: Option<Span>,
}

/// The words that open the diagnostic of each kind of semantic error.
pub open spec fn semantic_prefix(kind: SemanticErrorKind) -> Seq<char> {
    match kind {
        SemanticErrorKind::TypeError => "Type error: "@,
        SemanticErrorKind::DeferredError => "Deferred error: "@,
        SemanticErrorKind::UndeclaredVariable => "Undeclared variable: "@,
        SemanticErrorKind::MissingTypeAnnotation => "Missing type annotation: "@,
        SemanticErrorKind::MissingTypeAscription => "Missing type ascription: "@,
        SemanticErrorKind::UnsupportedDistributionConstraint => "Unsupported distribution constraint: "@,
        SemanticErrorKind::UnsupportedLiteral => "Unsupported literal: "@,
        SemanticErrorKind::UnsupportedExpression => "Unsupported expression: "@,
        SemanticErrorKind::InvalidRuntimeScope => "Invalid runtime scope: "@,
        SemanticErrorKind::UnresolvedType => "Unresolved type: "@,
    }
}

/// Errors of different kinds open with different words, each ending in
/// `: ` before the checker's message.
pub proof fn law_semantic_prefixes(k1: SemanticErrorKind, k2: SemanticErrorKind)
    ensures
        semantic_prefix(k1) == semantic_prefix(k2) ==> k1 == k2,
        semantic_prefix(k1).len() >= 2,
        semantic_prefix(k1).last() == ' ',
        semantic_prefix(k1)[semantic_prefix(k1).len() - 2] == ':',
{
    reveal_strlit("Type error: ");
    reveal_strlit("Deferred error: ");
    reveal_strlit("Undeclared variable: ");
    reveal_strlit("Missing type annotation: ");
    reveal_strlit("Missing type ascription: ");
    reveal_strlit("Unsupported distribution constraint: ");
    reveal_strlit("Unsupported literal: ");
    reveal_strlit("Unsupported expression: ");
    reveal_strlit("Invalid runtime scope: ");
    reveal_strlit("Unresolved type: ");
    if k1 != k2 {
        let a = semantic_prefix(k1);
        let b = semantic_prefix(k2);
        if a.len() == b.len() {
            assert(a[2] != b[2] || a[14] != b[14]);
        }
    }
}

fn semantic_prefix_str(kind: SemanticErrorKind) -> (r: &'static str)
    ensures
        r@ == semantic_prefix(kind),
{
    match kind {
        SemanticErrorKind::TypeError => "Type error: ",
        SemanticErrorKind::DeferredError => "Deferred error: ",
        SemanticErrorKind::UndeclaredVariable => "Undeclared variable: ",
        SemanticErrorKind::MissingTypeAnnotation => "Missing type annotation: ",
        SemanticErrorKind::MissingTypeAscription => "Missing type ascription: ",
        SemanticErrorKind::UnsupportedDistributionConstraint => "Unsupported distribution constraint: ",
        SemanticErrorKind::UnsupportedLiteral => "Unsupported literal: ",
        SemanticErrorKind::UnsupportedExpression => "Unsupported expression: ",
        SemanticErrorKind::InvalidRuntimeScope => "Invalid runtime scope: ",
        SemanticErrorKind::UnresolvedType => "Unresolved type: ",
    }
}

/// The diagnostic message of a semantic error: the words for its kind
/// followed by the checker's message.
pub fn semantic_error_message(error: &SemanticError) -> (r: String)
    ensures
        r@ == semantic_prefix(error.kind) + error.message@,
{
    let mut r = String::from_str(semantic_prefix_str(error.kind));
    r.append(error.message.as_str());
    r
}

/// What the regex engine finds for `pattern` in `haystack`: `None` where the
/// pattern does not compile or does not match; otherwise the leftmost-first
/// match's capture groups in the order of their opening brackets, group 0
/// being the whole match, each with the text it captured if it took part.
pub uninterp spec fn regex_captures_of(pattern: Seq<char>, haystack: Seq<char>) -> Option<Seq<Option<Seq<char>>>>;

/// The texts of a list of capture groups.
pub open spec fn captures_view(c: Option<Vec<Option<String>>>) -> Option<Seq<Option<Seq<char>>>> {
    match c {
        Some(groups) => Some(
            groups@.map_values(
                |g: Option<String>|
                    match g {
                        Some(s) => Some(s@),
                        None => None,
                    },
            ),
        ),
        None => None,
    }
}

/// `regex::Regex::new(pattern)` followed by `Regex::captures(haystack)`: the
/// groups of the first match, each as an owned string. The regex crate's
/// matching is not restated here: the result is the named
/// `regex_captures_of` of the pattern and the haystack.
#[verifier::external_body]
fn regex_captures(pattern: &str, haystack: &str) -> (r: Option<Vec<Option<String>>>)
    ensures
        captures_view(r) == regex_captures_of(pattern@, haystack@),
{
    let re = regex::Regex::new(pattern).ok()?;
    let caps = re.captures(haystack)?;
    Some(caps.iter().map(|group| group.map(|m| m.as_str().to_string())).collect())
}

/// The pattern that finds a line and a column in a parser's error report.
pub open spec fn location_pattern() -> Seq<char> {
    r"line\s+(\d+),\s*column\s+(\d+)"@
}

/// The zero-based number that capture group `i` gives: the group's decimal
/// value less one (saturating at 0), where a missing group or one that is no
/// `u32` counts as 1.
pub open spec fn group_number(groups: Seq<Option<Seq<char>>>, i: int) -> u32 {
    let v: u32 = if 0 <= i < groups.len() {
        match groups[i] {
            Some(g) => match parse_u32_spec(g) {
                Some(n) => n,
                None => 1,
            },
            None => 1,
        }
    } else {
        1
    };
    if v == 0 {
        0
    } else {
        (v - 1) as u32
    }
}

/// The position that the captures of a location give: zero-based line from
/// group 1 and column from group 2; the start of the document where nothing
/// matched.
pub open spec fn position_of_captures(c: Option<Seq<Option<Seq<char>>>>) -> Position {
    match c {
        Some(groups) => Position { line: group_number(groups, 1), character: group_number(groups, 2) },
        None => Position::zero(),
    }
}

fn group_number_exec(groups: &Vec<Option<String>>, i: usize) -> (r: u32)
    ensures
        r == group_number(captures_view(Some(*groups))->0, i as int),
{
    let ghost gv = captures_view(Some(*groups))->0;
    let v: u32 = if i < groups.len() {
        match &groups[i] {
            Some(g) => match parse_u32(g.as_str()) {
                Some(n) => n,
                None => 1,
            },
            None => 1,
        }
    } else {
        1
    };
    v.saturating_sub(1)
}

/// The position that a list of capture groups of the location pattern gives.
pub fn position_from_captures(captures: &Option<Vec<Option<String>>>) -> (r: Position)
    ensures
        r == position_of_captures(captures_view(*captures)),
{
    match captures {
        Some(groups) => Position::new(group_number_exec(groups, 1), group_number_exec(groups, 2)),
        None => Position::new(0, 0),
    }
}

/// The zero-based position that a parser's error report names as "line L,
/// column C" (both counted from one there); the start of the document where
/// it names none.
pub fn parse_error_position(details: &str) -> (r: Position)
    ensures
        r == position_of_captures(regex_captures_of(location_pattern(), details@)),
{
    let captures = regex_captures(r"line\s+(\d+),\s*column\s+(\d+)", details);
    position_from_captures(&captures)
}

/// The pattern that finds the range of an error in a parser's report, as
/// "found at line L, column C:line L2, column C2".
pub open spec fn range_pattern() -> Seq<char> {
    r"found at line (\d+), column (\d+):line (\d+), column (\d+)"@
}

/// The `u32` that capture group `i` holds, if the group is there and holds
/// one.
pub open spec fn group_u32(groups: Seq<Option<Seq<char>>>, i: int) -> Option<u32> {
    if 0 <= i < groups.len() {
        match groups[i] {
            Some(g) => parse_u32_spec(g),
            None => None,
        }
    } else {
        None
    }
}

/// The four numbers of capture groups 1 to 4, where all of them are there.
pub open spec fn location_numbers(c: Option<Seq<Option<Seq<char>>>>) -> Option<(u32, u32, u32, u32)> {
    match c {
        Some(g) => match (group_u32(g, 1), group_u32(g, 2), group_u32(g, 3), group_u32(g, 4)) {
            (Some(a), Some(b), Some(x), Some(y)) => Some((a, b, x, y)),
            _ => None,
        },
        None => None,
    }
}

/// The line and column numbers found, if any, count from one.
pub open spec fn location_counts_from_one(c: Option<Seq<Option<Seq<char>>>>) -> bool {
    match location_numbers(c) {
        Some((a, b, x, y)) => a >= 1 && b >= 1 && x >= 1 && y >= 1,
        None => true,
    }
}

/// The zero-based range that the four numbers found give.
pub open spec fn location_range(c: Option<Seq<Option<Seq<char>>>>) -> Option<Range> {
    match location_numbers(c) {
        Some((a, b, x, y)) => Some(
            Range {
                start: Position { line: (a - 1) as u32, character: (b - 1) as u32 },
                end: Position { line: (x - 1) as u32, character: (y - 1) as u32 },
            },
        ),
        None => None,
    }
}

fn group_u32_exec(groups: &Vec<Option<String>>, i: usize) -> (r: Option<u32>)
    ensures
        r == group_u32(captures_view(Some(*groups))->0, i as int),
{
    if i < groups.len() {
        match &groups[i] {
            Some(g) => parse_u32(g.as_str()),
            None => None,
        }
    } else {
        None
    }
}

fn location_numbers_exec(captures: &Option<Vec<Option<String>>>) -> (r: Option<(u32, u32, u32, u32)>)
    ensures
        r == location_numbers(captures_view(*captures)),
{
    match captures {
        Some(groups) => {
            let a = group_u32_exec(groups, 1);
            let b = group_u32_exec(groups, 2);
            let x = group_u32_exec(groups, 3);
            let y = group_u32_exec(groups, 4);
            match (a, b, x, y) {
                (Some(a), Some(b), Some(x), Some(y)) => Some((a, b, x, y)),
                _ => None,
            }
        },
        None => None,
    }
}

/// The zero-based range that capture groups 1 to 4 of the range pattern
/// give (their numbers less one); `None` where one of them is missing or is
/// no `u32`.
pub fn range_from_location_captures(captures: &Option<Vec<Option<String>>>) -> (r: Option<Range>)
    requires
        location_counts_from_one(captures_view(*captures)),
    ensures
        r == location_range(captures_view(*captures)),
{
    match location_numbers_exec(captures) {
        Some((a, b, x, y)) => Some(Range::new(Position::new(a - 1, b - 1), Position::new(x - 1, y - 1))),
        None => None,
    }
}

/// The zero-based range that a parser's report names as "found at line L,
/// column C:line L2, column C2"; `None` where it names none.
pub fn extract_range_from_error(msg: &str) -> (r: Option<Range>)
    requires
        location_counts_from_one(regex_captures_of(range_pattern(), msg@)),
    ensures
        r == location_range(regex_captures_of(range_pattern(), msg@)),
{
    let captures = regex_captures(r"found at line (\d+), column (\d+):line (\d+), column (\d+)", msg);
    range_from_location_captures(&captures)
}

/// The range a parser's report names, as `extract_range_from_error` reads
/// it; `None` where the report names a line or column 0, which has no
/// zero-based number.
pub fn checked_range_from_error(msg: &str) -> (r: Option<Option<Range>>)
    ensures
        location_counts_from_one(regex_captures_of(range_pattern(), msg@)) ==> r == Some(
            location_range(regex_captures_of(range_pattern(), msg@)),
        ),
        !location_counts_from_one(regex_captures_of(range_pattern(), msg@)) ==> r.is_none(),
{
    let captures = regex_captures(r"found at line (\d+), column (\d+):line (\d+), column (\d+)", msg);
    let counts_from_one = match location_numbers_exec(&captures) {
        Some((a, b, x, y)) => a >= 1 && b >= 1 && x >= 1 && y >= 1,
        None => true,
    };
    if counts_from_one {
        Some(extract_range_from_error(msg))
    } else {
        None
    }
}

/// The diagnostic of a parser's report: its display text over the range
/// that its debug text names, or over the empty range at the start of the
/// document where it names none.
pub fn report_diag(debug: &str, display: &str) -> (d: Diagnostic)
    requires
        location_counts_from_one(regex_captures_of(range_pattern(), debug@)),
    ensures
        is_dsrv_error(
            d,
            display@,
            match location_range(regex_captures_of(range_pattern(), debug@)) {
                Some(r) => r,
                None => Range::zero(),
            },
        ),
{
    let range = match extract_range_from_error(debug) {
        Some(r) => r,
        None => Range::new(Position::new(0, 0), Position::new(0, 0)),
    };
    create_diag(display, range)
}

/// The diagnostic of a parser's report, as `report_diag` makes it; `None`
/// where the report names a line or column 0, which has no zero-based
/// number.
pub fn checked_report_diag(debug: &str, display: &str) -> (r: Option<Diagnostic>)
    ensures
        location_counts_from_one(regex_captures_of(range_pattern(), debug@)) ==> (r matches Some(d)
            && is_dsrv_error(
            d,
            display@,
            match location_range(regex_captures_of(range_pattern(), debug@)) {
                Some(r) => r,
                None => Range::zero(),
            },
        )),
        !location_counts_from_one(regex_captures_of(range_pattern(), debug@)) ==> r.is_none(),
{
    match checked_range_from_error(debug) {
        Some(_) => Some(report_diag(debug, display)),
        None => None,
    }
}

/// The index of the first line feed at or after byte `i` of `b`, or the
/// length of `b` where there is none.
pub open spec fn newline_from(b: Seq<u8>, i: int) -> int
    decreases b.len() - i,
{
    if i >= b.len() {
        b.len() as int
    } else if b[i] == 10u8 {
        i
    } else {
        newline_from(b, i + 1)
    }
}

/// The first line feed from `i` lies within the text, with no line feed
/// before it.
pub proof fn lemma_newline_from(b: Seq<u8>, i: int)
    requires
        0 <= i <= b.len(),
    ensures
        i <= newline_from(b, i) <= b.len(),
        newline_from(b, i) < b.len() ==> b[newline_from(b, i)] == 10u8,
        forall|j: int| i <= j < newline_from(b, i) ==> b[j] != 10u8,
    decreases b.len() - i,
{
    if i < b.len() && b[i] != 10u8 {
        lemma_newline_from(b, i + 1);
    }
}

/// The byte range of line `n` of the text from byte `start` of `b`, as
/// `str::lines` cuts a text into lines: at each line feed, a carriage return
/// just before it dropped, no line after a final line feed.
pub open spec fn nth_line_range(b: Seq<u8>, start: int, n: nat) -> Option<(int, int)>
    decreases b.len() - start,
{
    if start < 0 || start >= b.len() {
        None
    } else {
        let e = newline_from(b, start);
        if n == 0 {
            if e < b.len() && e > start && b[e - 1] == 13u8 {
                Some((start, e - 1))
            } else {
                Some((start, e))
            }
        } else if e < b.len() {
            proof {
                lemma_newline_from(b, start);
            }
            nth_line_range(b, e + 1, (n - 1) as nat)
        } else {
            None
        }
    }
}

/// The byte at a position of the text (line as `str::lines` counts them,
/// column in bytes), read as a char; `None` past the last line or past the
/// end of the line.
pub open spec fn source_char_at_spec(text: Seq<char>, pos: Position) -> Option<char> {
    let b = encode_utf8(text);
    match nth_line_range(b, 0, pos.line as nat) {
        Some((s, e)) => if pos.character < e - s {
            Some(b[s + pos.character] as char)
        } else {
            None
        },
        None => None,
    }
}

/// The byte at a position of the text, read as a char.
pub fn source_char_at(text: &str, position: Position) -> (r: Option<char>)
    ensures
        r == source_char_at_spec(text@, position),
{
    let b = text.as_bytes();
    let ghost bv = encode_utf8(text@);
    let n = b.len();
    let mut start: usize = 0;
    let mut k: u32 = 0;
    loop
        invariant
            b@ == bv,
            bv == encode_utf8(text@),
            n == bv.len(),
            start <= n,
            k <= position.line,
            nth_line_range(bv, 0, position.line as nat) == nth_line_range(
                bv,
                start as int,
                (position.line - k) as nat,
            ),
        decreases n - start,
    {
        if start >= n {
            return None;
        }
        let mut e: usize = start;
        while e < n && b[e] != 10u8
            invariant
                b@ == bv,
                n == bv.len(),
                start <= e <= n,
                start < n,
                newline_from(bv, start as int) == newline_from(bv, e as int),
            decreases n - e,
        {
            e = e + 1;
        }
        proof {
            lemma_newline_from(bv, start as int);
        }
        if k == position.line {
            let end: usize = if e < n && e > start && b[e - 1] == 13u8 {
                e - 1
            } else {
                e
            };
            let c = position.character as usize;
            if c < end - start {
                return Some(b[start + c] as char);
            } else {
                return None;
            }
        }
        if e >= n {
            return None;
        }
        start = e + 1;
        k = k + 1;
    }
}

/// An error of the tree a parse builds: where an assignment is duplicated,
/// the span of the duplicate.
#[derive(Debug, Clone, Copy, PartialEq, Eq, Structural)]
pub enum AstError {
    DuplicateAssignment { duplicate: Span },
    DuplicateExpressionField,
    InvalidExpressionForest,
    InvalidExpressionMap,
}

/// The span a tree error points at, if it has one.
pub open spec fn ast_span(error: AstError) -> Option<Span> {
    match error {
        AstError::DuplicateAssignment { duplicate } => Some(duplicate),
        _ => None,
    }
}

/// The span a tree error points at, if it has one.
pub fn ast_error_span(error: &AstError) -> (r: Option<Span>)
    ensures
        r == ast_span(*error),
{
    match error {
        AstError::DuplicateAssignment { duplicate } => Some(*duplicate),
        AstError::DuplicateExpressionField | AstError::InvalidExpressionForest
        | AstError::InvalidExpressionMap => None,
    }
}

/// Why a document did not parse: the parser's report (its debug form and
/// its display form, on two lines) and, where the error is one of the tree
/// built, that error with the text it displays.
#[derive(Debug, Clone, PartialEq)]
pub struct ParseFailure {
    pub details: String,
    pub ast_error: Option<(AstError, String)>,
}

/// The tree error of a failure, with the text it displays.
pub open spec fn ast_error_view(f: ParseFailure) -> Option<(AstError, Seq<char>)> {
    match f.ast_error {
        Some((e, shown)) => Some((e, shown@)),
        None => None,
    }
}

/// The same position one column further on (saturating).
pub open spec fn one_column_further(p: Position) -> Position {
    Position {
        line: p.line,
        character: if p.character == u32::MAX {
            u32::MAX
        } else {
            (p.character + 1) as u32
        },
    }
}

/// The message and range of the diagnostic for a failed parse of `text`,
/// given the position its report names: the report's words decide the kind
/// of syntax error; a tree error shows its own text over its span.
pub open spec fn parse_diag_spec(
    text: Seq<char>,
    details: Seq<char>,
    ast: Option<(AstError, Seq<char>)>,
    pos: Position,
) -> (Seq<char>, Range) {
    let at = Range { start: pos, end: pos };
    let past = Range { start: pos, end: one_column_further(pos) };
    if has_infix(details, "UnrecognizedEof"@) || has_infix(details, "Unrecognized EOF"@) {
        ("Syntax error: Unexpected EOF"@, at)
    } else if has_infix(details, "InvalidToken"@) {
        ("Syntax error: Invalid Token"@, at)
    } else if has_infix(details, "Unrecognized token"@) {
        if source_char_at_spec(text, pos) == Some('\\') {
            ("Syntax error: Invalid Token"@, at)
        } else {
            ("Syntax error: Unrecognized token"@, past)
        }
    } else if has_infix(details, "ExtraToken"@) {
        ("Syntax error: Extra token:"@, past)
    } else if has_infix(details, "UnrecognizedToken"@) {
        ("Syntax error: Unrecognized token"@, past)
    } else {
        match ast {
            Some((e, shown)) => (
                "Syntax error: "@ + shown,
                match ast_span(e) {
                    Some(sp) => span_range_spec(text, sp),
                    None => at,
                },
            ),
            None => ("Syntax error: Invalid DSRV syntax"@, at),
        }
    }
}

/// The diagnostic for a failed parse of `text` whose report names
/// `position`.
pub fn parse_diag_at(text: &str, failure: &ParseFailure, position: Position) -> (d: Diagnostic)
    ensures
        is_dsrv_error(
            d,
            parse_diag_spec(text@, failure.details@, ast_error_view(*failure), position).0,
            parse_diag_spec(text@, failure.details@, ast_error_view(*failure), position).1,
        ),
{
    let details = failure.details.as_str();
    let at = Range::new(position, position);
    let past = Range::new(position, Position::new(position.line, position.character.saturating_add(1)));
    if str_contains(details, "UnrecognizedEof") || str_contains(details, "Unrecognized EOF") {
        create_diag("Syntax error: Unexpected EOF", at)
    } else if str_contains(details, "InvalidToken") {
        create_diag("Syntax error: Invalid Token", at)
    } else if str_contains(details, "Unrecognized token") {
        if source_char_at(text, position) == Some('\\') {
            create_diag("Syntax error: Invalid Token", at)
        } else {
            create_diag("Syntax error: Unrecognized token", past)
        }
    } else if str_contains(details, "ExtraToken") {
        create_diag("Syntax error: Extra token:", past)
    } else if str_contains(details, "UnrecognizedToken") {
        create_diag("Syntax error: Unrecognized token", past)
    } else {
        match &failure.ast_error {
            Some((e, shown)) => {
                let range = match ast_error_span(e) {
                    Some(sp) => span_range(text, sp),
                    None => at,
                };
                let mut msg = String::from_str("Syntax error: ");
                msg.append(shown.as_str());
                create_diag(msg.as_str(), range)
            },
            None => create_diag("Syntax error: Invalid DSRV syntax", at),
        }
    }
}

/// The diagnostic for a failed parse of `text`, at the position its report
/// names.
pub fn parse_diag(text: &str, failure: &ParseFailure) -> (d: Diagnostic)
    ensures
        ({
            let pos = position_of_captures(regex_captures_of(location_pattern(), failure.details@));
            let (msg, range) = parse_diag_spec(text@, failure.details@, ast_error_view(*failure), pos);
            is_dsrv_error(d, msg, range)
        }),
{
    let position = parse_error_position(failure.details.as_str());
    parse_diag_at(text, failure, position)
}

/// An error of the LALR parser, its locations as byte offsets; a user error
/// holds the text its debug form shows.
#[derive(Debug, Clone, PartialEq)]
pub enum LalrParseError {
    InvalidToken { location: usize },
    UnrecognizedEof { location: usize },
    UnrecognizedToken { start: usize, end: usize },
    ExtraToken { start: usize, end: usize },
    User { error: String },
}

/// The message and range of the diagnostic for an LALR parse error of
/// `text`, where an invalid token is reported as `invalid_token`: each
/// location becomes the position of that byte (the start of the document
/// past the end); a user error sits at line 1, column 1.
pub open spec fn lalr_diag_spec(text: Seq<char>, error: LalrParseError, invalid_token: Seq<char>) -> (Seq<char>, Range) {
    match error {
        LalrParseError::InvalidToken { location } => (
            invalid_token,
            Range { start: position_or_start(text, location as int), end: position_or_start(text, location as int) },
        ),
        LalrParseError::UnrecognizedEof { location } => (
            "Syntax error: Unexpected EOF"@,
            Range { start: position_or_start(text, location as int), end: position_or_start(text, location as int) },
        ),
        LalrParseError::UnrecognizedToken { start, end } => (
            "Syntax error: Unrecognized token"@,
            Range { start: position_or_start(text, start as int), end: position_or_start(text, end as int) },
        ),
        LalrParseError::ExtraToken { start, end } => (
            "Syntax error: Extra token:"@,
            Range { start: position_or_start(text, start as int), end: position_or_start(text, end as int) },
        ),
        LalrParseError::User { error } => (
            "User error: "@ + error@,
            Range { start: Position { line: 1, character: 1 }, end: Position { line: 1, character: 1 } },
        ),
    }
}

fn lalr_diag_with(text: &str, error: &LalrParseError, invalid_token: &str) -> (d: Diagnostic)
    ensures
        is_dsrv_error(
            d,
            lalr_diag_spec(text@, *error, invalid_token@).0,
            lalr_diag_spec(text@, *error, invalid_token@).1,
        ),
{
    let rope = rope_from_str(text);
    match error {
        LalrParseError::InvalidToken { location } => {
            let p = position_or_start_exec(&rope, *location);
            create_diag(invalid_token, Range::new(p, p))
        },
        LalrParseError::UnrecognizedEof { location } => {
            let p = position_or_start_exec(&rope, *location);
            create_diag("Syntax error: Unexpected EOF", Range::new(p, p))
        },
        LalrParseError::UnrecognizedToken { start, end } => {
            let range = Range::new(
                position_or_start_exec(&rope, *start),
                position_or_start_exec(&rope, *end),
            );
            create_diag("Syntax error: Unrecognized token", range)
        },
        LalrParseError::ExtraToken { start, end } => {
            let range = Range::new(
                position_or_start_exec(&rope, *start),
                position_or_start_exec(&rope, *end),
            );
            create_diag("Syntax error: Extra token:", range)
        },
        LalrParseError::User { error } => {
            let p = Position::new(1, 1);
            let mut msg = String::from_str("User error: ");
            msg.append(error.as_str());
            create_diag(msg.as_str(), Range::new(p, p))
        },
    }
}

/// The diagnostic for an error of the LALR parser on `text`; an invalid
/// token is a syntax error.
pub fn lalr_error_diag(text: &str, error: &LalrParseError) -> (d: Diagnostic)
    ensures
        is_dsrv_error(
            d,
            lalr_diag_spec(text@, *error, "Syntax error: Invalid Token"@).0,
            lalr_diag_spec(text@, *error, "Syntax error: Invalid Token"@).1,
        ),
{
    lalr_diag_with(text, error, "Syntax error: Invalid Token")
}

/// The diagnostic for an error of the LALR parser on `text`, reporting an
/// invalid token as just "Invalid Token".
pub fn lalr_error_diag_plain(text: &str, error: &LalrParseError) -> (d: Diagnostic)
    ensures
        is_dsrv_error(
            d,
            lalr_diag_spec(text@, *error, "Invalid Token"@).0,
            lalr_diag_spec(text@, *error, "Invalid Token"@).1,
        ),
{
    lalr_diag_with(text, error, "Invalid Token")
}

} // verus!
