//! What the server answers about a document: completion items for the
//! built-ins and the declared streams, and hovers over the nodes; and the
//! store of the documents the server knows of, with the decisions each
//! change of a document takes.

use vstd::prelude::*;
use std::sync::Arc;
use dashmap::DashMap;
use ropey::Rope;
use crate::analysis::{smallest_spanning, Analysis, Literal, SExpr, Span, SpecificationSnapshot};
use crate::completions::{
    any_context_matches, builtin_by_label, builtin_completions, get_builtin_by_label, is_item_of,
    offered_builtins, shares_context, CompletionItem, CompletionItemKind, DsrvBuiltIn,
};
use crate::diagnostics::{span_range_in, span_range_spec, Diagnostic};
use crate::keywords::keyword_spelling;
use crate::lexer::{filter_suggestions, Token, lex, suggestions_at, token_data_of, tokenize, TokenData};
use crate::protocol::{Position, Range};
use crate::text::{str_equal, substring, text_chars};
use crate::unicode::{is_unicode_whitespace, is_unicode_whitespace_exec};
use crate::utils::{pos_to_offset, position_offset, rope_from_str, rope_text};

verus! {

/// The namespace a declared stream variable lives in.
#[derive(Debug, Clone, Copy, PartialEq, Eq, Structural)]
pub enum StreamKind {
    Input,
    Aux,
    Output,
}

/// The completion contexts in which a stream of each kind is offered.
pub open spec fn stream_triggers(k: StreamKind) -> &'static [&'static str] {
    match k {
        StreamKind::Input => &["expr", "input_stream", "variable"],
        StreamKind::Aux => &["expr", "aux_stream", "variable"],
        StreamKind::Output => &["expr", "output_stream", "variable"],
    }
}

/// The completion detail of a stream of each kind.
pub open spec fn stream_detail(k: StreamKind) -> Seq<char> {
    match k {
        StreamKind::Input => "Input Stream"@,
        StreamKind::Aux => "Auxiliary internal stream variable"@,
        StreamKind::Output => "Output Stream"@,
    }
}

/// A declared stream variable as completion offers it.
#[derive(Debug, Clone, PartialEq)]
pub struct Variables {
    pub label: String,
    pub kind: CompletionItemKind,
    pub trigger_context: &'static [&'static str],
    pub type_anno: Option<String>,
    pub detail: String,
}

/// `v` offers the stream `name` of kind `k`.
pub open spec fn is_variable_of(v: Variables, name: Seq<char>, k: StreamKind) -> bool {
    &&& v.label@ == name
    &&& v.kind == CompletionItemKind::Variable
    &&& v.trigger_context == stream_triggers(k)
    &&& v.type_anno.is_none()
    &&& v.detail@ == stream_detail(k)
}

fn variable_of(name: &String, k: StreamKind) -> (v: Variables)
    ensures
        is_variable_of(v, name@, k),
{
    match k {
        StreamKind::Input => Variables {
            label: name.clone(),
            kind: CompletionItemKind::Variable,
            trigger_context: &["expr", "input_stream", "variable"],
            type_anno: None,
            detail: String::from_str("Input Stream"),
        },
        StreamKind::Aux => Variables {
            label: name.clone(),
            kind: CompletionItemKind::Variable,
            trigger_context: &["expr", "aux_stream", "variable"],
            type_anno: None,
            detail: String::from_str("Auxiliary internal stream variable"),
        },
        StreamKind::Output => Variables {
            label: name.clone(),
            kind: CompletionItemKind::Variable,
            trigger_context: &["expr", "output_stream", "variable"],
            type_anno: None,
            detail: String::from_str("Output Stream"),
        },
    }
}

/// The texts of a list of names.
pub open spec fn names_of(s: Seq<String>) -> Seq<Seq<char>> {
    s.map_values(|x: String| x@)
}

/// Whether `name` is among `names`.
pub fn contains_name(names: &Vec<String>, name: &str) -> (r: bool)
    ensures
        r == names_of(names@).contains(name@),
{
    let mut i: usize = 0;
    while i < names.len()
        invariant
            i <= names@.len(),
            forall|j: int| 0 <= j < i ==> names@[j]@ != name@,
        decreases names@.len() - i,
    {
        if str_equal(names[i].as_str(), name) {
            assert(names_of(names@)[i as int] == name@);
            return true;
        }
        i = i + 1;
    }
    assert forall|j: int| 0 <= j < names_of(names@).len() implies names_of(names@)[j] != name@ by {
        assert(names_of(names@)[j] == names@[j]@);
    }
    false
}

/// The first `k` output names that are not also auxiliary names, in order.
pub open spec fn outputs_not_aux(outs: Seq<String>, aux: Seq<String>, k: int) -> Seq<Seq<char>>
    decreases k,
{
    if k <= 0 {
        Seq::empty()
    } else {
        let prev = outputs_not_aux(outs, aux, k - 1);
        if names_of(aux).contains(outs[k - 1]@) {
            prev
        } else {
            prev.push(outs[k - 1]@)
        }
    }
}

/// The streams a specification declares, as completion lists them: the
/// inputs, then the auxiliary streams, then the outputs that are not also
/// auxiliary.
pub open spec fn declared_streams(spec: SpecificationSnapshot) -> Seq<(Seq<char>, StreamKind)> {
    names_of(spec.spec_input_vars()).map_values(|n: Seq<char>| (n, StreamKind::Input))
        + names_of(spec.spec_aux_vars()).map_values(|n: Seq<char>| (n, StreamKind::Aux))
        + outputs_not_aux(
        spec.spec_output_vars(),
        spec.spec_aux_vars(),
        spec.spec_output_vars().len() as int,
    ).map_values(|n: Seq<char>| (n, StreamKind::Output))
}

/// Every name `outputs_not_aux` keeps is an output that is not auxiliary.
proof fn lemma_outputs_not_aux(outs: Seq<String>, aux: Seq<String>, k: int)
    requires
        0 <= k <= outs.len(),
    ensures
        forall|j: int|
            0 <= j < outputs_not_aux(outs, aux, k).len() ==> {
                let n = #[trigger] outputs_not_aux(outs, aux, k)[j];
                &&& !names_of(aux).contains(n)
                &&& names_of(outs).contains(n)
            },
    decreases k,
{
    if k > 0 {
        lemma_outputs_not_aux(outs, aux, k - 1);
        let prev = outputs_not_aux(outs, aux, k - 1);
        let cur = outputs_not_aux(outs, aux, k);
        assert forall|j: int| 0 <= j < cur.len() implies {
            let n = #[trigger] cur[j];
            &&& !names_of(aux).contains(n)
            &&& names_of(outs).contains(n)
        } by {
            if j < prev.len() {
                assert(cur[j] == prev[j]);
            } else {
                assert(cur[j] == outs[k - 1]@);
                assert(names_of(outs)[k - 1] == outs[k - 1]@);
            }
        }
    }
}

/// Completion lists a stream that is both auxiliary and an output once, as
/// auxiliary: no output entry names an auxiliary stream, and each output
/// entry names an output.
pub proof fn law_aux_streams_listed_once(spec: SpecificationSnapshot, i: int)
    requires
        0 <= i < declared_streams(spec).len(),
        declared_streams(spec)[i].1 == StreamKind::Output,
    ensures
        !names_of(spec.spec_aux_vars()).contains(declared_streams(spec)[i].0),
        names_of(spec.spec_output_vars()).contains(declared_streams(spec)[i].0),
{
    let outs = spec.spec_output_vars();
    let aux = spec.spec_aux_vars();
    let ins_n = names_of(spec.spec_input_vars()).len();
    let aux_n = names_of(aux).len();
    let kept = outputs_not_aux(outs, aux, outs.len() as int);
    lemma_outputs_not_aux(outs, aux, outs.len() as int);
    let d = declared_streams(spec);
    if i < ins_n {
        assert(d[i].1 == StreamKind::Input);
    } else if i < ins_n + aux_n {
        assert(d[i].1 == StreamKind::Aux);
    } else {
        assert(d[i].0 == kept[i - ins_n - aux_n]);
    }
}

/// The completion entries of the streams a specification declares.
pub fn get_all_declared_symbols(spec: &SpecificationSnapshot) -> (r: Vec<Variables>)
    ensures
        r@.len() == declared_streams(*spec).len(),
        forall|i: int|
            0 <= i < r@.len() ==> is_variable_of(
                #[trigger] r@[i],
                declared_streams(*spec)[i].0,
                declared_streams(*spec)[i].1,
            ),
{
    let inputs = spec.input_vars();
    let aux = spec.aux_vars();
    let outputs = spec.output_vars();
    let ni = inputs.len();
    let na = aux.len();
    let mut r: Vec<Variables> = Vec::new();
    let mut i: usize = 0;
    while i < ni
        invariant
            ni == inputs@.len(),
            i <= ni,
            r@.len() == i,
            forall|j: int| 0 <= j < i ==> is_variable_of(#[trigger] r@[j], inputs@[j]@, StreamKind::Input),
        decreases ni - i,
    {
        r.push(variable_of(&inputs[i], StreamKind::Input));
        i = i + 1;
    }
    let mut i: usize = 0;
    while i < na
        invariant
            ni == inputs@.len(),
            na == aux@.len(),
            i <= na,
            r@.len() == ni + i,
            forall|j: int| 0 <= j < ni ==> is_variable_of(#[trigger] r@[j], inputs@[j]@, StreamKind::Input),
            forall|j: int| 0 <= j < i ==> is_variable_of(#[trigger] r@[ni + j], aux@[j]@, StreamKind::Aux),
        decreases na - i,
    {
        r.push(variable_of(&aux[i], StreamKind::Aux));
        i = i + 1;
    }
    let no = outputs.len();
    let mut i: usize = 0;
    while i < no
        invariant
            ni == inputs@.len(),
            na == aux@.len(),
            no == outputs@.len(),
            i <= no,
            r@.len() == ni + na + outputs_not_aux(outputs@, aux@, i as int).len(),
            forall|j: int| 0 <= j < ni ==> is_variable_of(#[trigger] r@[j], inputs@[j]@, StreamKind::Input),
            forall|j: int| 0 <= j < na ==> is_variable_of(#[trigger] r@[ni + j], aux@[j]@, StreamKind::Aux),
            forall|j: int|
                0 <= j < outputs_not_aux(outputs@, aux@, i as int).len() ==> is_variable_of(
                    #[trigger] r@[ni + na + j],
                    outputs_not_aux(outputs@, aux@, i as int)[j],
                    StreamKind::Output,
                ),
        decreases no - i,
    {
        if !contains_name(aux, outputs[i].as_str()) {
            r.push(variable_of(&outputs[i], StreamKind::Output));
        }
        i = i + 1;
    }
    proof {
        let d = declared_streams(*spec);
        let ins = names_of(inputs@).map_values(|n: Seq<char>| (n, StreamKind::Input));
        let auxs = names_of(aux@).map_values(|n: Seq<char>| (n, StreamKind::Aux));
        let outs = outputs_not_aux(outputs@, aux@, no as int).map_values(
            |n: Seq<char>| (n, StreamKind::Output),
        );
        assert(d == ins + auxs + outs);
        assert forall|k: int| 0 <= k < r@.len() implies is_variable_of(#[trigger] r@[k], d[k].0, d[k].1) by {
            if k < ni {
                assert(d[k] == ins[k]);
            } else if k < ni + na {
                assert(d[k] == auxs[k - ni]);
                assert(r@[k] == r@[ni + (k - ni)]);
            } else {
                assert(d[k] == outs[k - ni - na]);
                assert(r@[k] == r@[ni + na + (k - ni - na)]);
            }
        }
    }
    r
}

/// Index of the first char of `s`, from `i` on, that is not whitespace;
/// the length of `s` where there is none.
pub open spec fn first_non_ws(s: Seq<char>, i: int) -> int
    decreases s.len() - i,
{
    if i >= s.len() {
        s.len() as int
    } else if !is_unicode_whitespace(s[i]) {
        i
    } else {
        first_non_ws(s, i + 1)
    }
}

/// One past the last char of `s[..j]` that is not whitespace; 0 where there
/// is none.
pub open spec fn non_ws_end(s: Seq<char>, j: int) -> int
    decreases j,
{
    if j <= 0 {
        0
    } else if !is_unicode_whitespace(s[j - 1]) {
        j
    } else {
        non_ws_end(s, j - 1)
    }
}

/// `s` without its leading and trailing whitespace.
pub open spec fn trimmed(s: Seq<char>) -> Seq<char> {
    let a = first_non_ws(s, 0);
    if a >= s.len() {
        Seq::empty()
    } else {
        s.subrange(a, non_ws_end(s, s.len() as int))
    }
}

/// A copy of `s` without its leading and trailing whitespace, as `str::trim`
/// cuts it.
pub fn str_trim(s: &str) -> (r: String)
    ensures
        r@ == trimmed(s@),
{
    let cs = text_chars(s);
    let n = cs.len();
    let mut a: usize = 0;
    while a < n && is_unicode_whitespace_exec(cs[a])
        invariant
            cs@ == s@,
            n == cs@.len(),
            a <= n,
            first_non_ws(s@, 0) == first_non_ws(s@, a as int),
        decreases n - a,
    {
        a = a + 1;
    }
    if a >= n {
        return String::new();
    }
    let mut b: usize = n;
    while b > a + 1 && is_unicode_whitespace_exec(cs[b - 1])
        invariant
            cs@ == s@,
            n == cs@.len(),
            a < b <= n,
            !is_unicode_whitespace(cs@[a as int]),
            non_ws_end(s@, n as int) == non_ws_end(s@, b as int),
        decreases b,
    {
        b = b - 1;
    }
    proof {
        if b == a + 1 {
            assert(non_ws_end(s@, b as int) == b);
        } else {
            assert(!is_unicode_whitespace(cs@[b - 1]));
        }
    }
    substring(s, a, b)
}

/// A hover: Markdown text about a range of the document.
#[derive(Debug, Clone, PartialEq)]
pub struct Hover {
    pub contents: String,
    pub range: Option<Range>,
}

/// `h` shows `contents` over `range`.
pub open spec fn is_hover(h: Hover, contents: Seq<char>, range: Range) -> bool {
    h.contents@ == contents && h.range == Some(range)
}

/// The Markdown shown for a built-in: its detail as a DSRV code block, a
/// rule, and its documentation without surrounding whitespace.
pub open spec fn item_hover_markdown(b: DsrvBuiltIn) -> Seq<char> {
    "```dsrv\n"@ + b.detail@ + "\n```\n---\n"@ + trimmed(b.documentation@)
}

/// The hover for a built-in over the range of `span`.
pub fn create_hover_item(item: &DsrvBuiltIn, span: &Span, rope: &Rope) -> (h: Hover)
    ensures
        is_hover(h, item_hover_markdown(*item), span_range_spec(rope_text(*rope), *span)),
{
    let mut c = String::from_str("```dsrv\n");
    c.append(item.detail);
    c.append("\n```\n---\n");
    let doc = str_trim(item.documentation);
    c.append(doc.as_str());
    Hover { contents: c, range: Some(span_range_in(rope, *span)) }
}

/// The hover that shows the Markdown `s` over the range of `span`.
pub fn create_hover_variable(s: &str, span: &Span, rope: &Rope) -> (h: Hover)
    ensures
        is_hover(h, s@, span_range_spec(rope_text(*rope), *span)),
{
    Hover { contents: String::from_str(s), range: Some(span_range_in(rope, *span)) }
}

/// Index of the first annotation, from `i` on, of the variable `name`; the
/// number of annotations where there is none.
pub open spec fn first_annotation(anns: Seq<(String, String)>, name: Seq<char>, i: int) -> int
    decreases anns.len() - i,
{
    if i < 0 || i >= anns.len() {
        anns.len() as int
    } else if anns[i].0@ == name {
        i
    } else {
        first_annotation(anns, name, i + 1)
    }
}

/// What a hover shows after a variable's name: `: ` and its annotated type,
/// or nothing where it has none.
pub open spec fn type_suffix(spec: SpecificationSnapshot, name: Seq<char>) -> Seq<char> {
    let anns = spec.spec_type_annotations();
    let i = first_annotation(anns, name, 0);
    if i < anns.len() {
        ": "@ + anns[i].1@
    } else {
        Seq::empty()
    }
}

/// The keyword and the text a hover shows for a variable: those of `in`,
/// `aux` or `out` after the namespace that declares it (looked for in that
/// order), or `stream` twice for an undeclared one; `None` where the
/// built-in for its keyword is missing.
pub open spec fn stream_words(spec: SpecificationSnapshot, name: Seq<char>) -> Option<(Seq<char>, Seq<char>)> {
    if names_of(spec.spec_input_vars()).contains(name) {
        match builtin_by_label("in"@) {
            Some(b) => Some(("in"@, b.documentation@)),
            None => None,
        }
    } else if names_of(spec.spec_aux_vars()).contains(name) {
        match builtin_by_label("aux"@) {
            Some(b) => Some(("aux"@, b.documentation@)),
            None => None,
        }
    } else if names_of(spec.spec_output_vars()).contains(name) {
        match builtin_by_label("out"@) {
            Some(b) => Some(("out"@, b.documentation@)),
            None => None,
        }
    } else {
        Some(("stream"@, "stream"@))
    }
}

/// The hover over a declared stream shows the keyword that declares it,
/// spelled as the language spells it, with that keyword's documentation:
/// `in` for an input, else `aux` for an auxiliary stream, else `out` for an
/// output.
pub proof fn law_variable_hover_keyword(spec: SpecificationSnapshot, name: Seq<char>)
    ensures
        names_of(spec.spec_input_vars()).contains(name) ==> stream_words(spec, name) == Some(
            (
                keyword_spelling(Token::In),
                builtin_by_label(keyword_spelling(Token::In))->0.documentation@,
            ),
        ),
        !names_of(spec.spec_input_vars()).contains(name) && names_of(spec.spec_aux_vars()).contains(
            name,
        ) ==> stream_words(spec, name) == Some(
            (
                keyword_spelling(Token::Aux),
                builtin_by_label(keyword_spelling(Token::Aux))->0.documentation@,
            ),
        ),
        !names_of(spec.spec_input_vars()).contains(name) && !names_of(spec.spec_aux_vars()).contains(
            name,
        ) && names_of(spec.spec_output_vars()).contains(name) ==> stream_words(spec, name) == Some(
            (
                keyword_spelling(Token::Out),
                builtin_by_label(keyword_spelling(Token::Out))->0.documentation@,
            ),
        ),
{
    lemma_stream_builtins();
    reveal_strlit("in");
    reveal_strlit("aux");
    reveal_strlit("out");
    assert("in"@ =~= keyword_spelling(Token::In));
    assert("aux"@ =~= keyword_spelling(Token::Aux));
    assert("out"@ =~= keyword_spelling(Token::Out));
}

/// The Markdown of a variable hover: keyword, name and type as a DSRV code
/// block, a rule, and the text.
pub open spec fn variable_markdown(word: Seq<char>, name: Seq<char>, suffix: Seq<char>, text: Seq<char>) -> Seq<char> {
    "```dsrv\n"@ + word + " "@ + name + suffix + "\n```\n---\n"@ + text
}

/// The Markdown of the hover over variable `name`, if its keyword's
/// built-in is there.
pub open spec fn variable_hover_markdown(spec: SpecificationSnapshot, name: Seq<char>) -> Option<Seq<char>> {
    match stream_words(spec, name) {
        Some((word, text)) => Some(variable_markdown(word, name, type_suffix(spec, name), text)),
        None => None,
    }
}

/// The built-ins `in`, `out` and `aux` are in the registry, so a variable
/// hover always has its text.
pub proof fn lemma_stream_builtins()
    ensures
        builtin_by_label("in"@).is_some(),
        builtin_by_label("out"@).is_some(),
        builtin_by_label("aux"@).is_some(),
{
    reveal_strlit("in");
    reveal_strlit("out");
    reveal_strlit("aux");
    reveal_with_fuel(crate::completions::first_labelled, 4);
    assert(crate::completions::registry()[0].label@ == "in"@);
    assert(crate::completions::registry()[1].label@ == "out"@);
    assert(crate::completions::registry()[2].label@ == "aux"@);
}

/// Labels that no built-in from `i` to `j` has are looked past.
proof fn lemma_first_labelled_skip(s: Seq<DsrvBuiltIn>, label: Seq<char>, i: int, j: int)
    requires
        0 <= i <= j <= s.len(),
        forall|k: int| i <= k < j ==> #[trigger] s[k].label@ != label,
    ensures
        crate::completions::first_labelled(s, label, i) == crate::completions::first_labelled(s, label, j),
    decreases j - i,
{
    if i < j {
        lemma_first_labelled_skip(s, label, i + 1, j);
    }
}

/// The built-in labelled `label` is the one at index `j` of the registry
/// when no built-in before it has that label.
proof fn lemma_builtin_at(label: Seq<char>, j: int)
    requires
        0 <= j < crate::completions::registry().len(),
        crate::completions::registry()[j].label@ == label,
        forall|k: int| 0 <= k < j ==> #[trigger] crate::completions::registry()[k].label@ != label,
    ensures
        builtin_by_label(label) == Some(crate::completions::registry()[j]),
{
    lemma_first_labelled_skip(crate::completions::registry(), label, 0, j);
}

/// The labels of the first built-ins of the registry.
proof fn lemma_registry_labels()
    ensures
        crate::completions::registry().len() > 26,
        crate::completions::registry()[0].label@ == "in"@,
        crate::completions::registry()[1].label@ == "out"@,
        crate::completions::registry()[2].label@ == "aux"@,
        crate::completions::registry()[3].label@ == "var"@,
        crate::completions::registry()[4].label@ == "Int"@,
        crate::completions::registry()[5].label@ == "Float"@,
        crate::completions::registry()[6].label@ == "Bool"@,
        crate::completions::registry()[7].label@ == "Str"@,
        crate::completions::registry()[8].label@ == "Unit"@,
        crate::completions::registry()[9].label@ == "Any"@,
        crate::completions::registry()[10].label@ == "List"@,
        crate::completions::registry()[11].label@ == "Map"@,
        crate::completions::registry()[12].label@ == "Struct"@,
        crate::completions::registry()[13].label@ == "Tuple"@,
        crate::completions::registry()[14].label@ == "false"@,
        crate::completions::registry()[15].label@ == "true"@,
        crate::completions::registry()[16].label@ == "List()"@,
        crate::completions::registry()[17].label@ == "List."@,
        crate::completions::registry()[18].label@ == "List.get"@,
        crate::completions::registry()[19].label@ == "List.append"@,
        crate::completions::registry()[20].label@ == "List.concat"@,
        crate::completions::registry()[21].label@ == "List.head"@,
        crate::completions::registry()[22].label@ == "List.tail"@,
        crate::completions::registry()[23].label@ == "List.len"@,
        crate::completions::registry()[24].label@ == "List.map"@,
        crate::completions::registry()[25].label@ == "List.filter"@,
        crate::completions::registry()[26].label@ == "List.fold"@,
{
}

/// The list methods `map`, `filter` and `fold` have built-ins, so a hover
/// over such a node shows their documentation.
#[verifier::spinoff_prover]
pub proof fn lemma_list_method_builtins()
    ensures
        builtin_by_label("List.map"@) == Some(crate::completions::registry()[24]),
        builtin_by_label("List.filter"@) == Some(crate::completions::registry()[25]),
        builtin_by_label("List.fold"@) == Some(crate::completions::registry()[26]),
{
    lemma_registry_labels();
    reveal_strlit("in");
    reveal_strlit("out");
    reveal_strlit("aux");
    reveal_strlit("var");
    reveal_strlit("Int");
    reveal_strlit("Float");
    reveal_strlit("Bool");
    reveal_strlit("Str");
    reveal_strlit("Unit");
    reveal_strlit("Any");
    reveal_strlit("List");
    reveal_strlit("Map");
    reveal_strlit("Struct");
    reveal_strlit("Tuple");
    reveal_strlit("false");
    reveal_strlit("true");
    reveal_strlit("List()");
    reveal_strlit("List.");
    reveal_strlit("List.get");
    reveal_strlit("List.append");
    reveal_strlit("List.concat");
    reveal_strlit("List.head");
    reveal_strlit("List.tail");
    reveal_strlit("List.len");
    reveal_strlit("List.map");
    reveal_strlit("List.filter");
    reveal_strlit("List.fold");
    let reg = crate::completions::registry();
    assert forall|k: int| 0 <= k < 24 implies #[trigger] reg[k].label@ != "List.map"@ by {
        assert(k == 0 || k == 1 || k == 2 || k == 3 || k == 4 || k == 5 || k == 6 || k == 7 || k == 8 || k == 9 || k == 10 || k == 11 || k == 12 || k == 13 || k == 14 || k == 15 || k == 16 || k == 17 || k == 18 || k == 19 || k == 20 || k == 21 || k == 22 || k == 23);
        if reg[k].label@.len() == "List.map"@.len() {
            assert(reg[k].label@[5] != "List.map"@[5]);
        }
    }
    lemma_builtin_at("List.map"@, 24);
    assert forall|k: int| 0 <= k < 25 implies #[trigger] reg[k].label@ != "List.filter"@ by {
        assert(k == 0 || k == 1 || k == 2 || k == 3 || k == 4 || k == 5 || k == 6 || k == 7 || k == 8 || k == 9 || k == 10 || k == 11 || k == 12 || k == 13 || k == 14 || k == 15 || k == 16 || k == 17 || k == 18 || k == 19 || k == 20 || k == 21 || k == 22 || k == 23 || k == 24);
        if reg[k].label@.len() == "List.filter"@.len() {
            assert(reg[k].label@[5] != "List.filter"@[5]);
        }
    }
    lemma_builtin_at("List.filter"@, 25);
    assert forall|k: int| 0 <= k < 26 implies #[trigger] reg[k].label@ != "List.fold"@ by {
        assert(k == 0 || k == 1 || k == 2 || k == 3 || k == 4 || k == 5 || k == 6 || k == 7 || k == 8 || k == 9 || k == 10 || k == 11 || k == 12 || k == 13 || k == 14 || k == 15 || k == 16 || k == 17 || k == 18 || k == 19 || k == 20 || k == 21 || k == 22 || k == 23 || k == 24 || k == 25);
        if reg[k].label@.len() == "List.fold"@.len() {
            assert(reg[k].label@[5] != "List.fold"@[5]);
        }
    }
    lemma_builtin_at("List.fold"@, 26);
}

fn annotation_suffix(spec: &SpecificationSnapshot, name: &str) -> (r: String)
    ensures
        r@ == type_suffix(*spec, name@),
{
    let anns = spec.type_annotations();
    let mut i: usize = 0;
    while i < anns.len()
        invariant
            anns@ == spec.spec_type_annotations(),
            i <= anns@.len(),
            first_annotation(anns@, name@, 0) == first_annotation(anns@, name@, i as int),
        decreases anns@.len() - i,
    {
        if str_equal(anns[i].0.as_str(), name) {
            let mut r = String::from_str(": ");
            r.append(anns[i].1.as_str());
            return r;
        }
        i = i + 1;
    }
    String::new()
}

/// The hover over variable `variable` of `spec`, spanning `span`.
pub fn create_variable_hover(spec: &SpecificationSnapshot, variable: &str, span: Span, rope: &Rope) -> (r: Option<Hover>)
    ensures
        match variable_hover_markdown(*spec, variable@) {
            Some(m) => r matches Some(h) && is_hover(h, m, span_range_spec(rope_text(*rope), span)),
            None => r.is_none(),
        },
        r.is_some(),
{
    proof {
        lemma_stream_builtins();
    }
    let suffix = annotation_suffix(spec, variable);
    let (word, text): (&str, &str) = if contains_name(spec.input_vars(), variable) {
        match get_builtin_by_label("in") {
            Some(b) => ("in", b.documentation),
            None => {
                return None;
            },
        }
    } else if contains_name(spec.aux_vars(), variable) {
        match get_builtin_by_label("aux") {
            Some(b) => ("aux", b.documentation),
            None => {
                return None;
            },
        }
    } else if contains_name(spec.output_vars(), variable) {
        match get_builtin_by_label("out") {
            Some(b) => ("out", b.documentation),
            None => {
                return None;
            },
        }
    } else {
        ("stream", "stream")
    };
    let mut info = String::from_str("```dsrv\n");
    info.append(word);
    info.append(" ");
    info.append(variable);
    info.append(suffix.as_str());
    info.append("\n```\n---\n");
    info.append(text);
    Some(create_hover_variable(info.as_str(), &span, rope))
}

/// The label of the built-in whose documentation a hover over a node of
/// this kind shows; `None` for kinds without one.
pub open spec fn hover_label_spec(n: SExpr) -> Option<Seq<char>> {
    match n {
        SExpr::Val(Literal::Bool(b)) => Some(
            if b {
                "true"@
            } else {
                "false"@
            },
        ),
        SExpr::Dynamic => Some("dynamic"@),
        SExpr::Defer => Some("defer"@),
        SExpr::Update => Some("update"@),
        SExpr::Default => Some("default"@),
        SExpr::IsDefined => Some("is_defined"@),
        SExpr::When => Some("when"@),
        SExpr::Latch => Some("latch"@),
        SExpr::Init => Some("init"@),
        SExpr::SIndex => Some("SIndex"@),
        SExpr::If => Some("If then else"@),
        SExpr::MonitoredAt => Some("Monitored_at"@),
        SExpr::Dist => Some("dist"@),
        SExpr::List => Some("List."@),
        SExpr::LIndex => Some("List.get"@),
        SExpr::LAppend => Some("List.append"@),
        SExpr::LConcat => Some("List.concat"@),
        SExpr::LHead => Some("List.head"@),
        SExpr::LTail => Some("List.tail"@),
        SExpr::LLen => Some("List.len"@),
        SExpr::LMap => Some("List.map"@),
        SExpr::LFilter => Some("List.filter"@),
        SExpr::LFold => Some("List.fold"@),
        SExpr::MapExpr => Some("Map."@),
        SExpr::MGet => Some("Map.get"@),
        SExpr::MInsert => Some("Map.insert"@),
        SExpr::MRemove => Some("Map.remove"@),
        SExpr::MHasKey => Some("Map.has_key"@),
        SExpr::Sin => Some("sin"@),
        SExpr::Cos => Some("cos"@),
        SExpr::Tan => Some("tan"@),
        SExpr::Abs => Some("abs"@),
        SExpr::Not => Some("Not"@),
        SExpr::Neg => Some("Neg"@),
        _ => None,
    }
}

/// The keyword with which a node of this kind is written, for the nodes
/// written as one keyword: a boolean literal, a stream operator such as
/// `defer`, or a function such as `sin`.
pub open spec fn node_keyword(n: SExpr) -> Option<Token> {
    match n {
        SExpr::Val(Literal::Bool(true)) => Some(Token::True),
        SExpr::Val(Literal::Bool(false)) => Some(Token::False),
        SExpr::Dynamic => Some(Token::Dynamic),
        SExpr::Defer => Some(Token::Defer),
        SExpr::Update => Some(Token::Update),
        SExpr::Default => Some(Token::Default),
        SExpr::IsDefined => Some(Token::IsDefined),
        SExpr::When => Some(Token::When),
        SExpr::Latch => Some(Token::Latch),
        SExpr::Init => Some(Token::Init),
        SExpr::Dist => Some(Token::Dist),
        SExpr::Sin => Some(Token::Sin),
        SExpr::Cos => Some(Token::Cos),
        SExpr::Tan => Some(Token::Tan),
        SExpr::Abs => Some(Token::Abs),
        _ => None,
    }
}

/// For the nodes of the `List` and `Map` modules: the module's keyword and
/// the name of the method (empty for the module's own literal).
pub open spec fn module_method(n: SExpr) -> Option<(Token, Seq<char>)> {
    match n {
        SExpr::List => Some((Token::List, Seq::<char>::empty())),
        SExpr::LIndex => Some((Token::List, seq!['g', 'e', 't'])),
        SExpr::LAppend => Some((Token::List, seq!['a', 'p', 'p', 'e', 'n', 'd'])),
        SExpr::LConcat => Some((Token::List, seq!['c', 'o', 'n', 'c', 'a', 't'])),
        SExpr::LHead => Some((Token::List, seq!['h', 'e', 'a', 'd'])),
        SExpr::LTail => Some((Token::List, seq!['t', 'a', 'i', 'l'])),
        SExpr::LLen => Some((Token::List, seq!['l', 'e', 'n'])),
        SExpr::LMap => Some((Token::List, seq!['m', 'a', 'p'])),
        SExpr::LFilter => Some((Token::List, seq!['f', 'i', 'l', 't', 'e', 'r'])),
        SExpr::LFold => Some((Token::List, seq!['f', 'o', 'l', 'd'])),
        SExpr::MapExpr => Some((Token::MapKeyword, Seq::<char>::empty())),
        SExpr::MGet => Some((Token::MapKeyword, seq!['g', 'e', 't'])),
        SExpr::MInsert => Some((Token::MapKeyword, seq!['i', 'n', 's', 'e', 'r', 't'])),
        SExpr::MRemove => Some((Token::MapKeyword, seq!['r', 'e', 'm', 'o', 'v', 'e'])),
        SExpr::MHasKey => Some((Token::MapKeyword, seq!['h', 'a', 's', '_', 'k', 'e', 'y'])),
        _ => None,
    }
}

/// The hover over a node shows the built-in named as the node is written:
/// a node written as a keyword is labelled with that keyword's spelling
/// (`sin(x)` with `sin`, `true` with `true`), and a module method with the
/// module's keyword, a dot and the method's name (`List.map`).
pub proof fn law_hover_labels(n: SExpr)
    ensures
        node_keyword(n) matches Some(k) ==> hover_label_spec(n) == Some(keyword_spelling(k)),
        module_method(n) matches Some((m, name)) ==> hover_label_spec(n) == Some(
            keyword_spelling(m) + seq!['.'] + name,
        ),
{
    match n {
        SExpr::Val(Literal::Bool(true)) => {
            reveal_strlit("true");
        },
        SExpr::Val(Literal::Bool(false)) => {
            reveal_strlit("false");
        },
        SExpr::Dynamic => {
            reveal_strlit("dynamic");
        },
        SExpr::Defer => {
            reveal_strlit("defer");
        },
        SExpr::Update => {
            reveal_strlit("update");
        },
        SExpr::Default => {
            reveal_strlit("default");
        },
        SExpr::IsDefined => {
            reveal_strlit("is_defined");
        },
        SExpr::When => {
            reveal_strlit("when");
        },
        SExpr::Latch => {
            reveal_strlit("latch");
        },
        SExpr::Init => {
            reveal_strlit("init");
        },
        SExpr::Dist => {
            reveal_strlit("dist");
        },
        SExpr::Sin => {
            reveal_strlit("sin");
        },
        SExpr::Cos => {
            reveal_strlit("cos");
        },
        SExpr::Tan => {
            reveal_strlit("tan");
        },
        SExpr::Abs => {
            reveal_strlit("abs");
        },
        SExpr::List => {
            reveal_strlit("List.");
        },
        SExpr::LIndex => {
            reveal_strlit("List.get");
        },
        SExpr::LAppend => {
            reveal_strlit("List.append");
        },
        SExpr::LConcat => {
            reveal_strlit("List.concat");
        },
        SExpr::LHead => {
            reveal_strlit("List.head");
        },
        SExpr::LTail => {
            reveal_strlit("List.tail");
        },
        SExpr::LLen => {
            reveal_strlit("List.len");
        },
        SExpr::LMap => {
            reveal_strlit("List.map");
        },
        SExpr::LFilter => {
            reveal_strlit("List.filter");
        },
        SExpr::LFold => {
            reveal_strlit("List.fold");
        },
        SExpr::MapExpr => {
            reveal_strlit("Map.");
        },
        SExpr::MGet => {
            reveal_strlit("Map.get");
        },
        SExpr::MInsert => {
            reveal_strlit("Map.insert");
        },
        SExpr::MRemove => {
            reveal_strlit("Map.remove");
        },
        SExpr::MHasKey => {
            reveal_strlit("Map.has_key");
        },
        _ => {},
    }
    if node_keyword(n) is Some {
        assert(hover_label_spec(n)->0 =~= keyword_spelling(node_keyword(n)->0));
    }
    if module_method(n) is Some {
        let (m, name) = module_method(n)->0;
        assert(hover_label_spec(n)->0 =~= keyword_spelling(m) + seq!['.'] + name);
    }
}

/// The label of the built-in that documents a node of this kind.
pub fn hover_label(n: &SExpr) -> (r: Option<&'static str>)
    ensures
        match hover_label_spec(*n) {
            Some(l) => r matches Some(s) && s@ == l,
            None => r.is_none(),
        },
        node_keyword(*n) matches Some(k) ==> r matches Some(s) && s@ == keyword_spelling(k),
        module_method(*n) matches Some((m, name)) ==> r matches Some(s) && s@ == keyword_spelling(m)
            + seq!['.'] + name,
{
    proof {
        law_hover_labels(*n);
    }
    match n {
        SExpr::Val(Literal::Bool(b)) => Some(
            if *b {
                "true"
            } else {
                "false"
            },
        ),
        SExpr::Dynamic => Some("dynamic"),
        SExpr::Defer => Some("defer"),
        SExpr::Update => Some("update"),
        SExpr::Default => Some("default"),
        SExpr::IsDefined => Some("is_defined"),
        SExpr::When => Some("when"),
        SExpr::Latch => Some("latch"),
        SExpr::Init => Some("init"),
        SExpr::SIndex => Some("SIndex"),
        SExpr::If => Some("If then else"),
        SExpr::MonitoredAt => Some("Monitored_at"),
        SExpr::Dist => Some("dist"),
        SExpr::List => Some("List."),
        SExpr::LIndex => Some("List.get"),
        SExpr::LAppend => Some("List.append"),
        SExpr::LConcat => Some("List.concat"),
        SExpr::LHead => Some("List.head"),
        SExpr::LTail => Some("List.tail"),
        SExpr::LLen => Some("List.len"),
        SExpr::LMap => Some("List.map"),
        SExpr::LFilter => Some("List.filter"),
        SExpr::LFold => Some("List.fold"),
        SExpr::MapExpr => Some("Map."),
        SExpr::MGet => Some("Map.get"),
        SExpr::MInsert => Some("Map.insert"),
        SExpr::MRemove => Some("Map.remove"),
        SExpr::MHasKey => Some("Map.has_key"),
        SExpr::Sin => Some("sin"),
        SExpr::Cos => Some("cos"),
        SExpr::Tan => Some("tan"),
        SExpr::Abs => Some("abs"),
        SExpr::Not => Some("Not"),
        SExpr::Neg => Some("Neg"),
        _ => None,
    }
}

/// The byte offset of a position of `t`, or 0 where there is none.
pub open spec fn offset_or_zero(t: Seq<char>, position: Position) -> u32 {
    match position_offset(t, position) {
        Some(o) => o,
        None => 0,
    }
}

/// The contents and range of the hover at `position` of the document `t`
/// analysed as `a`: over the smallest node at that offset, a variable shows
/// its stream and type, another node the documentation of its built-in;
/// `None` without a specification, a node there, or a built-in for it.
pub open spec fn hover_spec(a: Analysis, t: Seq<char>, position: Position) -> Option<(Seq<char>, Range)> {
    let off = offset_or_zero(t, position);
    match a.spec {
        None => None,
        Some(spec) => match smallest_spanning(a.spanned_nodes@, off, a.spanned_nodes@.len() as int) {
            None => None,
            Some(i) => {
                let n = a.spanned_nodes@[i];
                match n.node {
                    SExpr::Var(name) => match variable_hover_markdown(spec, name@) {
                        Some(m) => Some((m, span_range_spec(t, n.span))),
                        None => None,
                    },
                    other => match hover_label_spec(other) {
                        None => None,
                        Some(l) => match builtin_by_label(l) {
                            None => None,
                            Some(b) => Some((item_hover_markdown(b), span_range_spec(t, n.span))),
                        },
                    },
                }
            },
        },
    }
}

/// The built-in that documents a list method node.
pub open spec fn list_method_builtin(n: SExpr) -> Option<DsrvBuiltIn> {
    match n {
        SExpr::LMap => Some(crate::completions::registry()[24]),
        SExpr::LFilter => Some(crate::completions::registry()[25]),
        SExpr::LFold => Some(crate::completions::registry()[26]),
        _ => None,
    }
}

/// A hover over a `List.map`, `List.filter` or `List.fold` node of an
/// analysed document shows that method's documentation over the node's
/// range.
pub proof fn law_list_method_hover(a: Analysis, t: Seq<char>, position: Position, i: int)
    requires
        a.spec is Some,
        smallest_spanning(a.spanned_nodes@, offset_or_zero(t, position), a.spanned_nodes@.len() as int)
            == Some(i),
        list_method_builtin(a.spanned_nodes@[i].node) is Some,
    ensures
        hover_spec(a, t, position) == Some(
            (
                item_hover_markdown(list_method_builtin(a.spanned_nodes@[i].node)->0),
                span_range_spec(t, a.spanned_nodes@[i].span),
            ),
        ),
{
    lemma_list_method_builtins();
}

/// `r` is the hover at `position` of the document `t` analysed as `a`.
pub open spec fn hover_ok(a: Analysis, t: Seq<char>, position: Position, r: Option<Hover>) -> bool {
    match hover_spec(a, t, position) {
        Some((c, range)) => r matches Some(h) && is_hover(h, c, range),
        None => r.is_none(),
    }
}

/// The hover at `position` of the document held in `rope` and analysed as
/// `analysis`.
pub fn hover_at(analysis: &Analysis, rope: &Rope, position: Position) -> (r: Option<Hover>)
    ensures
        hover_ok(*analysis, rope_text(*rope), position, r),
{
    let pos_offset: u32 = match pos_to_offset(position, rope) {
        Some(o) => o,
        None => 0,
    };
    let spec = match &analysis.spec {
        Some(s) => s,
        None => {
            return None;
        },
    };
    let node = match analysis.node_at_offset(pos_offset) {
        Some(n) => n,
        None => {
            return None;
        },
    };
    match &node.node {
        SExpr::Var(name) => create_variable_hover(spec, name.as_str(), node.span, rope),
        other => {
            let label = match hover_label(other) {
                Some(l) => l,
                None => {
                    return None;
                },
            };
            let builtin = match get_builtin_by_label(label) {
                Some(b) => b,
                None => {
                    return None;
                },
            };
            Some(create_hover_item(&builtin, &node.span, rope))
        },
    }
}

/// `c` is the completion item for the stream `name` of kind `k`: its label,
/// the variable kind and the stream's detail.
pub open spec fn is_stream_item(c: CompletionItem, name: Seq<char>, k: StreamKind) -> bool {
    &&& c.label@ == name
    &&& c.kind == Some(CompletionItemKind::Variable)
    &&& c.detail matches Some(d) && d@ == stream_detail(k)
    &&& c.insert_text.is_none()
    &&& c.insert_text_format.is_none()
    &&& c.documentation.is_none()
}

/// The first `n` streams of `s` offered in one of `contexts`, in order.
pub open spec fn offered_streams(s: Seq<(Seq<char>, StreamKind)>, contexts: Seq<&'static str>, n: int) -> Seq<
    (Seq<char>, StreamKind),
>
    decreases n,
{
    if n <= 0 {
        Seq::empty()
    } else {
        let prev = offered_streams(s, contexts, n - 1);
        if shares_context(contexts, stream_triggers(s[n - 1].1)@) {
            prev.push(s[n - 1])
        } else {
            prev
        }
    }
}

/// The completion contexts at `position` of the document `t` lexed into
/// `tokens`.
pub open spec fn contexts_at(t: Seq<char>, tokens: Seq<TokenData>, position: Position) -> Seq<&'static str> {
    let off = offset_or_zero(t, position) as usize;
    suggestions_at(tokens, off)
}

/// `r` is what completion answers at `position` of the document `t`, lexed
/// into `tokens` and analysed as `analysis`: the built-ins offered in the
/// contexts there, then the declared streams offered there; nothing at all
/// while there is no analysis with a specification.
pub open spec fn completions_ok(
    t: Seq<char>,
    tokens: Seq<TokenData>,
    analysis: Option<Analysis>,
    position: Position,
    r: Option<Vec<CompletionItem>>,
) -> bool {
    let ctx = contexts_at(t, tokens, position);
    match analysis {
        Some(a) if a.spec is Some => r matches Some(items) && {
            let b = offered_builtins(ctx);
            let d = declared_streams(a.spec->0);
            let v = offered_streams(d, ctx, d.len() as int);
            &&& items@.len() == b.len() + v.len()
            &&& forall|i: int| 0 <= i < b.len() ==> is_item_of(#[trigger] items@[i], b[i])
            &&& forall|i: int|
                0 <= i < v.len() ==> is_stream_item(#[trigger] items@[b.len() + i], v[i].0, v[i].1)
        },
        _ => r.is_none(),
    }
}

/// The analysis behind an optional reference.
pub open spec fn opt_analysis(a: Option<&Analysis>) -> Option<Analysis> {
    match a {
        Some(x) => Some(*x),
        None => None,
    }
}

/// The completions at `position` of a document held in `rope`, lexed into
/// `tokens` and analysed as `analysis`: the built-ins offered in the
/// contexts there, then the declared streams offered there. There are none
/// at all while the document has no analysis with a specification.
pub fn completions_at(
    rope: &Rope,
    tokens: &[TokenData],
    analysis: Option<&Analysis>,
    position: Position,
) -> (r: Option<Vec<CompletionItem>>)
    ensures
        completions_ok(rope_text(*rope), tokens@, opt_analysis(analysis), position, r),
{
    let pos_offset: u32 = match pos_to_offset(position, rope) {
        Some(o) => o,
        None => 0,
    };
    let context = filter_suggestions(pos_offset as usize, tokens);
    let mut items = builtin_completions(context.as_slice());
    let a = match analysis {
        Some(a) => a,
        None => {
            return None;
        },
    };
    let spec = match &a.spec {
        Some(s) => s,
        None => {
            return None;
        },
    };
    let variables = get_all_declared_symbols(spec);
    let ghost b = offered_builtins(context@);
    let ghost d = declared_streams(*spec);
    let nb = items.len();
    let mut i: usize = 0;
    while i < variables.len()
        invariant
            nb == b.len(),
            variables@.len() == d.len(),
            forall|j: int| 0 <= j < d.len() ==> is_variable_of(#[trigger] variables@[j], d[j].0, d[j].1),
            i <= variables@.len(),
            items@.len() == nb + offered_streams(d, context@, i as int).len(),
            forall|j: int| 0 <= j < nb ==> is_item_of(#[trigger] items@[j], b[j]),
            forall|j: int|
                0 <= j < offered_streams(d, context@, i as int).len() ==> is_stream_item(
                    #[trigger] items@[nb + j],
                    offered_streams(d, context@, i as int)[j].0,
                    offered_streams(d, context@, i as int)[j].1,
                ),
        decreases variables@.len() - i,
    {
        let var = &variables[i];
        if any_context_matches(context.as_slice(), var.trigger_context) {
            items.push(
                CompletionItem {
                    label: var.label.clone(),
                    kind: Some(var.kind),
                    detail: Some(var.detail.clone()),
                    insert_text: None,
                    insert_text_format: None,
                    documentation: None,
                },
            );
        }
        i = i + 1;
    }
    Some(items)
}

/// The concurrent hash map of the `dashmap` crate, opaque here.
#[verifier::external_type_specification]
#[verifier::external_body]
#[verifier::reject_recursive_types(K)]
#[verifier::reject_recursive_types(V)]
#[verifier::reject_recursive_types(S)]
pub struct ExDashMap<K, V, S>(dashmap::DashMap<K, V, S>);

/// What the server keeps of a document: its text, its tokens, its latest
/// analysis with a specification (if any), and its revision.
pub struct Document {
    rope: Rope,
    tokens: Vec<TokenData>,
    analysis: Option<Arc<Analysis>>,
    revision: u64,
}

/// A document as plain values: its text, its tokens, its analysis and its
/// revision.
pub closed spec fn document_view(d: Document) -> (Seq<char>, Seq<TokenData>, Option<Analysis>, u64) {
    (
        rope_text(d.rope),
        d.tokens@,
        match d.analysis {
            Some(a) => Some(*a),
            None => None,
        },
        d.revision,
    )
}

/// The documents a map holds, each under the text of its identifier.
pub uninterp spec fn stored_documents(m: DashMap<String, Document>) -> Map<
    Seq<char>,
    (Seq<char>, Seq<TokenData>, Option<Analysis>, u64),
>;

/// No document at all.
pub open spec fn no_documents() -> Map<Seq<char>, (Seq<char>, Seq<TokenData>, Option<Analysis>, u64)> {
    Map::empty()
}

/// `DashMap::new`: an empty map.
#[verifier::external_body]
fn documents_new() -> (r: DashMap<String, Document>)
    ensures
        stored_documents(r) == no_documents(),
{
    DashMap::new()
}

/// `DashMap::get` with the identifier's text as key, the document copied
/// out of the read guard (the rope and the analysis shared, the tokens
/// cloned): the document stored under `key`, if any.
#[verifier::external_body]
fn documents_get(m: &DashMap<String, Document>, key: &str) -> (r: Option<Document>)
    ensures
        r is Some == stored_documents(*m).contains_key(key@),
        r matches Some(d) ==> document_view(d) == stored_documents(*m)[key@],
{
    m.get(key).map(|entry| {
        let d = entry.value();
        Document {
            rope: d.rope.clone(),
            tokens: d.tokens.clone(),
            analysis: d.analysis.clone(),
            revision: d.revision,
        }
    })
}

/// `DashMap::insert` under an owned copy of `key`: the map then holds `d`
/// under `key`, and the other documents as before.
#[verifier::external_body]
fn documents_insert(m: &mut DashMap<String, Document>, key: &str, d: Document)
    ensures
        stored_documents(*final(m)) == stored_documents(*old(m)).insert(key@, document_view(d)),
{
    m.insert(key.to_string(), d);
}

/// The revision after `r`: one more, saturating at `u64::MAX`.
pub open spec fn next_revision_spec(r: u64) -> u64 {
    if r == u64::MAX {
        u64::MAX
    } else {
        (r + 1) as u64
    }
}

/// The revision after `r`.
pub fn next_revision(r: u64) -> (n: u64)
    ensures
        n == next_revision_spec(r),
{
    r.saturating_add(1)
}

/// A document's revision counter goes up with each change until it
/// saturates.
pub proof fn law_revisions_increase(r: u64)
    ensures
        next_revision_spec(r) > r || r == u64::MAX,
        next_revision_spec(r) >= 1,
{
}

/// What to do with an analysis once it is done.
#[derive(Debug, Clone, Copy, PartialEq, Eq, Structural)]
pub enum ChangeAction {
    /// A newer change has started since: drop the result.
    Discard,
    /// Keep the analysis and publish its diagnostics.
    Store,
    /// Forget any analysis of the document and publish the diagnostics.
    Forget,
}

/// What to do with the analysis of revision `revision` of a document whose
/// current revision is `current`: a result that is no longer current is
/// dropped; a current one is kept if it has a specification, and forgotten
/// otherwise.
pub fn change_action(current: Option<u64>, revision: u64, analysis: &Analysis) -> (r: ChangeAction)
    ensures
        current != Some(revision) ==> r == ChangeAction::Discard,
        current == Some(revision) && analysis.spec.is_some() ==> r == ChangeAction::Store,
        current == Some(revision) && analysis.spec.is_none() ==> r == ChangeAction::Forget,
{
    match current {
        Some(c) => if c != revision {
            ChangeAction::Discard
        } else if analysis.spec.is_some() {
            ChangeAction::Store
        } else {
            ChangeAction::Forget
        },
        None => ChangeAction::Discard,
    }
}

/// `toks` are the tokens of the text `t`, as `tokenize` gives them.
pub open spec fn is_token_list_of(toks: Seq<TokenData>, t: Seq<char>) -> bool {
    &&& toks.len() == lex(t).len()
    &&& forall|i: int| 0 <= i < toks.len() ==> token_data_of(#[trigger] toks[i], t, lex(t)[i])
}

/// The revision a document has, or 0 where the server does not know it.
pub open spec fn revision_of(
    docs: Map<Seq<char>, (Seq<char>, Seq<TokenData>, Option<Analysis>, u64)>,
    uri: Seq<char>,
) -> u64 {
    if docs.contains_key(uri) {
        docs[uri].3
    } else {
        0
    }
}

/// The documents the server knows of, each under the text of its
/// identifier: its text, its tokens, its latest analysis with a
/// specification, and its revision.
pub struct Backend {
    documents: DashMap<String, Document>,
}

impl Backend {
    /// The documents the server knows of.
    pub closed spec fn documents(&self) -> Map<Seq<char>, (Seq<char>, Seq<TokenData>, Option<Analysis>, u64)> {
        stored_documents(self.documents)
    }

    /// A server that knows of no document.
    pub fn new() -> (r: Backend)
        ensures
            r.documents() == no_documents(),
    {
        Backend { documents: documents_new() }
    }

    /// Starts a change of document `uri` to `text`: takes the revision after
    /// the document's last one (the first is 1), stores the new text and its
    /// tokens, and forgets the old analysis so that no request pairs it with
    /// the new text. Returns the revision.
    pub fn begin_change(&mut self, uri: &str, text: &str) -> (revision: u64)
        ensures
            revision == next_revision_spec(revision_of(old(self).documents(), uri@)),
            final(self).documents().contains_key(uri@),
            final(self).documents() == old(self).documents().insert(
                uri@,
                (text@, final(self).documents()[uri@].1, None, revision),
            ),
            is_token_list_of(final(self).documents()[uri@].1, text@),
    {
        let last: u64 = match documents_get(&self.documents, uri) {
            Some(d) => d.revision,
            None => 0,
        };
        let revision = next_revision(last);
        let doc = Document { rope: rope_from_str(text), tokens: tokenize(text), analysis: None, revision };
        documents_insert(&mut self.documents, uri, doc);
        revision
    }

    /// Ends the change of document `uri` that took revision `revision`, with
    /// its analysis: where that revision is still the document's, keeps the
    /// analysis if it has a specification (forgets it otherwise) and returns
    /// its diagnostics to publish; where a newer change has started meanwhile
    /// (or the document is unknown), drops the result and returns `None`.
    pub fn finish_change(&mut self, uri: &str, revision: u64, analysis: Analysis) -> (r: Option<Vec<Diagnostic>>)
        ensures
            ({
                let docs = old(self).documents();
                if docs.contains_key(uri@) && docs[uri@].3 == revision {
                    let d = docs[uri@];
                    &&& r matches Some(diags) && diags@ == analysis.diags@
                    &&& final(self).documents() == docs.insert(
                        uri@,
                        (
                            d.0,
                            d.1,
                            if analysis.spec.is_some() {
                                Some(analysis)
                            } else {
                                None
                            },
                            d.3,
                        ),
                    )
                } else {
                    &&& r.is_none()
                    &&& final(self).documents() == docs
                }
            }),
    {
        let current = documents_get(&self.documents, uri);
        let current_revision = match &current {
            Some(d) => Some(d.revision),
            None => None,
        };
        match change_action(current_revision, revision, &analysis) {
            ChangeAction::Discard => None,
            ChangeAction::Store => {
                let diags = analysis.diags.clone();
                proof {
                    assert(diags@ =~= analysis.diags@);
                }
                let old_doc = current.unwrap();
                let doc = Document {
                    rope: old_doc.rope,
                    tokens: old_doc.tokens,
                    analysis: Some(Arc::new(analysis)),
                    revision: old_doc.revision,
                };
                documents_insert(&mut self.documents, uri, doc);
                Some(diags)
            },
            ChangeAction::Forget => {
                let diags = analysis.diags.clone();
                proof {
                    assert(diags@ =~= analysis.diags@);
                }
                let old_doc = current.unwrap();
                let doc = Document {
                    rope: old_doc.rope,
                    tokens: old_doc.tokens,
                    analysis: None,
                    revision: old_doc.revision,
                };
                documents_insert(&mut self.documents, uri, doc);
                Some(diags)
            },
        }
    }

    /// The completions at `position` of document `uri`, from its stored
    /// text, tokens and analysis; `None` for a document the server does not
    /// know.
    pub fn get_completion(&self, uri: &str, position: Position) -> (r: Option<Vec<CompletionItem>>)
        ensures
            match self.documents().get(uri@) {
                Some(d) => completions_ok(d.0, d.1, d.2, position, r),
                None => r.is_none(),
            },
    {
        let doc = match documents_get(&self.documents, uri) {
            Some(d) => d,
            None => {
                return None;
            },
        };
        match &doc.analysis {
            Some(analysis) => completions_at(&doc.rope, doc.tokens.as_slice(), Some(&**analysis), position),
            None => completions_at(&doc.rope, doc.tokens.as_slice(), None, position),
        }
    }

    /// The hover at `position` of document `uri`, from its stored analysis
    /// and text; `None` for a document the server does not know or has no
    /// analysis of.
    pub fn provide_hover(&self, uri: &str, position: Position) -> (r: Option<Hover>)
        ensures
            match self.documents().get(uri@) {
                Some(d) => match d.2 {
                    Some(a) => hover_ok(a, d.0, position, r),
                    None => r.is_none(),
                },
                None => r.is_none(),
            },
    {
        let doc = match documents_get(&self.documents, uri) {
            Some(d) => d,
            None => {
                return None;
            },
        };
        match &doc.analysis {
            Some(analysis) => hover_at(&**analysis, &doc.rope, position),
            None => None,
        }
    }
}

} // verus!
