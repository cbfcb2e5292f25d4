//! What the server keeps of a parsed DSRV specification: the declared
//! streams, a flat, source-ordered list of spanned nodes, and the diagnostics.

use vstd::prelude::*;
use crate::diagnostics::{
    create_semantic_diag, is_dsrv_error, location_pattern, parse_diag, parse_diag_spec,
    position_of_captures, regex_captures_of, semantic_error_message, semantic_prefix,
    span_range_spec, ast_error_view, Diagnostic, ParseFailure, SemanticError,
};
use crate::protocol::Range;
use crate::utils::rope_from_str;
use crate::lexer::{lex, token_data_of, tokenize, Token, TokenData};

verus! {

/// A range of bytes of the source, `start..end`.
#[derive(Debug, Clone, Copy, PartialEq, Eq, Structural)]
pub struct Span {
    pub start: u32,
    pub end: u32,
}

/// A literal value, as far as hover needs to know it.
#[derive(Clone, Debug, PartialEq, Eq, Structural)]
pub enum Literal {
    Bool(bool),
    Other,
}

/// The kind of an expression node (and, for variables, its name).
#[derive(Clone, Debug, PartialEq, Eq)]
pub enum SExpr {
    If,
    SIndex,
    Val(Literal),
    BinOp,
    Var(String),
    Dynamic,
    Defer,
    Update,
    Default,
    IsDefined,
    When,
    Latch,
    Init,
    Not,
    Neg,
    Lambda,
    Apply,
    Fix,
    Partial,
    List,
    Tuple,
    LIndex,
    LAppend,
    LConcat,
    LHead,
    LTail,
    LLen,
    LMap,
    LFilter,
    LFold,
    MapExpr,
    Struct,
    ObjectLiteral,
    MGet,
    SGet,
    MInsert,
    MRemove,
    MHasKey,
    Sin,
    Cos,
    Tan,
    Abs,
    MonitoredAt,
    Dist,
}

/// A node with the bytes of the source it spans.
#[derive(Clone, Debug, PartialEq, Eq)]
pub struct SpannedExpr {
    pub node: SExpr,
    pub span: Span,
}

/// The declared streams of a specification and its type annotations, each
/// list in the order of the names' text, as the checker's sets and maps
/// hold them.
#[derive(Debug, PartialEq, Eq)]
pub struct SpecificationSnapshot {
    input_vars: Vec<String>,
    output_vars: Vec<String>,
    aux_vars: Vec<String>,
    type_annotations: Vec<(String, String)>,
}

fn clone_names(v: &Vec<String>) -> (r: Vec<String>)
    ensures
        r@ == v@,
{
    let mut r: Vec<String> = Vec::new();
    let mut i: usize = 0;
    while i < v.len()
        invariant
            i <= v@.len(),
            r@ == v@.take(i as int),
        decreases v@.len() - i,
    {
        r.push(v[i].clone());
        proof {
            assert(v@.take(i + 1) =~= v@.take(i as int).push(v@[i as int]));
        }
        i = i + 1;
    }
    assert(v@.take(v@.len() as int) =~= v@);
    r
}

fn clone_pairs(v: &Vec<(String, String)>) -> (r: Vec<(String, String)>)
    ensures
        r@ == v@,
{
    let mut r: Vec<(String, String)> = Vec::new();
    let mut i: usize = 0;
    while i < v.len()
        invariant
            i <= v@.len(),
            r@ == v@.take(i as int),
        decreases v@.len() - i,
    {
        r.push((v[i].0.clone(), v[i].1.clone()));
        proof {
            assert(v@.take(i + 1) =~= v@.take(i as int).push(v@[i as int]));
        }
        i = i + 1;
    }
    assert(v@.take(v@.len() as int) =~= v@);
    r
}

impl Clone for SpecificationSnapshot {
    fn clone(&self) -> (r: Self)
        ensures
            r.spec_input_vars() == self.spec_input_vars(),
            r.spec_output_vars() == self.spec_output_vars(),
            r.spec_aux_vars() == self.spec_aux_vars(),
            r.spec_type_annotations() == self.spec_type_annotations(),
    {
        proof {
            use_type_invariant(self);
        }
        SpecificationSnapshot {
            input_vars: clone_names(&self.input_vars),
            output_vars: clone_names(&self.output_vars),
            aux_vars: clone_names(&self.aux_vars),
            type_annotations: clone_pairs(&self.type_annotations),
        }
    }
}

/// `a` comes before `b` in the order of strings: at the first char where
/// they differ `a`'s is the smaller, or `a` is a proper prefix of `b`.
pub open spec fn text_before(a: Seq<char>, b: Seq<char>) -> bool
    decreases a.len(),
{
    if a.len() == 0 {
        b.len() > 0
    } else if b.len() == 0 {
        false
    } else if a[0] != b[0] {
        a[0] < b[0]
    } else {
        text_before(a.drop_first(), b.drop_first())
    }
}

/// No string comes before itself, so names in strict order are distinct.
pub proof fn lemma_text_before_irreflexive(a: Seq<char>)
    ensures
        !text_before(a, a),
    decreases a.len(),
{
    if a.len() > 0 {
        lemma_text_before_irreflexive(a.drop_first());
    }
}

/// The names of the list are in strictly increasing order of their text
/// (so no two are the same).
pub open spec fn ordered_names(s: Seq<String>) -> bool {
    forall|i: int, j: int| 0 <= i < j < s.len() ==> text_before(#[trigger] s[i]@, #[trigger] s[j]@)
}

/// Names in strict order are distinct.
pub proof fn lemma_ordered_names_distinct(s: Seq<String>, i: int, j: int)
    requires
        ordered_names(s),
        0 <= i < j < s.len(),
    ensures
        s[i]@ != s[j]@,
{
    lemma_text_before_irreflexive(s[i]@);
    assert(text_before(s[i]@, s[j]@));
}

/// The entries of the list name variables in strictly increasing order of
/// their text (so no variable is annotated twice).
pub open spec fn ordered_keys(s: Seq<(String, String)>) -> bool {
    forall|i: int, j: int| 0 <= i < j < s.len() ==> text_before(#[trigger] s[i].0@, #[trigger] s[j].0@)
}

impl SpecificationSnapshot {
    /// A stream is declared once in each namespace, and annotated at most
    /// once, each list in the order of the names' text, as the checker's
    /// sets and maps hold them.
    #[verifier::type_invariant]
    spec fn well_formed(self) -> bool {
        &&& ordered_names(self.input_vars@)
        &&& ordered_names(self.output_vars@)
        &&& ordered_names(self.aux_vars@)
        &&& ordered_keys(self.type_annotations@)
    }

    /// The declared input streams.
    pub closed spec fn spec_input_vars(&self) -> Seq<String> {
        self.input_vars@
    }

    /// The declared output streams.
    pub closed spec fn spec_output_vars(&self) -> Seq<String> {
        self.output_vars@
    }

    /// The declared auxiliary streams.
    pub closed spec fn spec_aux_vars(&self) -> Seq<String> {
        self.aux_vars@
    }

    /// The type annotations: each variable with the text of its type.
    pub closed spec fn spec_type_annotations(&self) -> Seq<(String, String)> {
        self.type_annotations@
    }

    /// A snapshot with the given streams and annotations.
    pub fn from_parts(
        input_vars: Vec<String>,
        output_vars: Vec<String>,
        aux_vars: Vec<String>,
        type_annotations: Vec<(String, String)>,
    ) -> (r: Self)
        requires
            ordered_names(input_vars@),
            ordered_names(output_vars@),
            ordered_names(aux_vars@),
            ordered_keys(type_annotations@),
        ensures
            r.spec_input_vars() == input_vars@,
            r.spec_output_vars() == output_vars@,
            r.spec_aux_vars() == aux_vars@,
            r.spec_type_annotations() == type_annotations@,
    {
        SpecificationSnapshot { input_vars, output_vars, aux_vars, type_annotations }
    }

    /// The declared input streams.
    pub fn input_vars(&self) -> (r: &Vec<String>)
        ensures
            r@ == self.spec_input_vars(),
    {
        &self.input_vars
    }

    /// The declared output streams.
    pub fn output_vars(&self) -> (r: &Vec<String>)
        ensures
            r@ == self.spec_output_vars(),
    {
        &self.output_vars
    }

    /// The declared auxiliary streams.
    pub fn aux_vars(&self) -> (r: &Vec<String>)
        ensures
            r@ == self.spec_aux_vars(),
    {
        &self.aux_vars
    }

    /// Variable names with the text of their type annotation.
    pub fn type_annotations(&self) -> (r: &Vec<(String, String)>)
        ensures
            r@ == self.spec_type_annotations(),
    {
        &self.type_annotations
    }
}

/// Marks a specification that passed the type checker.
#[derive(Clone, Debug, PartialEq, Eq, Structural)]
pub struct TypeCheckedSpecification;

/// The result of analysing a document.
#[derive(Clone, Debug, PartialEq)]
pub struct Analysis {
    /// The parsed specification, if parsing succeeded.
    pub spec: Option<SpecificationSnapshot>,
    /// Present if the specification was type checked without error.
    pub typed: Option<TypeCheckedSpecification>,
    /// Syntax and semantic diagnostics.
    pub diags: Vec<Diagnostic>,
    /// Declarations and expressions of the specification, in source order.
    pub spanned_nodes: Vec<SpannedExpr>,
}

/// Whether the node spans byte `offset` (both ends included).
pub open spec fn spans_offset(n: SpannedExpr, offset: u32) -> bool {
    n.span.start <= offset && offset <= n.span.end
}

/// Number of bytes a node spans.
pub open spec fn span_len(n: SpannedExpr) -> int {
    n.span.end - n.span.start
}

/// Among the first `k` nodes, the index of the first of the shortest nodes
/// that span `offset`.
pub open spec fn smallest_spanning(s: Seq<SpannedExpr>, offset: u32, k: int) -> Option<int>
    decreases k,
{
    if k <= 0 {
        None
    } else {
        let prev = smallest_spanning(s, offset, k - 1);
        if !spans_offset(s[k - 1], offset) {
            prev
        } else {
            match prev {
                None => Some(k - 1),
                Some(j) => if span_len(s[k - 1]) < span_len(s[j]) {
                    Some(k - 1)
                } else {
                    Some(j)
                },
            }
        }
    }
}

impl Analysis {
    /// The smallest node spanning `offset` (the first of them if several
    /// are equally small), if any.
    pub fn node_at_offset(&self, offset: u32) -> (r: Option<&SpannedExpr>)
        ensures
            match smallest_spanning(self.spanned_nodes@, offset, self.spanned_nodes@.len() as int) {
                Some(i) => r == Some(&self.spanned_nodes@[i]),
                None => r.is_none(),
            },
    {
        let n = self.spanned_nodes.len();
        let mut best: Option<usize> = None;
        let mut i: usize = 0;
        while i < n
            invariant
                n == self.spanned_nodes@.len(),
                i <= n,
                match smallest_spanning(self.spanned_nodes@, offset, i as int) {
                    Some(j) => best == Some(j as usize) && 0 <= j < i && spans_offset(
                        self.spanned_nodes@[j],
                        offset,
                    ),
                    None => best.is_none(),
                },
            decreases n - i,
        {
            proof {
                law_smallest_spanning(self.spanned_nodes@, offset, i as int);
            }
            let s = self.spanned_nodes[i].span;
            if offset >= s.start && offset <= s.end {
                match best {
                    None => {
                        best = Some(i);
                    },
                    Some(j) => {
                        let b = self.spanned_nodes[j].span;
                        if s.end - s.start < b.end - b.start {
                            best = Some(i);
                        }
                    },
                }
            }
            i = i + 1;
        }
        match best {
            Some(j) => Some(&self.spanned_nodes[j]),
            None => None,
        }
    }
}

/// `node_at_offset` finds a node spanning the offset whenever there is one;
/// no node spanning it is shorter, and the nodes before it that span it are
/// longer.
pub proof fn law_smallest_spanning(s: Seq<SpannedExpr>, offset: u32, k: int)
    requires
        0 <= k <= s.len(),
    ensures
        smallest_spanning(s, offset, k) is None <==> forall|j: int|
            0 <= j < k ==> !spans_offset(#[trigger] s[j], offset),
        smallest_spanning(s, offset, k) matches Some(i) ==> {
            &&& 0 <= i < k
            &&& spans_offset(s[i], offset)
            &&& forall|j: int|
                0 <= j < k && spans_offset(#[trigger] s[j], offset) ==> span_len(s[i]) <= span_len(s[j])
            &&& forall|j: int|
                0 <= j < i && spans_offset(#[trigger] s[j], offset) ==> span_len(s[i]) < span_len(s[j])
        },
    decreases k,
{
    if k > 0 {
        law_smallest_spanning(s, offset, k - 1);
    }
}

/// Whether the token kind declares a stream.
pub open spec fn is_declaration_keyword(k: Token) -> bool {
    k == Token::In || k == Token::Out || k == Token::Aux || k == Token::Var
}

/// The variable nodes that the tokens `toks[0..k]` declare or assign: a
/// declaration keyword followed by an identifier spans both; an identifier
/// followed by `=` spans the identifier.
pub open spec fn declared_nodes(toks: Seq<TokenData>, k: int) -> Seq<SpannedExpr>
    decreases k,
{
    if k <= 0 {
        Seq::empty()
    } else {
        let prev = declared_nodes(toks, k - 1);
        let i = k - 1;
        let t = toks[i];
        let has_next = i + 1 < toks.len();
        if is_declaration_keyword(t.token) {
            if has_next && toks[i + 1].token == Token::Identifier {
                prev.push(
                    SpannedExpr {
                        node: SExpr::Var(toks[i + 1].content),
                        span: Span { start: t.span.start as u32, end: toks[i + 1].span.end as u32 },
                    },
                )
            } else {
                prev
            }
        } else if t.token == Token::Identifier && has_next && toks[i + 1].token == Token::Eq {
            prev.push(
                SpannedExpr {
                    node: SExpr::Var(t.content),
                    span: Span { start: t.span.start as u32, end: t.span.end as u32 },
                },
            )
        } else {
            prev
        }
    }
}

/// The node of the declaration `toks[i] toks[i + 1]`: the declared name,
/// spanning the keyword and the name.
pub open spec fn declaration_node(toks: Seq<TokenData>, i: int) -> SpannedExpr {
    SpannedExpr {
        node: SExpr::Var(toks[i + 1].content),
        span: Span { start: toks[i].span.start as u32, end: toks[i + 1].span.end as u32 },
    }
}

/// The node of the assignment whose target is `toks[i]`: the name, spanning
/// itself.
pub open spec fn assignment_node(toks: Seq<TokenData>, i: int) -> SpannedExpr {
    SpannedExpr {
        node: SExpr::Var(toks[i].content),
        span: Span { start: toks[i].span.start as u32, end: toks[i].span.end as u32 },
    }
}

/// `toks[i]` starts a stream declaration: one of `in`, `out`, `aux` and
/// `var`, then a name.
pub open spec fn declares_at(toks: Seq<TokenData>, i: int) -> bool {
    &&& 0 <= i && i + 1 < toks.len()
    &&& (toks[i].token == Token::In || toks[i].token == Token::Out || toks[i].token == Token::Aux || toks[i].token == Token::Var)
    &&& toks[i + 1].token == Token::Identifier
}

/// `toks[i]` is the name that an assignment `name = ...` defines.
pub open spec fn assigns_at(toks: Seq<TokenData>, i: int) -> bool {
    &&& 0 <= i && i + 1 < toks.len()
    &&& toks[i].token == Token::Identifier
    &&& toks[i + 1].token == Token::Eq
}

/// Among the tokens `toks[0..k]`, every stream declaration (`in`, `out`,
/// `aux` or `var`, then a name) gives a node of the name spanning the
/// keyword and the name, every assignment target gives a node of the name
/// spanning it, and every node found is one of these.
pub proof fn law_declared_nodes(toks: Seq<TokenData>, k: int)
    requires
        0 <= k <= toks.len(),
    ensures
        forall|i: int|
            0 <= i < k && #[trigger] declares_at(toks, i) ==> declared_nodes(toks, k).contains(
                declaration_node(toks, i),
            ),
        forall|i: int|
            0 <= i < k && #[trigger] assigns_at(toks, i) ==> declared_nodes(toks, k).contains(
                assignment_node(toks, i),
            ),
        forall|j: int|
            0 <= j < declared_nodes(toks, k).len() ==> exists|i: int|
                0 <= i < k && ((declares_at(toks, i) && #[trigger] declared_nodes(toks, k)[j]
                    == declaration_node(toks, i)) || (assigns_at(toks, i) && declared_nodes(toks, k)[j]
                    == assignment_node(toks, i))),
    decreases k,
{
    if k > 0 {
        law_declared_nodes(toks, k - 1);
        let prev = declared_nodes(toks, k - 1);
        let cur = declared_nodes(toks, k);
        let i0 = k - 1;
        assert forall|j: int| 0 <= j < prev.len() implies cur[j] == prev[j] by {}
        assert forall|i: int| 0 <= i < k && #[trigger] declares_at(toks, i) implies cur.contains(
            declaration_node(toks, i),
        ) by {
            if i < k - 1 {
                let j = choose|j: int| 0 <= j < prev.len() && prev[j] == declaration_node(toks, i);
                assert(cur[j] == prev[j]);
            } else {
                assert(cur[prev.len() as int] == declaration_node(toks, i));
            }
        }
        assert forall|i: int| 0 <= i < k && #[trigger] assigns_at(toks, i) implies cur.contains(
            assignment_node(toks, i),
        ) by {
            if i < k - 1 {
                let j = choose|j: int| 0 <= j < prev.len() && prev[j] == assignment_node(toks, i);
                assert(cur[j] == prev[j]);
            } else {
                assert(!declares_at(toks, i));
                assert(cur[prev.len() as int] == assignment_node(toks, i));
            }
        }
        assert forall|j: int| 0 <= j < cur.len() implies exists|i: int|
            0 <= i < k && ((declares_at(toks, i) && #[trigger] cur[j] == declaration_node(toks, i)) || (
            assigns_at(toks, i) && cur[j] == assignment_node(toks, i))) by {
            if j < prev.len() {
                assert(cur[j] == prev[j]);
                let i = choose|i: int|
                    0 <= i < k - 1 && ((declares_at(toks, i) && #[trigger] prev[j] == declaration_node(toks, i))
                        || (assigns_at(toks, i) && prev[j] == assignment_node(toks, i)));
                assert(0 <= i < k);
            } else {
                assert(declares_at(toks, i0) || assigns_at(toks, i0));
            }
        }
    }
}

/// Same names: a node of `a` and one of `b` are the same node, variable
/// names compared by their chars.
pub open spec fn same_node(a: SpannedExpr, b: SpannedExpr) -> bool {
    &&& a.span == b.span
    &&& match (a.node, b.node) {
        (SExpr::Var(x), SExpr::Var(y)) => x@ == y@,
        (SExpr::Var(_), _) => false,
        (_, SExpr::Var(_)) => false,
        (x, y) => x == y,
    }
}

/// Two sequences of nodes hold the same nodes in the same order.
pub open spec fn same_nodes(a: Seq<SpannedExpr>, b: Seq<SpannedExpr>) -> bool {
    a.len() == b.len() && forall|i: int| 0 <= i < a.len() ==> same_node(#[trigger] a[i], b[i])
}

fn clone_node(n: &SpannedExpr) -> (r: SpannedExpr)
    ensures
        same_node(r, *n),
{
    let node = match &n.node {
        SExpr::Var(name) => SExpr::Var(name.clone()),
        SExpr::If => SExpr::If,
        SExpr::SIndex => SExpr::SIndex,
        SExpr::Val(Literal::Bool(b)) => SExpr::Val(Literal::Bool(*b)),
        SExpr::Val(Literal::Other) => SExpr::Val(Literal::Other),
        SExpr::BinOp => SExpr::BinOp,
        SExpr::Dynamic => SExpr::Dynamic,
        SExpr::Defer => SExpr::Defer,
        SExpr::Update => SExpr::Update,
        SExpr::Default => SExpr::Default,
        SExpr::IsDefined => SExpr::IsDefined,
        SExpr::When => SExpr::When,
        SExpr::Latch => SExpr::Latch,
        SExpr::Init => SExpr::Init,
        SExpr::Not => SExpr::Not,
        SExpr::Neg => SExpr::Neg,
        SExpr::Lambda => SExpr::Lambda,
        SExpr::Apply => SExpr::Apply,
        SExpr::Fix => SExpr::Fix,
        SExpr::Partial => SExpr::Partial,
        SExpr::List => SExpr::List,
        SExpr::Tuple => SExpr::Tuple,
        SExpr::LIndex => SExpr::LIndex,
        SExpr::LAppend => SExpr::LAppend,
        SExpr::LConcat => SExpr::LConcat,
        SExpr::LHead => SExpr::LHead,
        SExpr::LTail => SExpr::LTail,
        SExpr::LLen => SExpr::LLen,
        SExpr::LMap => SExpr::LMap,
        SExpr::LFilter => SExpr::LFilter,
        SExpr::LFold => SExpr::LFold,
        SExpr::MapExpr => SExpr::MapExpr,
        SExpr::Struct => SExpr::Struct,
        SExpr::ObjectLiteral => SExpr::ObjectLiteral,
        SExpr::MGet => SExpr::MGet,
        SExpr::SGet => SExpr::SGet,
        SExpr::MInsert => SExpr::MInsert,
        SExpr::MRemove => SExpr::MRemove,
        SExpr::MHasKey => SExpr::MHasKey,
        SExpr::Sin => SExpr::Sin,
        SExpr::Cos => SExpr::Cos,
        SExpr::Tan => SExpr::Tan,
        SExpr::Abs => SExpr::Abs,
        SExpr::MonitoredAt => SExpr::MonitoredAt,
        SExpr::Dist => SExpr::Dist,
    };
    SpannedExpr { node, span: n.span }
}

/// The variable nodes that the tokens declare or assign, in token order.
pub fn declaration_nodes(tokens: &[TokenData]) -> (r: Vec<SpannedExpr>)
    ensures
        same_nodes(r@, declared_nodes(tokens@, tokens@.len() as int)),
{
    let n = tokens.len();
    let mut r: Vec<SpannedExpr> = Vec::new();
    let mut i: usize = 0;
    while i < n
        invariant
            n == tokens@.len(),
            i <= n,
            same_nodes(r@, declared_nodes(tokens@, i as int)),
        decreases n - i,
    {
        let t = &tokens[i];
        let has_next = i + 1 < n;
        if t.token == Token::In || t.token == Token::Out || t.token == Token::Aux || t.token
            == Token::Var {
            if has_next && tokens[i + 1].token == Token::Identifier {
                let name = &tokens[i + 1];
                r.push(
                    SpannedExpr {
                        node: SExpr::Var(name.content.clone()),
                        span: Span { start: t.span.start as u32, end: name.span.end as u32 },
                    },
                );
            }
        } else if t.token == Token::Identifier && has_next && tokens[i + 1].token == Token::Eq {
            r.push(
                SpannedExpr {
                    node: SExpr::Var(t.content.clone()),
                    span: Span { start: t.span.start as u32, end: t.span.end as u32 },
                },
            );
        }
        i = i + 1;
    }
    r
}

/// Nodes are ordered by start, and nodes with the same start longest first.
pub open spec fn node_key_le(a: SpannedExpr, b: SpannedExpr) -> bool {
    a.span.start < b.span.start || (a.span.start == b.span.start && a.span.end >= b.span.end)
}

/// `out` is `inp` sorted by `node_key_le`, and nodes with equal keys keep
/// their order: `perm` maps each position of `out` to that of the same node
/// in `inp`.
pub open spec fn is_stable_sort_of(out: Seq<SpannedExpr>, inp: Seq<SpannedExpr>, perm: Seq<int>) -> bool {
    &&& out.len() == inp.len()
    &&& perm.len() == out.len()
    &&& forall|i: int| 0 <= i < perm.len() ==> 0 <= #[trigger] perm[i] < inp.len()
    &&& forall|i: int, j: int| 0 <= i < j < perm.len() ==> perm[i] != perm[j]
    &&& forall|i: int| 0 <= i < out.len() ==> same_node(#[trigger] out[i], inp[perm[i]])
    &&& forall|i: int, j: int| 0 <= i < j < out.len() ==> node_key_le(out[i], out[j])
    &&& forall|i: int, j: int|
        0 <= i < j < out.len() && node_key_le(out[j], out[i]) ==> perm[i] < perm[j]
}

/// Sorts nodes by start, longest first among equal starts; nodes with equal
/// starts and ends keep their order.
pub fn sort_nodes(nodes: Vec<SpannedExpr>) -> (r: Vec<SpannedExpr>)
    ensures
        exists|perm: Seq<int>| is_stable_sort_of(r@, nodes@, perm),
{
    let n = nodes.len();
    let mut out: Vec<SpannedExpr> = Vec::new();
    let ghost mut perm: Seq<int> = Seq::empty();
    let mut i: usize = 0;
    while i < n
        invariant
            n == nodes@.len(),
            i <= n,
            out@.len() == i,
            perm.len() == i,
            forall|a: int| 0 <= a < perm.len() ==> 0 <= #[trigger] perm[a] < i,
            forall|a: int, b: int| 0 <= a < b < perm.len() ==> perm[a] != perm[b],
            forall|a: int| 0 <= a < out@.len() ==> same_node(#[trigger] out@[a], nodes@[perm[a]]),
            forall|a: int, b: int| 0 <= a < b < out@.len() ==> node_key_le(out@[a], out@[b]),
            forall|a: int, b: int|
                0 <= a < b < out@.len() && node_key_le(out@[b], out@[a]) ==> perm[a] < perm[b],
        decreases n - i,
    {
        let x = clone_node(&nodes[i]);
        // position after every node whose key is at most x's
        let mut p: usize = out.len();
        while p > 0 && !node_key_le_exec(&out[p - 1], &x)
            invariant
                p <= out@.len(),
                same_node(x, nodes@[i as int]),
                forall|a: int| p <= a < out@.len() ==> !node_key_le(#[trigger] out@[a], x),
            decreases p,
        {
            p = p - 1;
        }
        proof {
            assert forall|a: int| 0 <= a < p implies node_key_le(#[trigger] out@[a], x) by {
                if a < p - 1 {
                    assert(node_key_le(out@[a], out@[p - 1]));
                }
            }
        }
        let ghost old_out = out@;
        let ghost old_perm = perm;
        out.insert(p, x);
        proof {
            perm = old_perm.insert(p as int, i as int);
            assert(out@ == old_out.insert(p as int, x));
            assert forall|a: int| 0 <= a < out@.len() implies same_node(#[trigger] out@[a], nodes@[perm[a]]) by {
                if a < p {
                    assert(out@[a] == old_out[a]);
                } else if a > p {
                    assert(out@[a] == old_out[a - 1]);
                }
            }
            assert forall|a: int, b: int| 0 <= a < b < out@.len() implies node_key_le(out@[a], out@[b]) by {
                if a < p && b < p {
                    assert(out@[a] == old_out[a] && out@[b] == old_out[b]);
                } else if a < p && b == p {
                    assert(out@[a] == old_out[a]);
                } else if a < p && b > p {
                    assert(out@[a] == old_out[a] && out@[b] == old_out[b - 1]);
                    assert(node_key_le(old_out[a], old_out[b - 1]));
                } else if a == p {
                    assert(out@[b] == old_out[b - 1]);
                    assert(!node_key_le(old_out[b - 1], x));
                } else {
                    assert(out@[a] == old_out[a - 1] && out@[b] == old_out[b - 1]);
                }
            }
            assert forall|a: int, b: int|
                0 <= a < b < out@.len() && node_key_le(out@[b], out@[a]) implies perm[a] < perm[b] by {
                if a < p && b < p {
                    assert(out@[a] == old_out[a] && out@[b] == old_out[b]);
                } else if a < p && b == p {
                    assert(old_perm[a] < i);
                } else if a < p && b > p {
                    assert(out@[a] == old_out[a] && out@[b] == old_out[b - 1]);
                } else if a == p {
                    assert(out@[b] == old_out[b - 1]);
                    assert(!node_key_le(old_out[b - 1], x));
                } else {
                    assert(out@[a] == old_out[a - 1] && out@[b] == old_out[b - 1]);
                }
            }
        }
        i = i + 1;
    }
    assert(is_stable_sort_of(out@, nodes@, perm));
    out
}

fn node_key_le_exec(a: &SpannedExpr, b: &SpannedExpr) -> (r: bool)
    ensures
        r == node_key_le(*a, *b),
{
    a.span.start < b.span.start || (a.span.start == b.span.start && a.span.end >= b.span.end)
}

/// A sorted sequence of the nodes of `a` is one of the nodes of `b` when `a`
/// and `b` hold the same nodes.
proof fn lemma_stable_sort_same_nodes(
    out: Seq<SpannedExpr>,
    a: Seq<SpannedExpr>,
    b: Seq<SpannedExpr>,
    perm: Seq<int>,
)
    requires
        is_stable_sort_of(out, a, perm),
        same_nodes(a, b),
    ensures
        is_stable_sort_of(out, b, perm),
{
    assert forall|i: int| 0 <= i < out.len() implies same_node(#[trigger] out[i], b[perm[i]]) by {
        assert(same_node(out[i], a[perm[i]]));
        assert(same_node(a[perm[i]], b[perm[i]]));
    }
}

/// Adds to `results` the variable nodes that the tokens of `source` declare
/// or assign, and the checker's expression nodes, and sorts them all by
/// start, longest first among equal starts.
pub fn extract_from_stmts(
    expression_nodes: &[SpannedExpr],
    source: &str,
    results: &mut Vec<SpannedExpr>,
)
    ensures
        exists|toks: Seq<TokenData>, perm: Seq<int>|
            {
                &&& toks.len() == lex(source@).len()
                &&& forall|i: int|
                    0 <= i < toks.len() ==> token_data_of(#[trigger] toks[i], source@, lex(source@)[i])
                &&& is_stable_sort_of(
                    final(results)@,
                    old(results)@ + declared_nodes(toks, toks.len() as int) + expression_nodes@,
                    perm,
                )
            },
{
    let tokens = tokenize(source);
    let decls = declaration_nodes(&tokens);
    let mut all: Vec<SpannedExpr> = Vec::new();
    let mut i: usize = 0;
    while i < results.len()
        invariant
            i <= results@.len(),
            results@ == old(results)@,
            same_nodes(all@, results@.take(i as int)),
        decreases results@.len() - i,
    {
        all.push(clone_node(&results[i]));
        i = i + 1;
    }
    let ghost want = old(results)@ + declared_nodes(tokens@, tokens@.len() as int)
        + expression_nodes@;
    let mut j: usize = 0;
    while j < decls.len()
        invariant
            j <= decls@.len(),
            results@ == old(results)@,
            same_nodes(decls@, declared_nodes(tokens@, tokens@.len() as int)),
            same_nodes(all@, results@ + decls@.take(j as int)),
        decreases decls@.len() - j,
    {
        all.push(clone_node(&decls[j]));
        j = j + 1;
    }
    let mut k: usize = 0;
    while k < expression_nodes.len()
        invariant
            k <= expression_nodes@.len(),
            results@ == old(results)@,
            same_nodes(decls@, declared_nodes(tokens@, tokens@.len() as int)),
            same_nodes(all@, results@ + decls@ + expression_nodes@.take(k as int)),
        decreases expression_nodes@.len() - k,
    {
        all.push(clone_node(&expression_nodes[k]));
        k = k + 1;
    }
    proof {
        assert(results@ + decls@ + expression_nodes@.take(k as int) =~= results@ + decls@
            + expression_nodes@);
        assert forall|a: int| 0 <= a < all@.len() implies same_node(#[trigger] all@[a], want[a]) by {
            let m = results@.len() as int;
            let d = decls@.len() as int;
            let x = (results@ + decls@ + expression_nodes@)[a];
            assert(same_node(all@[a], x));
            if a < m {
                assert(x == results@[a] && want[a] == results@[a]);
            } else if a < m + d {
                assert(x == decls@[a - m]);
                assert(want[a] == declared_nodes(tokens@, tokens@.len() as int)[a - m]);
                assert(same_node(decls@[a - m], declared_nodes(tokens@, tokens@.len() as int)[a - m]));
            } else {
                assert(x == expression_nodes@[a - m - d] && want[a] == expression_nodes@[a - m - d]);
            }
        }
    }
    let sorted = sort_nodes(all);
    proof {
        let perm = choose|perm: Seq<int>| is_stable_sort_of(sorted@, all@, perm);
        lemma_stable_sort_same_nodes(sorted@, all@, want, perm);
    }
    *results = sorted;
}

/// `out` is the node list that the tokens of `source` and the checker's
/// `expression_nodes` make: the declared variables and the expressions, in
/// a stable sort by start, longest first among equal starts.
pub open spec fn is_extraction_of(out: Seq<SpannedExpr>, source: Seq<char>, expression_nodes: Seq<SpannedExpr>) -> bool {
    exists|toks: Seq<TokenData>, perm: Seq<int>|
        {
            &&& toks.len() == lex(source).len()
            &&& forall|i: int| 0 <= i < toks.len() ==> token_data_of(#[trigger] toks[i], source, lex(source)[i])
            &&& is_stable_sort_of(out, declared_nodes(toks, toks.len() as int) + expression_nodes, perm)
        }
}

/// What came of type checking a parsed specification.
#[derive(Debug, Clone, PartialEq)]
pub enum CheckOutcome {
    /// The specification type checks.
    Passed,
    /// The checker found these errors.
    Failed(Vec<SemanticError>),
    /// The checker stopped on a feature it cannot check yet.
    Panicked,
}

/// Only specifications with type annotations are type checked.
pub fn needs_type_check(spec: &SpecificationSnapshot) -> (r: bool)
    ensures
        r == (spec.spec_type_annotations().len() > 0),
{
    spec.type_annotations().len() > 0
}

/// The diagnostic of semantic error `e` of `text`: its message over the
/// range of its span.
pub open spec fn is_semantic_diag(d: Diagnostic, text: Seq<char>, e: SemanticError) -> bool {
    is_dsrv_error(
        d,
        semantic_prefix(e.kind) + e.message@,
        match e.span {
            Some(s) => span_range_spec(text, s),
            None => Range::zero(),
        },
    )
}

/// The analysis of a document that did not parse: no specification, no
/// nodes, and one diagnostic for the parse error.
pub fn analysis_of_parse_failure(text: &str, failure: &ParseFailure) -> (r: Analysis)
    ensures
        r.spec.is_none(),
        r.typed.is_none(),
        r.spanned_nodes@.len() == 0,
        r.diags@.len() == 1,
        ({
            let pos = position_of_captures(regex_captures_of(location_pattern(), failure.details@));
            let (msg, range) = parse_diag_spec(text@, failure.details@, ast_error_view(*failure), pos);
            is_dsrv_error(r.diags@[0], msg, range)
        }),
{
    let d = parse_diag(text, failure);
    let mut diags: Vec<Diagnostic> = Vec::new();
    diags.push(d);
    Analysis { spec: None, typed: None, diags, spanned_nodes: Vec::new() }
}

/// The specification was type checked (it has type annotations) and passed.
pub open spec fn type_check_passed(spec: SpecificationSnapshot, check: Option<CheckOutcome>) -> bool {
    spec.spec_type_annotations().len() > 0 && check == Some(CheckOutcome::Passed)
}

/// The specification was type checked (it has type annotations) and errors
/// were found.
pub open spec fn type_check_failed(spec: SpecificationSnapshot, check: Option<CheckOutcome>) -> bool {
    spec.spec_type_annotations().len() > 0 && (check matches Some(CheckOutcome::Failed(_)))
}

/// The analysis of a document that parsed into `spec` with the checker's
/// `expression_nodes`. A specification with type annotations takes the
/// outcome of its type check: typed when it passed, one diagnostic per
/// error when it failed, neither when the checker stopped or did not run.
pub fn analysis_of_spec(
    text: &str,
    spec: SpecificationSnapshot,
    expression_nodes: &[SpannedExpr],
    check: Option<CheckOutcome>,
) -> (r: Analysis)
    ensures
        r.spec == Some(spec),
        is_extraction_of(r.spanned_nodes@, text@, expression_nodes@),
        type_check_passed(spec, check) ==> r.typed.is_some() && r.diags@.len() == 0,
        type_check_failed(spec, check) ==> match check {
            Some(CheckOutcome::Failed(errs)) => {
                &&& r.typed.is_none()
                &&& r.diags@.len() == errs@.len()
                &&& forall|i: int|
                    0 <= i < errs@.len() ==> is_semantic_diag(#[trigger] r.diags@[i], text@, errs@[i])
            },
            _ => false,
        },
        !type_check_passed(spec, check) && !type_check_failed(spec, check) ==> r.typed.is_none()
            && r.diags@.len() == 0,
{
    let mut nodes: Vec<SpannedExpr> = Vec::new();
    extract_from_stmts(expression_nodes, text, &mut nodes);
    proof {
        let ghost empty = Seq::<SpannedExpr>::empty();
        assert forall|x: Seq<SpannedExpr>| empty + x == x by {
            assert(empty + x =~= x);
        }
    }
    if needs_type_check(&spec) {
        match check {
            Some(CheckOutcome::Passed) => {
                return Analysis {
                    spec: Some(spec),
                    typed: Some(TypeCheckedSpecification),
                    diags: Vec::new(),
                    spanned_nodes: nodes,
                };
            },
            Some(CheckOutcome::Failed(errs)) => {
                let rope = rope_from_str(text);
                let mut diags: Vec<Diagnostic> = Vec::new();
                let mut i: usize = 0;
                while i < errs.len()
                    invariant
                        i <= errs@.len(),
                        diags@.len() == i,
                        crate::utils::rope_text(rope) == text@,
                        forall|j: int| 0 <= j < i ==> is_semantic_diag(#[trigger] diags@[j], text@, errs@[j]),
                    decreases errs@.len() - i,
                {
                    let msg = semantic_error_message(&errs[i]);
                    let d = create_semantic_diag(&rope, msg.as_str(), errs[i].span);
                    diags.push(d);
                    i = i + 1;
                }
                return Analysis { spec: Some(spec), typed: None, diags, spanned_nodes: nodes };
            },
            _ => {},
        }
    }
    Analysis { spec: Some(spec), typed: None, diags: Vec::new(), spanned_nodes: nodes }
}

} // verus!
