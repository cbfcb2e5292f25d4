//! Built-in keywords, types and functions of DSRV offered for completion and
//! hover, and the completion items made from them.

use vstd::prelude::*;
use crate::text::str_equal;

verus! {

/// The kind of a completion item (the editor picks its icon from it).
#[derive(Debug, Clone, Copy, PartialEq, Eq, Structural)]
pub enum CompletionItemKind {
    Text,
    Method,
    Function,
    Constructor,
    Field,
    Variable,
    Class,
    Interface,
    Module,
    Property,
    Unit,
    Value,
    Enum,
    Keyword,
    Snippet,
    Color,
    File,
    Reference,
    Folder,
    EnumMember,
    Constant,
    Struct,
    Event,
    Operator,
    TypeParameter,
}

/// How the editor reads the text that a completion inserts.
#[derive(Debug, Clone, Copy, PartialEq, Eq, Structural)]
pub enum InsertTextFormat {
    PlainText,
    Snippet,
}

/// A built-in function or keyword offered for completion.
#[derive(Debug, Clone, Copy)]
pub struct DsrvBuiltIn {
    pub label: &'static str,
    pub kind: CompletionItemKind,
    /// The completion contexts in which it is offered.
    pub trigger_context: &'static [&'static str],
    pub insert_text: &'static str,
    pub insert_text_format: InsertTextFormat,
    pub detail: &'static str,
    pub documentation: &'static str,
}

/// The built-in keywords, types and functions offered for completion, in
/// the order in which they are offered.
pub open spec fn registry() -> Seq<DsrvBuiltIn> {
    seq![
        DsrvBuiltIn {
            label: "in",
            kind: CompletionItemKind::Keyword,
            trigger_context: &["toplevel"],
            insert_text: "in $1",
            insert_text_format: InsertTextFormat::Snippet,
            detail: "in <label> [: <Type>]",
            documentation: "Declares an input stream that provides a sequence of event values to the monitor. The label acts as a variable name in the input namespace in(ϕ)",
        },
        DsrvBuiltIn {
            label: "out",
            kind: CompletionItemKind::Keyword,
            trigger_context: &["toplevel"],
            insert_text: "out ${1}",
            insert_text_format: InsertTextFormat::Snippet,
            detail: "out <label> [: <Type>]",
            documentation: "Declares an output stream, also known as a verdict stream. It transforms input data into results based on defined stream equations.",
        },
        DsrvBuiltIn {
            label: "aux",
            kind: CompletionItemKind::Keyword,
            trigger_context: &["toplevel"],
            insert_text: "aux $1  ",
            insert_text_format: InsertTextFormat::Snippet,
            detail: "aux <label> [: <Type>]",
            documentation: "Declares an auxiliary internal stream variable used to simplify complex equations and is not exposed as a final output",
        },
        DsrvBuiltIn {
            label: "var",
            kind: CompletionItemKind::Keyword,
            trigger_context: &["toplevel"],
            insert_text: "var $1",
            insert_text_format: InsertTextFormat::Snippet,
            detail: "var <label> [: <Type>]",
            documentation: "Alias for an auxiliary internal stream declaration.",
        },
        DsrvBuiltIn {
            label: "Int",
            kind: CompletionItemKind::Keyword,
            trigger_context: &["type"],
            insert_text: "Int",
            insert_text_format: InsertTextFormat::PlainText,
            detail: "Int",
            documentation: "Integer type, representing whole numbers without a fractional component.",
        },
        DsrvBuiltIn {
            label: "Float",
            kind: CompletionItemKind::Keyword,
            trigger_context: &["type"],
            insert_text: "Float",
            insert_text_format: InsertTextFormat::PlainText,
            detail: "Float",
            documentation: "Float type, representing numbers that can have a fractional component.",
        },
        DsrvBuiltIn {
            label: "Bool",
            kind: CompletionItemKind::Keyword,
            trigger_context: &["type"],
            insert_text: "Bool",
            insert_text_format: InsertTextFormat::PlainText,
            detail: "Bool",
            documentation: "Boolean type representing truth values, which can be either `true` or `false`.",
        },
        DsrvBuiltIn {
            label: "Str",
            kind: CompletionItemKind::Keyword,
            trigger_context: &["type"],
            insert_text: "Str",
            insert_text_format: InsertTextFormat::PlainText,
            detail: "String",
            documentation: "String type representing sequences of characters, used for textual data.",
        },
        DsrvBuiltIn {
            label: "Unit",
            kind: CompletionItemKind::Keyword,
            trigger_context: &["type"],
            insert_text: "Unit",
            insert_text_format: InsertTextFormat::PlainText,
            detail: "Unit",
            documentation: "Unit type representing a pure event or trigger stream. It carries no data payload and is used purely to signal that an event occurred at a specific timestep.",
        },
        DsrvBuiltIn {
            label: "Any",
            kind: CompletionItemKind::Keyword,
            trigger_context: &["type"],
            insert_text: "Any",
            insert_text_format: InsertTextFormat::PlainText,
            detail: "Any",
            documentation: "An unconstrained stream type used by gradual type checking.",
        },
        DsrvBuiltIn {
            label: "List",
            kind: CompletionItemKind::Keyword,
            trigger_context: &["type"],
            insert_text: "List<${1:Type}>",
            insert_text_format: InsertTextFormat::Snippet,
            detail: "List<Type>",
            documentation: "A list stream type.",
        },
        DsrvBuiltIn {
            label: "Map",
            kind: CompletionItemKind::Keyword,
            trigger_context: &["type"],
            insert_text: "Map<${1:Type}>",
            insert_text_format: InsertTextFormat::Snippet,
            detail: "Map<Type>",
            documentation: "A map stream type.",
        },
        DsrvBuiltIn {
            label: "Struct",
            kind: CompletionItemKind::Keyword,
            trigger_context: &["type", "expr"],
            insert_text: "Struct(${1:field}: ${2:value})",
            insert_text_format: InsertTextFormat::Snippet,
            detail: "Struct(\"field\": value, ...)",
            documentation: "Constructs a named-field structure.",
        },
        DsrvBuiltIn {
            label: "Tuple",
            kind: CompletionItemKind::Constructor,
            trigger_context: &["expr"],
            insert_text: "Tuple($1, $2)",
            insert_text_format: InsertTextFormat::Snippet,
            detail: "Tuple(e1, e2, ...)",
            documentation: "Constructs a tuple stream value.",
        },
        DsrvBuiltIn {
            label: "false",
            kind: CompletionItemKind::Constant,
            trigger_context: &["expr"],
            insert_text: "false",
            insert_text_format: InsertTextFormat::PlainText,
            detail: "False",
            documentation: "The boolean constant `false`, representing the logical value of falsehood.",
        },
        DsrvBuiltIn {
            label: "true",
            kind: CompletionItemKind::Constant,
            trigger_context: &["expr"],
            insert_text: "true",
            insert_text_format: InsertTextFormat::PlainText,
            detail: "True",
            documentation: "The boolean constant `true`, representing the logical value of truth.",
        },
        DsrvBuiltIn {
            label: "List()",
            kind: CompletionItemKind::Constructor,
            trigger_context: &["expr"],
            insert_text: "List($1)",
            insert_text_format: InsertTextFormat::Snippet,
            detail: "List(e1, e2, ...)",
            documentation: "Constructs a new List container from a comma-separated sequence of stream expressions.",
        },
        DsrvBuiltIn {
            label: "List.",
            kind: CompletionItemKind::Class,
            trigger_context: &["expr"],
            insert_text: "List.",
            insert_text_format: InsertTextFormat::PlainText,
            detail: "List.",
            documentation: "The List type, to be called with methods like List.get, List.append, etc.",
        },
        DsrvBuiltIn {
            label: "List.get",
            kind: CompletionItemKind::Method,
            trigger_context: &["list method"],
            insert_text: "get($1, $2)",
            insert_text_format: InsertTextFormat::Snippet,
            detail: "List.get(L, i)",
            documentation: "Returns the element at the specified index",
        },
        DsrvBuiltIn {
            label: "List.append",
            kind: CompletionItemKind::Method,
            trigger_context: &["list method"],
            insert_text: "append($1, $2)",
            insert_text_format: InsertTextFormat::Snippet,
            detail: "List.append(L, e)",
            documentation: "Ruturns a new list with the element added to the end",
        },
        DsrvBuiltIn {
            label: "List.concat",
            kind: CompletionItemKind::Method,
            trigger_context: &["list method"],
            insert_text: "concat($1, $2)",
            insert_text_format: InsertTextFormat::Snippet,
            detail: "List.concat(L1, L2)",
            documentation: "Concatenates the two list into one list",
        },
        DsrvBuiltIn {
            label: "List.head",
            kind: CompletionItemKind::Method,
            trigger_context: &["list method"],
            insert_text: "head($1)",
            insert_text_format: InsertTextFormat::Snippet,
            detail: "List.head(L)",
            documentation: "Returns the first element of the list",
        },
        DsrvBuiltIn {
            label: "List.tail",
            kind: CompletionItemKind::Method,
            trigger_context: &["list method"],
            insert_text: "tail($1)",
            insert_text_format: InsertTextFormat::Snippet,
            detail: "List.tail(L)",
            documentation: "Returns a new list containing all elements except the first",
        },
        DsrvBuiltIn {
            label: "List.len",
            kind: CompletionItemKind::Method,
            trigger_context: &["list method"],
            insert_text: "len($1)",
            insert_text_format: InsertTextFormat::Snippet,
            detail: "List.len(L)",
            documentation: "Returns the length of the list",
        },
        DsrvBuiltIn {
            label: "List.map",
            kind: CompletionItemKind::Method,
            trigger_context: &["list method"],
            insert_text: "map($1, $2)",
            insert_text_format: InsertTextFormat::Snippet,
            detail: "List.map(L, f)",
            documentation: "Returns a new list with the function applied to each element",
        },
        DsrvBuiltIn {
            label: "List.filter",
            kind: CompletionItemKind::Method,
            trigger_context: &["list method"],
            insert_text: "filter($1, $2)",
            insert_text_format: InsertTextFormat::Snippet,
            detail: "List.filter(L, p)",
            documentation: "Returns a new list of the elements for which the predicate holds",
        },
        DsrvBuiltIn {
            label: "List.fold",
            kind: CompletionItemKind::Method,
            trigger_context: &["list method"],
            insert_text: "fold($1, $2, $3)",
            insert_text_format: InsertTextFormat::Snippet,
            detail: "List.fold(L, init, f)",
            documentation: "Combines the elements of the list into one value, starting from the initial value",
        },
        DsrvBuiltIn {
            label: "Map",
            kind: CompletionItemKind::Constructor,
            trigger_context: &["expr"],
            insert_text: "Map($1)",
            insert_text_format: InsertTextFormat::Snippet,
            detail: "Map(\"key\": val, ...)",
            documentation: "Constructs a new Map container from key-value pairs where keys are strings.",
        },
        DsrvBuiltIn {
            label: "Map",
            kind: CompletionItemKind::Class,
            trigger_context: &["expr"],
            insert_text: "Map.",
            insert_text_format: InsertTextFormat::PlainText,
            detail: "Map",
            documentation: "The Map type, to be called with methods like Map.get, Map.insert, etc.",
        },
        DsrvBuiltIn {
            label: "Map.get",
            kind: CompletionItemKind::Method,
            trigger_context: &["map method"],
            insert_text: "get($1, $2)",
            insert_text_format: InsertTextFormat::Snippet,
            detail: "Map.get(M, k)",
            documentation: "Returns the value associated with the specified key",
        },
        DsrvBuiltIn {
            label: "Map.insert",
            kind: CompletionItemKind::Method,
            trigger_context: &["map method"],
            insert_text: "insert($1, $2, $3)",
            insert_text_format: InsertTextFormat::Snippet,
            detail: "Map.insert(M, k, v)",
            documentation: "Inserts the value into the map with the specified key",
        },
        DsrvBuiltIn {
            label: "Map.remove",
            kind: CompletionItemKind::Method,
            trigger_context: &["map method"],
            insert_text: "remove($1, $2)",
            insert_text_format: InsertTextFormat::Snippet,
            detail: "Map.remove(M, k)",
            documentation: "Removes the value from the map at the specified key",
        },
        DsrvBuiltIn {
            label: "Map.has_key",
            kind: CompletionItemKind::Method,
            trigger_context: &["map method"],
            insert_text: "has_key($1, $2)",
            insert_text_format: InsertTextFormat::Snippet,
            detail: "Map.has_key(M, k)",
            documentation: "Checks if the map has a value associated with the specified key",
        },
        DsrvBuiltIn {
            label: "sin",
            kind: CompletionItemKind::Function,
            trigger_context: &["expr"],
            insert_text: "sin($1)",
            insert_text_format: InsertTextFormat::Snippet,
            detail: "sin(e)",
            documentation: "Gives the sinus of the given value",
        },
        DsrvBuiltIn {
            label: "cos",
            kind: CompletionItemKind::Function,
            trigger_context: &["expr"],
            insert_text: "cos($1)",
            insert_text_format: InsertTextFormat::Snippet,
            detail: "cos(e)",
            documentation: "Gives the cosinus of the given value",
        },
        DsrvBuiltIn {
            label: "tan",
            kind: CompletionItemKind::Function,
            trigger_context: &["expr"],
            insert_text: "tan($1)",
            insert_text_format: InsertTextFormat::Snippet,
            detail: "tan(e)",
            documentation: "Gives the tangens of the given value",
        },
        DsrvBuiltIn {
            label: "abs",
            kind: CompletionItemKind::Function,
            trigger_context: &["expr"],
            insert_text: "abs($1)",
            insert_text_format: InsertTextFormat::Snippet,
            detail: "abs(e)",
            documentation: "Returns the absolute value of the expression",
        },
        DsrvBuiltIn {
            label: "Not",
            kind: CompletionItemKind::Operator,
            trigger_context: &["expr"],
            insert_text: "!$1",
            insert_text_format: InsertTextFormat::Snippet,
            detail: "!ψ",
            documentation: "Logical negation operator, inverts a boolean stream value",
        },
        DsrvBuiltIn {
            label: "dynamic",
            kind: CompletionItemKind::Function,
            trigger_context: &["expr"],
            insert_text: "dynamic($1)",
            insert_text_format: InsertTextFormat::Snippet,
            detail: "dynamic(ψ [, type])",
            documentation: "Dynamic property which evaluates a stream of strings, ψ or is `deferred (⊥)` if none has been sent. \n\n Optionally takes a type annotation (e.g, `, Int`) to ensure the dynamically generated stream matches the expected type.",
        },
        DsrvBuiltIn {
            label: "eval",
            kind: CompletionItemKind::Function,
            trigger_context: &["expr"],
            insert_text: "eval($1)",
            insert_text_format: InsertTextFormat::Snippet,
            detail: "eval(ψ, [type])",
            documentation: "Alias for dynamic. DUP primitive which evaluates a stream of strings, ψ or is `deferred (⊥)` if none has been sent. \n\n Optionally takes a type annotation (e.g, `, Int`) to ensure the dynamically generated stream matches the expected type.",
        },
        DsrvBuiltIn {
            label: "defer",
            kind: CompletionItemKind::Function,
            trigger_context: &["expr"],
            insert_text: "defer($1)",
            insert_text_format: InsertTextFormat::Snippet,
            detail: "defer(ψ, [type])",
            documentation: "DUP primitive that remains `deferred (⊥)` until the first point at which ψ becomes available, after which it behaves as ψ. Supports optional Type Ascription..",
        },
        DsrvBuiltIn {
            label: "update",
            kind: CompletionItemKind::Function,
            trigger_context: &["expr"],
            insert_text: "update($1, $2)",
            insert_text_format: InsertTextFormat::Snippet,
            detail: "update(ψ1, ψ2)",
            documentation: "DUP helper that returns the value of ψ1 until the first point that ψ2 is `not deferred (⊥) `after which it returns ψ2.",
        },
        DsrvBuiltIn {
            label: "default",
            kind: CompletionItemKind::Function,
            trigger_context: &["expr"],
            insert_text: "default($1, $2)",
            insert_text_format: InsertTextFormat::Snippet,
            detail: "default(ψ, c)",
            documentation: "DUP helper that returns defaults to the value, c, if ψ is `deferred (⊥)` otherwise returns the value of ψ.",
        },
        DsrvBuiltIn {
            label: "is_defined",
            kind: CompletionItemKind::Function,
            trigger_context: &["expr"],
            insert_text: "is_defined($1)",
            insert_text_format: InsertTextFormat::Snippet,
            detail: "is_defined(ψ)",
            documentation: "Returns `False` if ψ is `deferred (⊥)` otherwise returns `True` if ψ is `not deferred`",
        },
        DsrvBuiltIn {
            label: "when",
            kind: CompletionItemKind::Function,
            trigger_context: &["expr"],
            insert_text: "when($1)",
            insert_text_format: InsertTextFormat::Snippet,
            detail: "when(ψ)",
            documentation: "Returns `False` until the first time ψ is `not deferred (⊥)` after which it returns `True`",
        },
        DsrvBuiltIn {
            label: "latch",
            kind: CompletionItemKind::Function,
            trigger_context: &["expr"],
            insert_text: "latch($1, $2)",
            insert_text_format: InsertTextFormat::Snippet,
            detail: "latch(x, y)",
            documentation: "A sample-and-hold latch, where x provides the values to be sampled while y controls when they are sampled.\n
        When y provides a non-∄ value the latch samples the current value of x and holds that value until the next time y provides a non-∄ value. Otherwise, it evaluates to ∄, mirroring the semantics of an input stream w who receives the values of x but emits events only when y is non-∄",
        },
        DsrvBuiltIn {
            label: "init",
            kind: CompletionItemKind::Function,
            trigger_context: &["expr"],
            insert_text: "init($1, $2)",
            insert_text_format: InsertTextFormat::Snippet,
            detail: "init(ψ, c)",
            documentation: "Initializes the ψ stream with values from the c stream until ψ provides a value that is not `NoVal`. Then yields from ψ.",
        },
        DsrvBuiltIn {
            label: "SIndex",
            kind: CompletionItemKind::Operator,
            trigger_context: &["expr"],
            insert_text: "[$1]",
            insert_text_format: InsertTextFormat::Snippet,
            detail: "expr[i]",
            documentation: "Temporal lookback operator. Accesses the value of the stream at 'i' time units in the past.",
        },
        DsrvBuiltIn {
            label: "If then else",
            kind: CompletionItemKind::Snippet,
            trigger_context: &["expr"],
            insert_text: "if ${1:condition} then ${2:expr} else ${3:expr}",
            insert_text_format: InsertTextFormat::Snippet,
            detail: "if σ then ψ1 else ψ2",
            documentation: "Conditional expression that evaluates σ and returns ψ1 if σ is `true`, otherwise returns ψ2",
        },
        DsrvBuiltIn {
            label: "then",
            kind: CompletionItemKind::Keyword,
            trigger_context: &["condition"],
            insert_text: "then $1",
            insert_text_format: InsertTextFormat::Snippet,
            detail: "then ψ1",
            documentation: "Part of the if-then-else expression. It follows the condition and introduces the expression that is returned when the condition is `true`.",
        },
        DsrvBuiltIn {
            label: "else",
            kind: CompletionItemKind::Keyword,
            trigger_context: &["condition"],
            insert_text: "else $1",
            insert_text_format: InsertTextFormat::Snippet,
            detail: "else ψ2",
            documentation: "Part of the if-then-else expression. It follows the then clause and introduces the expression that is returned when the condition is `false`.",
        },
        DsrvBuiltIn {
            label: "Monitored_at",
            kind: CompletionItemKind::Function,
            trigger_context: &["expr"],
            insert_text: "Monitored_at($1, $2)",
            insert_text_format: InsertTextFormat::Snippet,
            detail: "Monitored_at(v, n)",
            documentation: "Returns a boolean stream that continuously evaluates to `true` if the variable `v` is currently being monitored by the computational node `n` in the distributed graph, and `false` otherwise.",
        },
        DsrvBuiltIn {
            label: "dist",
            kind: CompletionItemKind::Function,
            trigger_context: &["expr"],
            insert_text: "Dist($1, $2)",
            insert_text_format: InsertTextFormat::Snippet,
            detail: "Dist(u, v)",
            documentation: "Returns an integer stream representing the shortest topological distance between two entities (`u` and `v`) in the dynamically evolving distributed network graph. Both `u` and `v` can be either a variable name or a node name.",
        },
    ]
}

/// The built-in keywords, types and functions offered for completion.
pub fn builtin_registry() -> (r: Vec<DsrvBuiltIn>)
    ensures
        r@ == registry(),
{
    let mut v: Vec<DsrvBuiltIn> = Vec::new();
    v.push(
        DsrvBuiltIn {
            label: "in",
            kind: CompletionItemKind::Keyword,
            trigger_context: &["toplevel"],
            insert_text: "in $1",
            insert_text_format: InsertTextFormat::Snippet,
            detail: "in <label> [: <Type>]",
            documentation: "Declares an input stream that provides a sequence of event values to the monitor. The label acts as a variable name in the input namespace in(ϕ)",
        },
    );
    v.push(
        DsrvBuiltIn {
            label: "out",
            kind: CompletionItemKind::Keyword,
            trigger_context: &["toplevel"],
            insert_text: "out ${1}",
            insert_text_format: InsertTextFormat::Snippet,
            detail: "out <label> [: <Type>]",
            documentation: "Declares an output stream, also known as a verdict stream. It transforms input data into results based on defined stream equations.",
        },
    );
    v.push(
        DsrvBuiltIn {
            label: "aux",
            kind: CompletionItemKind::Keyword,
            trigger_context: &["toplevel"],
            insert_text: "aux $1  ",
            insert_text_format: InsertTextFormat::Snippet,
            detail: "aux <label> [: <Type>]",
            documentation: "Declares an auxiliary internal stream variable used to simplify complex equations and is not exposed as a final output",
        },
    );
    v.push(
        DsrvBuiltIn {
            label: "var",
            kind: CompletionItemKind::Keyword,
            trigger_context: &["toplevel"],
            insert_text: "var $1",
            insert_text_format: InsertTextFormat::Snippet,
            detail: "var <label> [: <Type>]",
            documentation: "Alias for an auxiliary internal stream declaration.",
        },
    );
    v.push(
        DsrvBuiltIn {
            label: "Int",
            kind: CompletionItemKind::Keyword,
            trigger_context: &["type"],
            insert_text: "Int",
            insert_text_format: InsertTextFormat::PlainText,
            detail: "Int",
            documentation: "Integer type, representing whole numbers without a fractional component.",
        },
    );
    v.push(
        DsrvBuiltIn {
            label: "Float",
            kind: CompletionItemKind::Keyword,
            trigger_context: &["type"],
            insert_text: "Float",
            insert_text_format: InsertTextFormat::PlainText,
            detail: "Float",
            documentation: "Float type, representing numbers that can have a fractional component.",
        },
    );
    v.push(
        DsrvBuiltIn {
            label: "Bool",
            kind: CompletionItemKind::Keyword,
            trigger_context: &["type"],
            insert_text: "Bool",
            insert_text_format: InsertTextFormat::PlainText,
            detail: "Bool",
            documentation: "Boolean type representing truth values, which can be either `true` or `false`.",
        },
    );
    v.push(
        DsrvBuiltIn {
            label: "Str",
            kind: CompletionItemKind::Keyword,
            trigger_context: &["type"],
            insert_text: "Str",
            insert_text_format: InsertTextFormat::PlainText,
            detail: "String",
            documentation: "String type representing sequences of characters, used for textual data.",
        },
    );
    v.push(
        DsrvBuiltIn {
            label: "Unit",
            kind: CompletionItemKind::Keyword,
            trigger_context: &["type"],
            insert_text: "Unit",
            insert_text_format: InsertTextFormat::PlainText,
            detail: "Unit",
            documentation: "Unit type representing a pure event or trigger stream. It carries no data payload and is used purely to signal that an event occurred at a specific timestep.",
        },
    );
    v.push(
        DsrvBuiltIn {
            label: "Any",
            kind: CompletionItemKind::Keyword,
            trigger_context: &["type"],
            insert_text: "Any",
            insert_text_format: InsertTextFormat::PlainText,
            detail: "Any",
            documentation: "An unconstrained stream type used by gradual type checking.",
        },
    );
    v.push(
        DsrvBuiltIn {
            label: "List",
            kind: CompletionItemKind::Keyword,
            trigger_context: &["type"],
            insert_text: "List<${1:Type}>",
            insert_text_format: InsertTextFormat::Snippet,
            detail: "List<Type>",
            documentation: "A list stream type.",
        },
    );
    v.push(
        DsrvBuiltIn {
            label: "Map",
            kind: CompletionItemKind::Keyword,
            trigger_context: &["type"],
            insert_text: "Map<${1:Type}>",
            insert_text_format: InsertTextFormat::Snippet,
            detail: "Map<Type>",
            documentation: "A map stream type.",
        },
    );
    v.push(
        DsrvBuiltIn {
            label: "Struct",
            kind: CompletionItemKind::Keyword,
            trigger_context: &["type", "expr"],
            insert_text: "Struct(${1:field}: ${2:value})",
            insert_text_format: InsertTextFormat::Snippet,
            detail: "Struct(\"field\": value, ...)",
            documentation: "Constructs a named-field structure.",
        },
    );
    v.push(
        DsrvBuiltIn {
            label: "Tuple",
            kind: CompletionItemKind::Constructor,
            trigger_context: &["expr"],
            insert_text: "Tuple($1, $2)",
            insert_text_format: InsertTextFormat::Snippet,
            detail: "Tuple(e1, e2, ...)",
            documentation: "Constructs a tuple stream value.",
        },
    );
    v.push(
        DsrvBuiltIn {
            label: "false",
            kind: CompletionItemKind::Constant,
            trigger_context: &["expr"],
            insert_text: "false",
            insert_text_format: InsertTextFormat::PlainText,
            detail: "False",
            documentation: "The boolean constant `false`, representing the logical value of falsehood.",
        },
    );
    v.push(
        DsrvBuiltIn {
            label: "true",
            kind: CompletionItemKind::Constant,
            trigger_context: &["expr"],
            insert_text: "true",
            insert_text_format: InsertTextFormat::PlainText,
            detail: "True",
            documentation: "The boolean constant `true`, representing the logical value of truth.",
        },
    );
    v.push(
        DsrvBuiltIn {
            label: "List()",
            kind: CompletionItemKind::Constructor,
            trigger_context: &["expr"],
            insert_text: "List($1)",
            insert_text_format: InsertTextFormat::Snippet,
            detail: "List(e1, e2, ...)",
            documentation: "Constructs a new List container from a comma-separated sequence of stream expressions.",
        },
    );
    v.push(
        DsrvBuiltIn {
            label: "List.",
            kind: CompletionItemKind::Class,
            trigger_context: &["expr"],
            insert_text: "List.",
            insert_text_format: InsertTextFormat::PlainText,
            detail: "List.",
            documentation: "The List type, to be called with methods like List.get, List.append, etc.",
        },
    );
    v.push(
        DsrvBuiltIn {
            label: "List.get",
            kind: CompletionItemKind::Method,
            trigger_context: &["list method"],
            insert_text: "get($1, $2)",
            insert_text_format: InsertTextFormat::Snippet,
            detail: "List.get(L, i)",
            documentation: "Returns the element at the specified index",
        },
    );
    v.push(
        DsrvBuiltIn {
            label: "List.append",
            kind: CompletionItemKind::Method,
            trigger_context: &["list method"],
            insert_text: "append($1, $2)",
            insert_text_format: InsertTextFormat::Snippet,
            detail: "List.append(L, e)",
            documentation: "Ruturns a new list with the element added to the end",
        },
    );
    v.push(
        DsrvBuiltIn {
            label: "List.concat",
            kind: CompletionItemKind::Method,
            trigger_context: &["list method"],
            insert_text: "concat($1, $2)",
            insert_text_format: InsertTextFormat::Snippet,
            detail: "List.concat(L1, L2)",
            documentation: "Concatenates the two list into one list",
        },
    );
    v.push(
        DsrvBuiltIn {
            label: "List.head",
            kind: CompletionItemKind::Method,
            trigger_context: &["list method"],
            insert_text: "head($1)",
            insert_text_format: InsertTextFormat::Snippet,
            detail: "List.head(L)",
            documentation: "Returns the first element of the list",
        },
    );
    v.push(
        DsrvBuiltIn {
            label: "List.tail",
            kind: CompletionItemKind::Method,
            trigger_context: &["list method"],
            insert_text: "tail($1)",
            insert_text_format: InsertTextFormat::Snippet,
            detail: "List.tail(L)",
            documentation: "Returns a new list containing all elements except the first",
        },
    );
    v.push(
        DsrvBuiltIn {
            label: "List.len",
            kind: CompletionItemKind::Method,
            trigger_context: &["list method"],
            insert_text: "len($1)",
            insert_text_format: InsertTextFormat::Snippet,
            detail: "List.len(L)",
            documentation: "Returns the length of the list",
        },
    );
    v.push(
        DsrvBuiltIn {
            label: "List.map",
            kind: CompletionItemKind::Method,
            trigger_context: &["list method"],
            insert_text: "map($1, $2)",
            insert_text_format: InsertTextFormat::Snippet,
            detail: "List.map(L, f)",
            documentation: "Returns a new list with the function applied to each element",
        },
    );
    v.push(
        DsrvBuiltIn {
            label: "List.filter",
            kind: CompletionItemKind::Method,
            trigger_context: &["list method"],
            insert_text: "filter($1, $2)",
            insert_text_format: InsertTextFormat::Snippet,
            detail: "List.filter(L, p)",
            documentation: "Returns a new list of the elements for which the predicate holds",
        },
    );
    v.push(
        DsrvBuiltIn {
            label: "List.fold",
            kind: CompletionItemKind::Method,
            trigger_context: &["list method"],
            insert_text: "fold($1, $2, $3)",
            insert_text_format: InsertTextFormat::Snippet,
            detail: "List.fold(L, init, f)",
            documentation: "Combines the elements of the list into one value, starting from the initial value",
        },
    );
    v.push(
        DsrvBuiltIn {
            label: "Map",
            kind: CompletionItemKind::Constructor,
            trigger_context: &["expr"],
            insert_text: "Map($1)",
            insert_text_format: InsertTextFormat::Snippet,
            detail: "Map(\"key\": val, ...)",
            documentation: "Constructs a new Map container from key-value pairs where keys are strings.",
        },
    );
    v.push(
        DsrvBuiltIn {
            label: "Map",
            kind: CompletionItemKind::Class,
            trigger_context: &["expr"],
            insert_text: "Map.",
            insert_text_format: InsertTextFormat::PlainText,
            detail: "Map",
            documentation: "The Map type, to be called with methods like Map.get, Map.insert, etc.",
        },
    );
    v.push(
        DsrvBuiltIn {
            label: "Map.get",
            kind: CompletionItemKind::Method,
            trigger_context: &["map method"],
            insert_text: "get($1, $2)",
            insert_text_format: InsertTextFormat::Snippet,
            detail: "Map.get(M, k)",
            documentation: "Returns the value associated with the specified key",
        },
    );
    v.push(
        DsrvBuiltIn {
            label: "Map.insert",
            kind: CompletionItemKind::Method,
            trigger_context: &["map method"],
            insert_text: "insert($1, $2, $3)",
            insert_text_format: InsertTextFormat::Snippet,
            detail: "Map.insert(M, k, v)",
            documentation: "Inserts the value into the map with the specified key",
        },
    );
    v.push(
        DsrvBuiltIn {
            label: "Map.remove",
            kind: CompletionItemKind::Method,
            trigger_context: &["map method"],
            insert_text: "remove($1, $2)",
            insert_text_format: InsertTextFormat::Snippet,
            detail: "Map.remove(M, k)",
            documentation: "Removes the value from the map at the specified key",
        },
    );
    v.push(
        DsrvBuiltIn {
            label: "Map.has_key",
            kind: CompletionItemKind::Method,
            trigger_context: &["map method"],
            insert_text: "has_key($1, $2)",
            insert_text_format: InsertTextFormat::Snippet,
            detail: "Map.has_key(M, k)",
            documentation: "Checks if the map has a value associated with the specified key",
        },
    );
    v.push(
        DsrvBuiltIn {
            label: "sin",
            kind: CompletionItemKind::Function,
            trigger_context: &["expr"],
            insert_text: "sin($1)",
            insert_text_format: InsertTextFormat::Snippet,
            detail: "sin(e)",
            documentation: "Gives the sinus of the given value",
        },
    );
    v.push(
        DsrvBuiltIn {
            label: "cos",
            kind: CompletionItemKind::Function,
            trigger_context: &["expr"],
            insert_text: "cos($1)",
            insert_text_format: InsertTextFormat::Snippet,
            detail: "cos(e)",
            documentation: "Gives the cosinus of the given value",
        },
    );
    v.push(
        DsrvBuiltIn {
            label: "tan",
            kind: CompletionItemKind::Function,
            trigger_context: &["expr"],
            insert_text: "tan($1)",
            insert_text_format: InsertTextFormat::Snippet,
            detail: "tan(e)",
            documentation: "Gives the tangens of the given value",
        },
    );
    v.push(
        DsrvBuiltIn {
            label: "abs",
            kind: CompletionItemKind::Function,
            trigger_context: &["expr"],
            insert_text: "abs($1)",
            insert_text_format: InsertTextFormat::Snippet,
            detail: "abs(e)",
            documentation: "Returns the absolute value of the expression",
        },
    );
    v.push(
        DsrvBuiltIn {
            label: "Not",
            kind: CompletionItemKind::Operator,
            trigger_context: &["expr"],
            insert_text: "!$1",
            insert_text_format: InsertTextFormat::Snippet,
            detail: "!ψ",
            documentation: "Logical negation operator, inverts a boolean stream value",
        },
    );
    v.push(
        DsrvBuiltIn {
            label: "dynamic",
            kind: CompletionItemKind::Function,
            trigger_context: &["expr"],
            insert_text: "dynamic($1)",
            insert_text_format: InsertTextFormat::Snippet,
            detail: "dynamic(ψ [, type])",
            documentation: "Dynamic property which evaluates a stream of strings, ψ or is `deferred (⊥)` if none has been sent. \n\n Optionally takes a type annotation (e.g, `, Int`) to ensure the dynamically generated stream matches the expected type.",
        },
    );
    v.push(
        DsrvBuiltIn {
            label: "eval",
            kind: CompletionItemKind::Function,
            trigger_context: &["expr"],
            insert_text: "eval($1)",
            insert_text_format: InsertTextFormat::Snippet,
            detail: "eval(ψ, [type])",
            documentation: "Alias for dynamic. DUP primitive which evaluates a stream of strings, ψ or is `deferred (⊥)` if none has been sent. \n\n Optionally takes a type annotation (e.g, `, Int`) to ensure the dynamically generated stream matches the expected type.",
        },
    );
    v.push(
        DsrvBuiltIn {
            label: "defer",
            kind: CompletionItemKind::Function,
            trigger_context: &["expr"],
            insert_text: "defer($1)",
            insert_text_format: InsertTextFormat::Snippet,
            detail: "defer(ψ, [type])",
            documentation: "DUP primitive that remains `deferred (⊥)` until the first point at which ψ becomes available, after which it behaves as ψ. Supports optional Type Ascription..",
        },
    );
    v.push(
        DsrvBuiltIn {
            label: "update",
            kind: CompletionItemKind::Function,
            trigger_context: &["expr"],
            insert_text: "update($1, $2)",
            insert_text_format: InsertTextFormat::Snippet,
            detail: "update(ψ1, ψ2)",
            documentation: "DUP helper that returns the value of ψ1 until the first point that ψ2 is `not deferred (⊥) `after which it returns ψ2.",
        },
    );
    v.push(
        DsrvBuiltIn {
            label: "default",
            kind: CompletionItemKind::Function,
            trigger_context: &["expr"],
            insert_text: "default($1, $2)",
            insert_text_format: InsertTextFormat::Snippet,
            detail: "default(ψ, c)",
            documentation: "DUP helper that returns defaults to the value, c, if ψ is `deferred (⊥)` otherwise returns the value of ψ.",
        },
    );
    v.push(
        DsrvBuiltIn {
            label: "is_defined",
            kind: CompletionItemKind::Function,
            trigger_context: &["expr"],
            insert_text: "is_defined($1)",
            insert_text_format: InsertTextFormat::Snippet,
            detail: "is_defined(ψ)",
            documentation: "Returns `False` if ψ is `deferred (⊥)` otherwise returns `True` if ψ is `not deferred`",
        },
    );
    v.push(
        DsrvBuiltIn {
            label: "when",
            kind: CompletionItemKind::Function,
            trigger_context: &["expr"],
            insert_text: "when($1)",
            insert_text_format: InsertTextFormat::Snippet,
            detail: "when(ψ)",
            documentation: "Returns `False` until the first time ψ is `not deferred (⊥)` after which it returns `True`",
        },
    );
    v.push(
        DsrvBuiltIn {
            label: "latch",
            kind: CompletionItemKind::Function,
            trigger_context: &["expr"],
            insert_text: "latch($1, $2)",
            insert_text_format: InsertTextFormat::Snippet,
            detail: "latch(x, y)",
            documentation: "A sample-and-hold latch, where x provides the values to be sampled while y controls when they are sampled.\n
        When y provides a non-∄ value the latch samples the current value of x and holds that value until the next time y provides a non-∄ value. Otherwise, it evaluates to ∄, mirroring the semantics of an input stream w who receives the values of x but emits events only when y is non-∄",
        },
    );
    v.push(
        DsrvBuiltIn {
            label: "init",
            kind: CompletionItemKind::Function,
            trigger_context: &["expr"],
            insert_text: "init($1, $2)",
            insert_text_format: InsertTextFormat::Snippet,
            detail: "init(ψ, c)",
            documentation: "Initializes the ψ stream with values from the c stream until ψ provides a value that is not `NoVal`. Then yields from ψ.",
        },
    );
    v.push(
        DsrvBuiltIn {
            label: "SIndex",
            kind: CompletionItemKind::Operator,
            trigger_context: &["expr"],
            insert_text: "[$1]",
            insert_text_format: InsertTextFormat::Snippet,
            detail: "expr[i]",
            documentation: "Temporal lookback operator. Accesses the value of the stream at 'i' time units in the past.",
        },
    );
    v.push(
        DsrvBuiltIn {
            label: "If then else",
            kind: CompletionItemKind::Snippet,
            trigger_context: &["expr"],
            insert_text: "if ${1:condition} then ${2:expr} else ${3:expr}",
            insert_text_format: InsertTextFormat::Snippet,
            detail: "if σ then ψ1 else ψ2",
            documentation: "Conditional expression that evaluates σ and returns ψ1 if σ is `true`, otherwise returns ψ2",
        },
    );
    v.push(
        DsrvBuiltIn {
            label: "then",
            kind: CompletionItemKind::Keyword,
            trigger_context: &["condition"],
            insert_text: "then $1",
            insert_text_format: InsertTextFormat::Snippet,
            detail: "then ψ1",
            documentation: "Part of the if-then-else expression. It follows the condition and introduces the expression that is returned when the condition is `true`.",
        },
    );
    v.push(
        DsrvBuiltIn {
            label: "else",
            kind: CompletionItemKind::Keyword,
            trigger_context: &["condition"],
            insert_text: "else $1",
            insert_text_format: InsertTextFormat::Snippet,
            detail: "else ψ2",
            documentation: "Part of the if-then-else expression. It follows the then clause and introduces the expression that is returned when the condition is `false`.",
        },
    );
    v.push(
        DsrvBuiltIn {
            label: "Monitored_at",
            kind: CompletionItemKind::Function,
            trigger_context: &["expr"],
            insert_text: "Monitored_at($1, $2)",
            insert_text_format: InsertTextFormat::Snippet,
            detail: "Monitored_at(v, n)",
            documentation: "Returns a boolean stream that continuously evaluates to `true` if the variable `v` is currently being monitored by the computational node `n` in the distributed graph, and `false` otherwise.",
        },
    );
    v.push(
        DsrvBuiltIn {
            label: "dist",
            kind: CompletionItemKind::Function,
            trigger_context: &["expr"],
            insert_text: "Dist($1, $2)",
            insert_text_format: InsertTextFormat::Snippet,
            detail: "Dist(u, v)",
            documentation: "Returns an integer stream representing the shortest topological distance between two entities (`u` and `v`) in the dynamically evolving distributed network graph. Both `u` and `v` can be either a variable name or a node name.",
        },
    );
    v
}

/// Index of the first built-in of `s`, from `i` on, labelled `label`;
/// `s.len()` if there is none.
pub open spec fn first_labelled(s: Seq<DsrvBuiltIn>, label: Seq<char>, i: int) -> int
    decreases s.len() - i,
{
    if i < 0 || i >= s.len() {
        s.len() as int
    } else if s[i].label@ == label {
        i
    } else {
        first_labelled(s, label, i + 1)
    }
}

/// The first built-in labelled `label`, if any.
pub open spec fn builtin_by_label(label: Seq<char>) -> Option<DsrvBuiltIn> {
    let i = first_labelled(registry(), label, 0);
    if i < registry().len() {
        Some(registry()[i])
    } else {
        None
    }
}

/// The first built-in whose label is `label_name`, if any.
pub fn get_builtin_by_label(label_name: &str) -> (r: Option<DsrvBuiltIn>)
    ensures
        r == builtin_by_label(label_name@),
{
    let reg = builtin_registry();
    let n = reg.len();
    let mut i: usize = 0;
    while i < n
        invariant
            n == reg@.len(),
            reg@ == registry(),
            i <= n,
            first_labelled(registry(), label_name@, 0) == first_labelled(
                registry(),
                label_name@,
                i as int,
            ),
        decreases n - i,
    {
        if str_equal(reg[i].label, label_name) {
            return Some(reg[i]);
        }
        i = i + 1;
    }
    None
}

/// Whether one of the completion contexts `contexts` is among `triggers`.
pub open spec fn shares_context(contexts: Seq<&'static str>, triggers: Seq<&'static str>) -> bool {
    exists|i: int, j: int|
        0 <= i < contexts.len() && 0 <= j < triggers.len() && #[trigger] contexts[i]@ == #[trigger] triggers[j]@
}

/// Whether `needle` is among `hay`.
pub fn contains_str(hay: &[&'static str], needle: &str) -> (r: bool)
    ensures
        r == exists|j: int| 0 <= j < hay@.len() && #[trigger] hay@[j]@ == needle@,
{
    let n = hay.len();
    let mut j: usize = 0;
    while j < n
        invariant
            n == hay@.len(),
            j <= n,
            forall|k: int| 0 <= k < j ==> #[trigger] hay@[k]@ != needle@,
        decreases n - j,
    {
        if str_equal(hay[j], needle) {
            return true;
        }
        j = j + 1;
    }
    false
}

/// Whether one of `contexts` is among `triggers`.
pub fn any_context_matches(contexts: &[&'static str], triggers: &[&'static str]) -> (r: bool)
    ensures
        r == shares_context(contexts@, triggers@),
{
    let n = contexts.len();
    let mut i: usize = 0;
    while i < n
        invariant
            n == contexts@.len(),
            i <= n,
            forall|k: int, j: int|
                0 <= k < i && 0 <= j < triggers@.len() ==> #[trigger] contexts@[k]@ != #[trigger] triggers@[j]@,
        decreases n - i,
    {
        if contains_str(triggers, contexts[i]) {
            return true;
        }
        i = i + 1;
    }
    false
}

/// A completion item as the editor shows it. `documentation` is Markdown.
#[derive(Debug, Clone, PartialEq)]
pub struct CompletionItem {
    pub label: String,
    pub kind: Option<CompletionItemKind>,
    pub detail: Option<String>,
    pub insert_text: Option<String>,
    pub insert_text_format: Option<InsertTextFormat>,
    pub documentation: Option<String>,
}

/// `c` is the completion item made from the built-in `b`.
pub open spec fn is_item_of(c: CompletionItem, b: DsrvBuiltIn) -> bool {
    &&& c.label@ == b.label@
    &&& c.kind == Some(b.kind)
    &&& c.detail matches Some(d) && d@ == b.detail@
    &&& c.insert_text matches Some(s) && s@ == b.insert_text@
    &&& c.insert_text_format == Some(b.insert_text_format)
    &&& c.documentation matches Some(d) && d@ == b.documentation@
}

/// The completion item for a built-in: its label, kind, detail, insert text
/// and format, and its documentation as Markdown.
pub fn create_item(item: &DsrvBuiltIn) -> (r: CompletionItem)
    ensures
        is_item_of(r, *item),
{
    CompletionItem {
        label: String::from_str(item.label),
        kind: Some(item.kind),
        detail: Some(String::from_str(item.detail)),
        insert_text: Some(String::from_str(item.insert_text)),
        insert_text_format: Some(item.insert_text_format),
        documentation: Some(String::from_str(item.documentation)),
    }
}

/// The built-ins among the first `n` of `s` offered in one of `contexts`, in
/// order.
pub open spec fn offered(s: Seq<DsrvBuiltIn>, contexts: Seq<&'static str>, n: int) -> Seq<DsrvBuiltIn>
    decreases n,
{
    if n <= 0 {
        Seq::empty()
    } else {
        let prev = offered(s, contexts, n - 1);
        if shares_context(contexts, s[n - 1].trigger_context@) {
            prev.push(s[n - 1])
        } else {
            prev
        }
    }
}

/// The built-ins offered in one of `contexts`, in registry order.
pub open spec fn offered_builtins(contexts: Seq<&'static str>) -> Seq<DsrvBuiltIn> {
    offered(registry(), contexts, registry().len() as int)
}

/// Completion items for the built-ins offered in one of `contexts`, in
/// registry order.
pub fn builtin_completions(contexts: &[&'static str]) -> (r: Vec<CompletionItem>)
    ensures
        r@.len() == offered_builtins(contexts@).len(),
        forall|i: int| 0 <= i < r@.len() ==> is_item_of(#[trigger] r@[i], offered_builtins(contexts@)[i]),
{
    let reg = builtin_registry();
    let n = reg.len();
    let mut r: Vec<CompletionItem> = Vec::new();
    let mut i: usize = 0;
    while i < n
        invariant
            n == reg@.len(),
            reg@ == registry(),
            i <= n,
            r@.len() == offered(registry(), contexts@, i as int).len(),
            forall|k: int| 0 <= k < r@.len() ==> is_item_of(#[trigger] r@[k], offered(registry(), contexts@, i as int)[k]),
        decreases n - i,
    {
        if any_context_matches(contexts, reg[i].trigger_context) {
            let item = create_item(&reg[i]);
            r.push(item);
        }
        i = i + 1;
    }
    r
}

/// A built-in as a catalog of built-ins describes it, every field as text.
#[derive(Debug, Clone, PartialEq)]
pub struct BuiltinEntry {
    pub name: String,
    pub kind: String,
    pub context: Vec<String>,
    pub insert: Option<String>,
    pub insert_format: Option<String>,
    pub signature: Option<String>,
    pub docs: Option<String>,
}

/// The completion kind a catalog names: `function`, `keyword`, `constant`,
/// `operator`, or `type` (shown as a unit); `None` for any other name.
pub open spec fn kind_of_name(kind: Seq<char>) -> Option<CompletionItemKind> {
    if kind == "function"@ {
        Some(CompletionItemKind::Function)
    } else if kind == "keyword"@ {
        Some(CompletionItemKind::Keyword)
    } else if kind == "constant"@ {
        Some(CompletionItemKind::Constant)
    } else if kind == "operator"@ {
        Some(CompletionItemKind::Operator)
    } else if kind == "type"@ {
        Some(CompletionItemKind::Unit)
    } else {
        None
    }
}

/// Different catalog names never give the same completion kind, nor the
/// same insert text format.
pub proof fn law_catalog_names_distinct(a: Seq<char>, b: Seq<char>)
    ensures
        kind_of_name(a) is Some && kind_of_name(a) == kind_of_name(b) ==> a == b,
        format_of_name(a) is Some && format_of_name(a) == format_of_name(b) ==> a == b,
{
}

/// The completion kind a catalog names.
pub fn completion_kind_from_str(kind: &str) -> (r: Option<CompletionItemKind>)
    ensures
        r == kind_of_name(kind@),
{
    if str_equal(kind, "function") {
        Some(CompletionItemKind::Function)
    } else if str_equal(kind, "keyword") {
        Some(CompletionItemKind::Keyword)
    } else if str_equal(kind, "constant") {
        Some(CompletionItemKind::Constant)
    } else if str_equal(kind, "operator") {
        Some(CompletionItemKind::Operator)
    } else if str_equal(kind, "type") {
        Some(CompletionItemKind::Unit)
    } else {
        None
    }
}

/// The insert text format a catalog names: `snippet` or `plain`.
pub open spec fn format_of_name(fmt: Seq<char>) -> Option<InsertTextFormat> {
    if fmt == "snippet"@ {
        Some(InsertTextFormat::Snippet)
    } else if fmt == "plain"@ {
        Some(InsertTextFormat::PlainText)
    } else {
        None
    }
}

/// The insert text format a catalog names.
pub fn insert_format_from_str(fmt: &str) -> (r: Option<InsertTextFormat>)
    ensures
        r == format_of_name(fmt@),
{
    if str_equal(fmt, "snippet") {
        Some(InsertTextFormat::Snippet)
    } else if str_equal(fmt, "plain") {
        Some(InsertTextFormat::PlainText)
    } else {
        None
    }
}

/// The text of an optional string.
pub open spec fn opt_text(o: Option<String>) -> Option<Seq<char>> {
    match o {
        Some(s) => Some(s@),
        None => None,
    }
}

fn copy_opt_text(o: &Option<String>) -> (r: Option<String>)
    ensures
        opt_text(r) == opt_text(*o),
{
    match o {
        Some(s) => Some(s.clone()),
        None => None,
    }
}

/// `c` is the completion item for the catalog entry `b`: its name, the kind
/// and format its names give, its signature as detail, its docs as
/// Markdown, and its insert text or else its name to insert.
pub open spec fn is_entry_item(c: CompletionItem, b: BuiltinEntry) -> bool {
    &&& c.label@ == b.name@
    &&& c.kind == kind_of_name(b.kind@)
    &&& opt_text(c.detail) == opt_text(b.signature)
    &&& opt_text(c.documentation) == opt_text(b.docs)
    &&& opt_text(c.insert_text) == Some(
        match b.insert {
            Some(s) => s@,
            None => b.name@,
        },
    )
    &&& c.insert_text_format == match b.insert_format {
        Some(f) => format_of_name(f@),
        None => None,
    }
}

/// The completion items for the entries of a catalog, in order.
#[allow(non_snake_case)]
pub fn json_to_completionItem(builtins: &[BuiltinEntry]) -> (r: Vec<CompletionItem>)
    ensures
        r@.len() == builtins@.len(),
        forall|i: int| 0 <= i < r@.len() ==> is_entry_item(#[trigger] r@[i], builtins@[i]),
{
    let mut r: Vec<CompletionItem> = Vec::new();
    let mut i: usize = 0;
    while i < builtins.len()
        invariant
            i <= builtins@.len(),
            r@.len() == i,
            forall|j: int| 0 <= j < i ==> is_entry_item(#[trigger] r@[j], builtins@[j]),
        decreases builtins@.len() - i,
    {
        let b = &builtins[i];
        let insert_text = match &b.insert {
            Some(s) => s.clone(),
            None => b.name.clone(),
        };
        let insert_text_format = match &b.insert_format {
            Some(f) => insert_format_from_str(f.as_str()),
            None => None,
        };
        r.push(
            CompletionItem {
                label: b.name.clone(),
                kind: completion_kind_from_str(b.kind.as_str()),
                detail: copy_opt_text(&b.signature),
                insert_text: Some(insert_text),
                insert_text_format,
                documentation: copy_opt_text(&b.docs),
            },
        );
        i = i + 1;
    }
    r
}

} // verus!
