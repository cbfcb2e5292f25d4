# dsrv_lsp

The analysis layer of the DSRV language server, written in Verus: each
function states what it computes in its `requires` / `ensures`, and Verus
proves it.

## Layout

- `src/` — the verified library
  - `lexer`, `grammar`: the DSRV tokenizer, the token languages, and the law
    that the tokenizer takes the longest token at each position
  - `lexer_error`, `syntax`: lexer errors, nested block comments, syntax kinds
  - `lines`, `utils`, `text`, `unicode`: byte offsets and line/column
    positions of a document held in a `ropey::Rope`, text helpers
  - `diagnostics`: syntax and semantic diagnostics from parser and type
    checker reports
  - `analysis`: the analysis of a document (specification snapshot, sorted
    nodes, diagnostics) and node lookup by offset
  - `completions`, `backend`: completion items, hovers, and the per-document
    store of the server
  - `protocol`, `fixtures`, `test_utils`: plain protocol values and sample
    documents
- `tests/` — tests of the library
- `app/` — the server executable: the Language Server Protocol plumbing over
  stdin/stdout, and the calls into the DSRV parser and type checker of the
  `trustworthiness_checker` crate, whose results it hands to the library

Verify with Verus; the outside crates are `ropey`, `regex` and `dashmap` in
the library, and `tower-lsp-server`, `tokio`, `tracing` and
`tracing-subscriber` in `app/`.
