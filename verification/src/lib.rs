//! Analysis layer of the DSRV language server.

pub mod text;
pub mod unicode;
pub mod lexer;
pub mod lexer_error;
pub mod grammar;
pub mod keywords;
pub mod syntax;
pub mod fixtures;
pub mod test_utils;
pub mod lines;
pub mod protocol;
pub mod utils;
pub mod completions;
pub mod diagnostics;
pub mod analysis;
pub mod backend;
