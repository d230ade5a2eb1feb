//! Extraction of a structural documentation model from Java source text.

pub mod contents;
pub mod text;
pub mod grammar;
pub mod model;
pub mod reconcile;
pub mod doc;
pub mod handlers;
pub mod lexer;
pub mod ast;

pub use ast::{construct_ast, parse_source};
pub use contents::{ApplicationDoc, Package};
pub use handlers::{MethodParseState, ObjectParseState};
pub use lexer::lex_contents;
pub use reconcile::match_params;
