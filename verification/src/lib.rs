//! A source-to-source minifier for Lua scripts.
//!
//! The crate works on its own trivia-preserving syntax tree: every token
//! carries the whitespace and comments that surrounded it in the source, so
//! the tree can be rendered back to text exactly.  An external parser builds
//! the tree from source text; this crate rewrites it — stripping whitespace
//! trivia, coalescing declarations and assignments block by block, and
//! shortening global identifiers — and renders the result.

pub mod ast;
pub mod constants;
pub mod whitespace;
pub mod punctuator;
pub mod utils;
pub mod minifier;
pub mod render;
pub mod laws;
