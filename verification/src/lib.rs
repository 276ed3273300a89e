//! Document-state and analysis core for a LOLCODE language server.
//!
//! The crate owns each open document's text together with the syntax tree or
//! lexer failure derived from it, keeps that pair consistent across open,
//! change and close events, turns lexer failures into position-anchored
//! diagnostics, and answers hover and code-action queries against the current
//! tree.  The lexer/parser itself is an external collaborator: the embedding
//! process runs it and hands its outcome in as plain values, so everything in
//! this crate is verified.

pub mod diagnostics;
pub mod facade;
pub mod query;
pub mod store;
pub mod syntax;
pub mod text;
