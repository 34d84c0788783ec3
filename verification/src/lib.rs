//! A typed, read-only model of the abstract syntax tree that an external
//! language compiler emits as a structured document, together with a
//! generic traversal mechanism: every node kind exposes its identity, its
//! source location and its immediate children through one uniform
//! protocol, so a single piece of code can walk any part of the tree.

pub mod ast;
pub mod decode;
pub mod document;
pub mod encode;
pub mod laws;
pub mod location;
pub mod traits;
pub mod walk;
