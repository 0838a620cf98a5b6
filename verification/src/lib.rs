//! A compile-time generator for platform-variant modules.
//!
//! A library author writes one declarative module block naming the types,
//! re-exports and capability contracts that every platform implementation
//! must provide, together with a list of target platforms. This crate holds
//! the whole transformation and validation engine behind that rewrite:
//! parsing the configuration entries, validating the block, classifying and
//! hoisting its items, collecting contract pairs and emitting the generated
//! output. All of it works on plain values; the host compiler's token
//! plumbing stands outside the library and converts at the edge.

pub mod ast;
pub mod args;
pub mod classify;
pub mod emit;
pub mod laws;
