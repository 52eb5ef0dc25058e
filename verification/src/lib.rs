//! Translation of WebAssembly binary modules into Udon assembly text.
//!
//! The pipeline has three stages: a decoder that frames a module into
//! section records, an interpreter that turns each record into a fragment
//! of Udon assembly, and a generator that merges the fragments and renders
//! them as text.

pub mod block_table;
pub mod codegen;
pub mod decode;
pub mod error;
pub mod interpret;
pub mod mangle;
pub mod numerals;
pub mod outside;
pub mod uasm;
pub mod units;
pub mod wasm;
