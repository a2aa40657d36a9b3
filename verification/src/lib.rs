//! A small WebAssembly (core 1) runtime: a decoder for the binary format and an
//! interpreter for its instructions, with contracts checked by Verus.

pub mod binary;
pub mod endian;
pub mod execution;
pub mod wasi;

pub use execution::runtime::{Runtime, Step};
pub use execution::store::{Importer, LoadError, Store};
pub use execution::value::Value;
