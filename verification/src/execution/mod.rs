pub mod error;
pub mod integer;
pub mod module;
pub mod op;
pub mod eval;
pub mod runtime;
pub mod store;
pub mod value;
