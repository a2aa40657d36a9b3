pub mod error;
pub mod instruction;
pub mod leb;
pub mod types;
pub mod reader;
pub mod section;
pub mod module;
