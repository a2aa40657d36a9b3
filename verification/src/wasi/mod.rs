//! Files of the WASI snapshot preview 1 interface.
pub mod file_table;
pub mod file;
pub mod virtual_file;
pub mod preview1;
pub mod wasi_ephemeral_nn;
