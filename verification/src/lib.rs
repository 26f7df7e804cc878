//! Admission check for WebAssembly modules: a module is accepted only if every
//! symbol it imports is offered by the host and every entry point the host
//! calls is exported by the module.
//!
//! [`check_api_compatibility`] decides on a module's bytes. [`check_symbols`]
//! is the same decision on a symbol table and two name lists of the caller's
//! choice, and [`laws`] states what holds of it on every input.
//!
//! The symbol table is read by `wasm_nm`, which is not safe on arbitrary
//! bytes. [`frame`] walks the input first, with [`entries`], [`code`] and
//! [`leb`] for what sections hold, and only bytes with the shape of a module
//! are handed on.

pub mod checks;
pub mod code;
pub mod entries;
pub mod error;
pub mod extract;
pub mod frame;
pub mod laws;
pub mod leb;
pub mod names;
pub mod symbol;
pub mod tables;

pub use crate::checks::check_symbols;
pub use crate::error::CompatibilityError;
pub use crate::extract::check_api_compatibility;
pub use crate::symbol::Symbol;
