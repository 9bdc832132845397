//! Interface declaration and static-linkage code generator, plus the API
//! facade built on it.
//!
//! Independently compiled components of a layered system declare an
//! *interface* (a named set of function signatures) in one module and provide
//! exactly one *implementation* of that interface elsewhere, without either
//! side depending on the other's compiled artifact. This crate holds the
//! core of that mechanism: a parser that recognizes interface-function
//! declarations inside an ordinary module body, deterministic name
//! derivation, and the two generation passes that turn such a module into an
//! abstract interface with forwarding entry points (definition side) or into
//! a concrete registration of function bodies (implementation side).
//!
//! The crate also carries the hypervisor-facing API facade (memory, time,
//! and virtual-machine management), written against explicit interface
//! traits so that an implementation is handed in as a value.

pub mod arch;
pub mod ast;
pub mod docgen;
pub mod emit;
pub mod entry;
pub mod gen_def;
pub mod gen_impl;
pub mod memory;
pub mod names;
pub mod params;
pub mod parse;
pub mod time;
pub mod tokens;
pub mod vmm;

pub use entry::{api_mod, api_mod_impl};
pub use tokens::{Delim, Tok, TokView};
