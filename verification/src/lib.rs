//! Runs a WebAssembly guest in six stages: parse the module text, compile
//! the binary, resolve the imports into a binding table, instantiate, resolve
//! the export, invoke it. Every stage has its own kind of error, and a failed
//! stage ends the run.
//!
//! The stages are carried out by wasmer. What this crate proves is what a run
//! comes to, given what wasmer reports: which error belongs to which cause,
//! that a module is instantiated only where the binding table satisfies
//! every import that it declares, and that an export is called only where it
//! is found to be a procedure.

pub mod binding;
pub mod declaration;
pub mod demo;
pub mod error;
pub mod guest;
pub mod runtime;
pub mod sequencer;
pub mod table;

pub use binding::{HostBinding, Signature, ValueKind};
pub use declaration::{ExportDecl, ImportDecl, ItemKind};
pub use demo::{demo_binding, run_demo};
pub use error::{ExecutionError, LinkFailure, Stage};
pub use guest::{CompiledModule, GuestInstance};
pub use sequencer::{execute_binary, execute_text};
pub use table::import_table;
