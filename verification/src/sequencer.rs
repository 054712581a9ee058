//! The whole sequence, on a module source and on a binary module.

use vstd::prelude::*;

use crate::binding::HostBinding;
use crate::declaration::TableView;
use crate::error::ExecutionError;
use crate::guest::{run_outcome, CompiledModule};
use crate::runtime::{binary_exports, binary_imports, is_binary, parse_module, text_encoding};
use crate::table::{binding_view, bound_entries};

verus! {

/// What the parse stage makes of a source: a binary module stays as it is, a
/// text becomes what the encoder makes of it, and `None` is a text that is
/// not well formed.
pub open spec fn parse_outcome(source: Seq<u8>) -> Option<Seq<u8>> {
    if is_binary(source) {
        Some(source)
    } else {
        text_encoding(source)
    }
}

/// What a run on a binary module comes to: a compile error, which is up to
/// the compiler, or what [`run_outcome`] has for the imports and exports
/// that the binary declares.
pub open spec fn binary_outcome(
    binary: Seq<u8>,
    table: TableView,
    export: Seq<char>,
    outcome: Result<(), ExecutionError>,
) -> bool {
    match outcome {
        Err(ExecutionError::Parse) => false,
        Err(ExecutionError::Compile) => true,
        _ => run_outcome(binary_imports(binary), binary_exports(binary), table, export, outcome),
    }
}

/// What a run on a module source comes to: a parse error exactly where the
/// source is a text that is not well formed, else what [`binary_outcome`]
/// has for the binary that the parse stage hands on.
pub open spec fn text_outcome(
    source: Seq<u8>,
    table: TableView,
    export: Seq<char>,
    outcome: Result<(), ExecutionError>,
) -> bool {
    match parse_outcome(source) {
        None => outcome == Err::<(), ExecutionError>(ExecutionError::Parse),
        Some(binary) => binary_outcome(binary, table, export, outcome),
    }
}

/// Stages two to six on a binary module: compiles it, instantiates it with
/// the binding table and calls the export once. A failed stage ends the
/// run, and nothing is tried again.
pub fn execute_binary<F: Fn() + Send + Sync + 'static>(
    binary: &[u8],
    binding: Option<&HostBinding>,
    export: &str,
    host: F,
) -> (outcome: Result<(), ExecutionError>)
    requires
        call_requires(host, ()),
    ensures
        binary_outcome(binary@, bound_entries(binding_view(binding)), export@, outcome),
{
    match CompiledModule::compile(binary) {
        Err(error) => Err(error),
        Ok(module) => module.execute(binding, export, host),
    }
}

/// All six stages on a module source. The run fails at the parse stage
/// exactly when the source is a text that is not well formed; a source that
/// already is a binary module passes that stage unchanged.
pub fn execute_text<F: Fn() + Send + Sync + 'static>(
    source: &[u8],
    binding: Option<&HostBinding>,
    export: &str,
    host: F,
) -> (outcome: Result<(), ExecutionError>)
    requires
        call_requires(host, ()),
    ensures
        text_outcome(source@, bound_entries(binding_view(binding)), export@, outcome),
{
    match parse_module(source) {
        None => Err(ExecutionError::Parse),
        Some(binary) => execute_binary(binary.as_slice(), binding, export, host),
    }
}

} // verus!
