//! The demonstration: one fixed module that imports a host procedure and
//! exports an entry point that calls it.

use vstd::prelude::*;

use crate::binding::{BindingView, HostBinding, Signature, SignatureView};
use crate::declaration::{
    is_bound, is_satisfied, lemma_exported_item, lemma_exported_names, ExportView, ImportView,
    ItemView,
};
use crate::error::{ExecutionError, LinkFailure};
use crate::guest::run_outcome;
use crate::sequencer::{execute_text, text_outcome};
use crate::table::bound_entries;

verus! {

/// The namespace under which the demonstration offers its host procedure.
pub const HOST_NAMESPACE: &'static str = "env";

/// The name under which the demonstration offers its host procedure.
pub const HOST_NAME: &'static str = "say_hello";

/// The export that the demonstration calls.
pub const ENTRY_POINT: &'static str = "run";

/// The module of the demonstration: one function type without parameters and
/// results, one import of that type, one function that calls the import, and
/// one export of that function.
pub const MODULE_SOURCE: &'static str =
    "\n(module\n  (type $no_args_no_rets_t (func (param) (result)))\n  (import \"env\" \"say_hello\" (func $say_hello (type $no_args_no_rets_t)))\n  (func $run (type $no_args_no_rets_t)\n    (call $say_hello))\n  (export \"run\" (func $run)))\n";

/// The bytes of the demonstration's module text.
pub open spec fn module_source_bytes() -> Seq<u8> {
    vstd::utf8::encode_utf8(MODULE_SOURCE@)
}

/// The one binding of the demonstration.
pub open spec fn demo_binding_view() -> BindingView {
    BindingView {
        namespace: HOST_NAMESPACE@,
        name: HOST_NAME@,
        signature: SignatureView::procedure(),
    }
}

/// The one binding of the demonstration: a procedure under the namespace and
/// name that the module imports.
pub fn demo_binding() -> (binding: HostBinding)
    ensures
        binding@ == demo_binding_view(),
{
    HostBinding::new(HOST_NAMESPACE, HOST_NAME, Signature::procedure())
}

/// Runs the demonstration once: the fixed module, with the host procedure
/// bound where the module imports it, called at its entry point.
pub fn run_demo<F: Fn() + Send + Sync + 'static>(host: F) -> (outcome: Result<(), ExecutionError>)
    requires
        call_requires(host, ()),
    ensures
        text_outcome(
            module_source_bytes(),
            bound_entries(Some(demo_binding_view())),
            ENTRY_POINT@,
            outcome,
        ),
{
    let binding = demo_binding();
    execute_text(MODULE_SOURCE.as_bytes(), Some(&binding), ENTRY_POINT, host)
}

/// The imports that the demonstration's module is written to declare: the
/// host procedure, and nothing else.
pub open spec fn demo_imports() -> Seq<ImportView> {
    seq![
        ImportView {
            namespace: HOST_NAMESPACE@,
            name: HOST_NAME@,
            item: ItemView::Function(SignatureView::procedure()),
        },
    ]
}

/// The exports that the demonstration's module is written to declare: the
/// entry point, a procedure, and nothing else.
pub open spec fn demo_exports() -> Seq<ExportView> {
    seq![
        ExportView { name: ENTRY_POINT@, item: ItemView::Function(SignatureView::procedure()) },
    ]
}

/// With the demonstration's binding and entry point, a run on a module that
/// declares what the demonstration's module is written to declare succeeds,
/// unless the instance fails to initialize or the guest traps.
pub proof fn lemma_demo_runs(outcome: Result<(), ExecutionError>)
    requires
        run_outcome(
            demo_imports(),
            demo_exports(),
            bound_entries(Some(demo_binding_view())),
            ENTRY_POINT@,
            outcome,
        ),
    ensures
        outcome is Ok || outcome == Err::<(), ExecutionError>(ExecutionError::Trap) || outcome
            == Err::<(), ExecutionError>(ExecutionError::Link(LinkFailure::Initialization)),
{
    let table = bound_entries(Some(demo_binding_view()));
    assert(is_satisfied(demo_imports()[0], table));
    lemma_exported_item(demo_exports(), 0);
}

/// With an empty binding table, a run on such a module ends in a missing
/// import, whatever export is asked for.
pub proof fn lemma_demo_unbound(export: Seq<char>, outcome: Result<(), ExecutionError>)
    requires
        run_outcome(demo_imports(), demo_exports(), bound_entries(None), export, outcome),
    ensures
        outcome == Err::<(), ExecutionError>(ExecutionError::Link(LinkFailure::MissingImport)),
{
    assert(!is_bound(demo_imports()[0], bound_entries(None)));
}

/// With the host procedure bound under another namespace or name, a run on
/// such a module ends in a missing import as well.
pub proof fn lemma_demo_misplaced(
    binding: BindingView,
    export: Seq<char>,
    outcome: Result<(), ExecutionError>,
)
    requires
        binding.namespace != HOST_NAMESPACE@ || binding.name != HOST_NAME@,
        run_outcome(demo_imports(), demo_exports(), bound_entries(Some(binding)), export, outcome),
    ensures
        outcome == Err::<(), ExecutionError>(ExecutionError::Link(LinkFailure::MissingImport)),
{
    let table = bound_entries(Some(binding));
    assert(!is_bound(demo_imports()[0], table));
}

/// With the host procedure bound in the right place under another
/// signature, such a module is never instantiated: the run ends in a
/// signature mismatch, or in a failed initialization where the runtime
/// gives up before it compares the signatures.
pub proof fn lemma_demo_mistyped(
    binding: BindingView,
    export: Seq<char>,
    outcome: Result<(), ExecutionError>,
)
    requires
        binding.namespace == HOST_NAMESPACE@,
        binding.name == HOST_NAME@,
        binding.signature != SignatureView::procedure(),
        run_outcome(demo_imports(), demo_exports(), bound_entries(Some(binding)), export, outcome),
    ensures
        outcome == Err::<(), ExecutionError>(ExecutionError::Link(LinkFailure::SignatureMismatch))
            || outcome == Err::<(), ExecutionError>(
            ExecutionError::Link(LinkFailure::Initialization),
        ),
{
    let table = bound_entries(Some(binding));
    assert(is_bound(demo_imports()[0], table));
    assert(!is_satisfied(demo_imports()[0], table));
}

/// Asked for another export than the entry point, a run on such a module
/// finds no export, unless the instance fails to initialize first.
pub proof fn lemma_demo_other_export(export: Seq<char>, outcome: Result<(), ExecutionError>)
    requires
        export != ENTRY_POINT@,
        run_outcome(
            demo_imports(),
            demo_exports(),
            bound_entries(Some(demo_binding_view())),
            export,
            outcome,
        ),
    ensures
        outcome == Err::<(), ExecutionError>(ExecutionError::ExportNotFound) || outcome == Err::<
            (),
            ExecutionError,
        >(ExecutionError::Link(LinkFailure::Initialization)),
{
    let table = bound_entries(Some(demo_binding_view()));
    assert(is_satisfied(demo_imports()[0], table));
    lemma_exported_names(demo_exports(), export);
}

} // verus!
