//! Compiled modules and instances, and the stages that lead from the one to
//! the other and on to the call of an export.

use vstd::prelude::*;

use crate::binding::{HostBinding, SignatureView};
use crate::declaration::{
    all_bound, all_satisfied, export_entries, ExportDecl, ExportView, ImportDecl, ImportView,
    ItemView, TableView,
};
use crate::error::{ExecutionError, LinkFailure};
use crate::runtime::{
    binary_exports, binary_imports, call_procedure, compile_module, instantiate,
    lookup_procedure, namespace_entries, new_store,
};
use crate::table::{binding_view, bound_entries, import_table};

verus! {

/// A binary module that has been validated and compiled, in a store of its
/// own, with the imports and exports that it declares.
pub struct CompiledModule {
    pub(crate) store: wasmer::Store,
    pub(crate) module: wasmer::Module,
    pub(crate) imports: Vec<ImportDecl>,
    pub(crate) exports: Vec<ExportDecl>,
}

/// A module that has been instantiated: linked with a binding table and
/// ready to have its exports called, as often as is wanted.
pub struct GuestInstance {
    pub(crate) store: wasmer::Store,
    pub(crate) exports: wasmer::Exports,
}

impl CompiledModule {
    /// The imports that the module declares, in the order of the
    /// declarations.
    pub closed spec fn imports(&self) -> Seq<ImportView> {
        self.imports.deep_view()
    }

    /// The exports that the module declares, in the order of the
    /// declarations.
    pub closed spec fn exports(&self) -> Seq<ExportView> {
        self.exports.deep_view()
    }

    /// Stage two: validates and compiles a binary module, in a fresh store.
    /// The compiled module declares what the binary declares.
    pub fn compile(binary: &[u8]) -> (outcome: Result<CompiledModule, ExecutionError>)
        ensures
            match outcome {
                Ok(module) => module.imports() == binary_imports(binary@) && module.exports()
                    == binary_exports(binary@),
                Err(error) => error == ExecutionError::Compile,
            },
    {
        match compile_module(new_store(), binary) {
            Err(_) => Err(ExecutionError::Compile),
            Ok(module) => Ok(module),
        }
    }

    /// The imports that the module declares, in the order of the
    /// declarations.
    pub fn declared_imports(&self) -> (imports: &Vec<ImportDecl>)
        ensures
            imports.deep_view() == self.imports(),
    {
        &self.imports
    }

    /// The exports that the module declares, in the order of the
    /// declarations.
    pub fn declared_exports(&self) -> (exports: &Vec<ExportDecl>)
        ensures
            exports.deep_view() == self.exports(),
    {
        &self.exports
    }

    /// Stages three and four: builds the binding table and instantiates the
    /// module with it. The instantiation fails, and never silently succeeds,
    /// where the table leaves a declared import without an entry, or has an
    /// entry for it that is not the item that the module declares.
    pub fn instantiate<F: Fn() + Send + Sync + 'static>(
        self,
        binding: Option<&HostBinding>,
        host: F,
    ) -> (outcome: Result<GuestInstance, ExecutionError>)
        requires
            call_requires(host, ()),
        ensures
            match outcome {
                Ok(instance) => link_outcome(
                    self.imports(),
                    bound_entries(binding_view(binding)),
                    None,
                ) && instance.exports() == export_entries(self.exports()),
                Err(error) => error matches ExecutionError::Link(failure) && link_outcome(
                    self.imports(),
                    bound_entries(binding_view(binding)),
                    Some(failure),
                ),
            },
    {
        let mut module = self;
        let table = import_table(&mut module.store, binding, host);
        match instantiate(module, &table) {
            Err(fault) => Err(ExecutionError::from_instantiation_fault(fault)),
            Ok(instance) => Ok(instance),
        }
    }

    /// Stages three to six: instantiates the module with the binding table
    /// and calls the export once. A link error tells what the table lacks;
    /// where the module links, the exports that it declares decide whether
    /// the name is found and whether anything runs.
    pub fn execute<F: Fn() + Send + Sync + 'static>(
        self,
        binding: Option<&HostBinding>,
        export: &str,
        host: F,
    ) -> (outcome: Result<(), ExecutionError>)
        requires
            call_requires(host, ()),
        ensures
            run_outcome(
                self.imports(),
                self.exports(),
                bound_entries(binding_view(binding)),
                export@,
                outcome,
            ),
    {
        match self.instantiate(binding, host) {
            Err(error) => Err(error),
            Ok(mut instance) => instance.call(export),
        }
    }
}

/// What instantiation comes to, given the imports that the module declares
/// and the binding table: `None` for an instance, else the failure. A table
/// that leaves an import without an entry is a missing import, and nothing
/// else is; an instance comes about only where the table satisfies every
/// import, and a signature mismatch is reported only where it does not.
pub open spec fn link_outcome(
    imports: Seq<ImportView>,
    table: TableView,
    failure: Option<LinkFailure>,
) -> bool {
    match failure {
        None => all_satisfied(imports, table),
        Some(LinkFailure::MissingImport) => !all_bound(imports, table),
        Some(LinkFailure::SignatureMismatch) => all_bound(imports, table) && !all_satisfied(
            imports,
            table,
        ),
        Some(LinkFailure::Initialization) => all_bound(imports, table),
    }
}

/// What a run of the stages after compilation comes to, given what the
/// module declares, the binding table and the name of the export: a link
/// failure as [`link_outcome`] has it, and where the module links, what
/// [`call_outcome`] has for the exports that the module declares.
pub open spec fn run_outcome(
    imports: Seq<ImportView>,
    exports: Seq<ExportView>,
    table: TableView,
    export: Seq<char>,
    outcome: Result<(), ExecutionError>,
) -> bool {
    match outcome {
        Err(ExecutionError::Link(failure)) => link_outcome(imports, table, Some(failure)),
        _ => link_outcome(imports, table, None) && call_outcome(
            export_entries(exports),
            export,
            outcome,
        ),
    }
}

/// What the call of an export comes to, given what the instance exports: a
/// name that is not exported is not found, a name that stands for anything
/// but a procedure is a signature mismatch, and a procedure runs, with or
/// without a trap.
pub open spec fn call_outcome(
    exports: Map<Seq<char>, ItemView>,
    export: Seq<char>,
    outcome: Result<(), ExecutionError>,
) -> bool {
    if !exports.dom().contains(export) {
        outcome == Err::<(), ExecutionError>(ExecutionError::ExportNotFound)
    } else if exports[export] != ItemView::Function(SignatureView::procedure()) {
        outcome == Err::<(), ExecutionError>(ExecutionError::SignatureMismatch)
    } else {
        outcome is Ok || outcome == Err::<(), ExecutionError>(ExecutionError::Trap)
    }
}

impl GuestInstance {
    /// What the instance exports, name by name.
    pub closed spec fn exports(&self) -> Map<Seq<char>, ItemView> {
        namespace_entries(self.exports)
    }

    /// Stages five and six: looks the name up among the exports, as a
    /// procedure, and calls what it finds once. A name that is not exported,
    /// or that stands for anything but a procedure, is an error and nothing
    /// runs; a procedure runs, and whether it traps is up to the guest.
    pub fn call(&mut self, export: &str) -> (outcome: Result<(), ExecutionError>)
        ensures
            final(self).exports() == old(self).exports(),
            call_outcome(old(self).exports(), export@, outcome),
    {
        match lookup_procedure(self, export) {
            Err(fault) => Err(ExecutionError::from_export_fault(fault)),
            Ok(procedure) => match call_procedure(self, &procedure) {
                Err(_) => Err(ExecutionError::Trap),
                Ok(()) => Ok(()),
            },
        }
    }
}

} // verus!
