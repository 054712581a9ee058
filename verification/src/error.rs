//! The stages of an execution and the errors that end it.

use vstd::prelude::*;

use crate::runtime::{ExportFault, InstantiationFault};

verus! {

/// The six steps of one guest execution, in the order in which they run.
#[derive(Clone, Copy, Debug, PartialEq, Eq, Structural)]
pub enum Stage {
    /// The module text becomes a binary module.
    Parse,
    /// The binary module is validated and compiled.
    Compile,
    /// The binding table is built. Nothing can fail here.
    ResolveImports,
    /// The compiled module is linked with the binding table.
    Instantiate,
    /// The export is looked up by its name, as a procedure.
    ResolveExport,
    /// The export is called, once.
    Invoke,
}

/// Why instantiation refused to link the module.
#[derive(Clone, Copy, Debug, PartialEq, Eq, Structural)]
pub enum LinkFailure {
    /// The module declares an import that the binding table does not hold.
    MissingImport,
    /// The binding table has an entry for every import, and an entry is
    /// not what the module declares: a function of another signature, or a
    /// function where the module imports something else.
    SignatureMismatch,
    /// The binding table has an entry for every import, and the runtime
    /// could not set the instance up for another reason: for want of
    /// resources, because the guest trapped while it started, or because
    /// the host is not the one that the module was compiled for.
    Initialization,
}

impl LinkFailure {
    /// The kind of link failure that a fault of the runtime counts as: the
    /// two faults that concern a single import keep their meaning, every
    /// other fault is a failed initialization.
    pub open spec fn of_fault(fault: InstantiationFault) -> LinkFailure {
        match fault {
            InstantiationFault::UnknownImport => LinkFailure::MissingImport,
            InstantiationFault::IncompatibleImport => LinkFailure::SignatureMismatch,
            _ => LinkFailure::Initialization,
        }
    }

    /// The kind of link failure that a fault of the runtime counts as.
    pub fn from_fault(fault: InstantiationFault) -> (failure: LinkFailure)
        ensures
            failure == LinkFailure::of_fault(fault),
    {
        match fault {
            InstantiationFault::UnknownImport => LinkFailure::MissingImport,
            InstantiationFault::IncompatibleImport => LinkFailure::SignatureMismatch,
            InstantiationFault::ImportMemory => LinkFailure::Initialization,
            InstantiationFault::LinkTrap => LinkFailure::Initialization,
            InstantiationFault::Resource => LinkFailure::Initialization,
            InstantiationFault::Start => LinkFailure::Initialization,
            InstantiationFault::CpuFeature => LinkFailure::Initialization,
            InstantiationFault::DifferentStores => LinkFailure::Initialization,
            InstantiationFault::DifferentArchOs => LinkFailure::Initialization,
        }
    }
}

/// How one guest execution failed. Every kind of error belongs to one
/// stage, and ends the run at that stage.
#[derive(Clone, Copy, Debug, PartialEq, Eq, Structural)]
pub enum ExecutionError {
    /// The module text is not well formed.
    Parse,
    /// The binary module could not be validated or compiled.
    Compile,
    /// The module could not be combined with the binding table.
    Link(LinkFailure),
    /// The instance has no export of the requested name.
    ExportNotFound,
    /// The export exists and is no procedure without arguments and results.
    SignatureMismatch,
    /// The guest trapped while the export ran.
    Trap,
}

impl ExecutionError {
    /// The stage at which this kind of error arises.
    pub open spec fn stage_of(self) -> Stage {
        match self {
            ExecutionError::Parse => Stage::Parse,
            ExecutionError::Compile => Stage::Compile,
            ExecutionError::Link(_) => Stage::Instantiate,
            ExecutionError::ExportNotFound => Stage::ResolveExport,
            ExecutionError::SignatureMismatch => Stage::ResolveExport,
            ExecutionError::Trap => Stage::Invoke,
        }
    }

    /// The error that a failed export lookup counts as.
    pub open spec fn of_export_fault(fault: ExportFault) -> ExecutionError {
        match fault {
            ExportFault::Missing => ExecutionError::ExportNotFound,
            ExportFault::IncompatibleType => ExecutionError::SignatureMismatch,
        }
    }

    /// The error that a failed export lookup counts as.
    pub fn from_export_fault(fault: ExportFault) -> (error: ExecutionError)
        ensures
            error == ExecutionError::of_export_fault(fault),
    {
        match fault {
            ExportFault::Missing => ExecutionError::ExportNotFound,
            ExportFault::IncompatibleType => ExecutionError::SignatureMismatch,
        }
    }

    /// The error that a refused instantiation counts as.
    pub fn from_instantiation_fault(fault: InstantiationFault) -> (error: ExecutionError)
        ensures
            error == ExecutionError::Link(LinkFailure::of_fault(fault)),
    {
        ExecutionError::Link(LinkFailure::from_fault(fault))
    }

    /// What the error says to a reader.
    pub open spec fn text(self) -> Seq<char> {
        match self {
            ExecutionError::Parse => "parse error: the module text is not well formed"@,
            ExecutionError::Compile => "compile error: the module is not valid or was not compiled"@,
            ExecutionError::Link(LinkFailure::MissingImport) =>
                "link error: the module declares an import that is not bound"@,
            ExecutionError::Link(LinkFailure::SignatureMismatch) =>
                "link error: an import is bound with another signature than the module declares"@,
            ExecutionError::Link(LinkFailure::Initialization) =>
                "link error: the instance was not initialized"@,
            ExecutionError::ExportNotFound => "export not found"@,
            ExecutionError::SignatureMismatch =>
                "signature mismatch: the export is no procedure without arguments and results"@,
            ExecutionError::Trap => "trap: the guest stopped on an illegal operation"@,
        }
    }

    /// What the error says to a reader, for a log or an error stream.
    pub fn describe(&self) -> (message: String)
        ensures
            message@ == self.text(),
    {
        let message: &str = match self {
            ExecutionError::Parse => "parse error: the module text is not well formed",
            ExecutionError::Compile => "compile error: the module is not valid or was not compiled",
            ExecutionError::Link(LinkFailure::MissingImport) => {
                "link error: the module declares an import that is not bound"
            },
            ExecutionError::Link(LinkFailure::SignatureMismatch) => {
                "link error: an import is bound with another signature than the module declares"
            },
            ExecutionError::Link(LinkFailure::Initialization) => {
                "link error: the instance was not initialized"
            },
            ExecutionError::ExportNotFound => "export not found",
            ExecutionError::SignatureMismatch => {
                "signature mismatch: the export is no procedure without arguments and results"
            },
            ExecutionError::Trap => "trap: the guest stopped on an illegal operation",
        };
        message.to_owned()
    }

    /// The stage at which this kind of error arises.
    pub fn stage(&self) -> (s: Stage)
        ensures
            s == self.stage_of(),
    {
        match self {
            ExecutionError::Parse => Stage::Parse,
            ExecutionError::Compile => Stage::Compile,
            ExecutionError::Link(_) => Stage::Instantiate,
            ExecutionError::ExportNotFound => Stage::ResolveExport,
            ExecutionError::SignatureMismatch => Stage::ResolveExport,
            ExecutionError::Trap => Stage::Invoke,
        }
    }
}

} // verus!
