use guest_sequencer::runtime::{ExportFault, InstantiationFault};
use guest_sequencer::{ExecutionError, LinkFailure, Stage};

#[test]
fn every_error_belongs_to_one_stage() {
    assert_eq!(ExecutionError::Parse.stage(), Stage::Parse);
    assert_eq!(ExecutionError::Compile.stage(), Stage::Compile);
    assert_eq!(ExecutionError::Link(LinkFailure::MissingImport).stage(), Stage::Instantiate);
    assert_eq!(ExecutionError::Link(LinkFailure::SignatureMismatch).stage(), Stage::Instantiate);
    assert_eq!(ExecutionError::Link(LinkFailure::Initialization).stage(), Stage::Instantiate);
    assert_eq!(ExecutionError::ExportNotFound.stage(), Stage::ResolveExport);
    assert_eq!(ExecutionError::SignatureMismatch.stage(), Stage::ResolveExport);
    assert_eq!(ExecutionError::Trap.stage(), Stage::Invoke);
}

#[test]
fn import_faults_keep_their_meaning() {
    assert_eq!(LinkFailure::from_fault(InstantiationFault::UnknownImport), LinkFailure::MissingImport);
    assert_eq!(
        LinkFailure::from_fault(InstantiationFault::IncompatibleImport),
        LinkFailure::SignatureMismatch
    );
}

#[test]
fn other_faults_are_failed_initializations() {
    let others = [
        InstantiationFault::ImportMemory,
        InstantiationFault::LinkTrap,
        InstantiationFault::Resource,
        InstantiationFault::Start,
        InstantiationFault::CpuFeature,
        InstantiationFault::DifferentStores,
        InstantiationFault::DifferentArchOs,
    ];
    for fault in others {
        assert_eq!(LinkFailure::from_fault(fault), LinkFailure::Initialization);
        assert_eq!(
            ExecutionError::from_instantiation_fault(fault),
            ExecutionError::Link(LinkFailure::Initialization)
        );
    }
}

#[test]
fn instantiation_faults_are_link_errors() {
    assert_eq!(
        ExecutionError::from_instantiation_fault(InstantiationFault::UnknownImport),
        ExecutionError::Link(LinkFailure::MissingImport)
    );
    assert_eq!(
        ExecutionError::from_instantiation_fault(InstantiationFault::IncompatibleImport),
        ExecutionError::Link(LinkFailure::SignatureMismatch)
    );
}

#[test]
fn export_faults_are_told_apart() {
    assert_eq!(ExecutionError::from_export_fault(ExportFault::Missing), ExecutionError::ExportNotFound);
    assert_eq!(
        ExecutionError::from_export_fault(ExportFault::IncompatibleType),
        ExecutionError::SignatureMismatch
    );
}

#[test]
fn errors_describe_themselves() {
    assert_eq!(ExecutionError::Parse.describe(), "parse error: the module text is not well formed");
    assert_eq!(
        ExecutionError::Compile.describe(),
        "compile error: the module is not valid or was not compiled"
    );
    assert_eq!(
        ExecutionError::Link(LinkFailure::MissingImport).describe(),
        "link error: the module declares an import that is not bound"
    );
    assert_eq!(
        ExecutionError::Link(LinkFailure::SignatureMismatch).describe(),
        "link error: an import is bound with another signature than the module declares"
    );
    assert_eq!(
        ExecutionError::Link(LinkFailure::Initialization).describe(),
        "link error: the instance was not initialized"
    );
    assert_eq!(ExecutionError::ExportNotFound.describe(), "export not found");
    assert_eq!(
        ExecutionError::SignatureMismatch.describe(),
        "signature mismatch: the export is no procedure without arguments and results"
    );
    assert_eq!(ExecutionError::Trap.describe(), "trap: the guest stopped on an illegal operation");
}

#[test]
fn descriptions_differ() {
    let all = [
        ExecutionError::Parse,
        ExecutionError::Compile,
        ExecutionError::Link(LinkFailure::MissingImport),
        ExecutionError::Link(LinkFailure::SignatureMismatch),
        ExecutionError::Link(LinkFailure::Initialization),
        ExecutionError::ExportNotFound,
        ExecutionError::SignatureMismatch,
        ExecutionError::Trap,
    ];
    for (i, a) in all.iter().enumerate() {
        for (j, b) in all.iter().enumerate() {
            assert_eq!(i == j, a.describe() == b.describe());
            assert_eq!(i == j, a == b);
        }
    }
}
