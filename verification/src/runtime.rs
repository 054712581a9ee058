//! The boundary to wasmer: the declarations of its types, the names for what
//! it computes, and the functions that call it. None of their contracts is
//! proved; each says what the source of wasmer shows.

use vstd::prelude::*;

use wasmer::{ExternType, InstantiationError, LinkError};
use wasmer_types::ImportError;

use crate::binding::{Signature, SignatureView, ValueKind};
use crate::declaration::{
    all_bound, all_satisfied, export_entries, ExportDecl, ExportView, ImportDecl, ImportView,
    ItemKind, ItemView, TableView,
};
use crate::guest::{CompiledModule, GuestInstance};

verus! {

/// `wasmer::Store`: what holds the compiled code and every object of one
/// execution. Opaque.
#[verifier::external_type_specification]
#[verifier::external_body]
pub struct ExStore(wasmer::Store);

/// `wasmer::Module`: a compiled module. Opaque.
#[verifier::external_type_specification]
#[verifier::external_body]
pub struct ExModule(wasmer::Module);

/// `wasmer::Type`: the type of one value. Opaque.
#[verifier::external_type_specification]
#[verifier::external_body]
pub struct ExType(wasmer::Type);

/// `wasmer::ExternType`: the type of an import or export. Opaque.
#[verifier::external_type_specification]
#[verifier::external_body]
pub struct ExExternType(wasmer::ExternType);

/// `wasmer::Function`: a function in a store. Opaque.
#[verifier::external_type_specification]
#[verifier::external_body]
pub struct ExFunction(wasmer::Function);

/// `wasmer::Imports`: a binding table. Its entries are [`table_entries`].
#[verifier::external_type_specification]
#[verifier::external_body]
pub struct ExImports(wasmer::Imports);

/// `wasmer::Exports`: the exports of an instance. Its entries are
/// [`namespace_entries`].
#[verifier::external_type_specification]
#[verifier::external_body]
pub struct ExExports(wasmer::Exports);

/// `wasmer::TypedFunction`: a function whose signature is known. Opaque.
#[verifier::external_type_specification]
#[verifier::external_body]
#[verifier::reject_recursive_types(Args)]
#[verifier::reject_recursive_types(Rets)]
pub struct ExTypedFunction<Args, Rets>(wasmer::TypedFunction<Args, Rets>);

/// `wasmer::CompileError`. Opaque.
#[verifier::external_type_specification]
#[verifier::external_body]
pub struct ExCompileError(wasmer::CompileError);

/// `wasmer::InstantiationError`. Opaque; [`instantiation_fault`] tells its
/// cases apart.
#[verifier::external_type_specification]
#[verifier::external_body]
pub struct ExInstantiationError(wasmer::InstantiationError);

/// `wasmer::RuntimeError`: a trap. Opaque.
#[verifier::external_type_specification]
#[verifier::external_body]
pub struct ExRuntimeError(wasmer::RuntimeError);

/// How the runtime refused to instantiate a module, one variant for each
/// case that `wasmer::InstantiationError` tells apart.
#[derive(Clone, Copy, Debug, PartialEq, Eq, Structural)]
pub enum InstantiationFault {
    /// An import that the module declares was not provided.
    UnknownImport,
    /// An import was provided under a type that the module does not accept.
    IncompatibleImport,
    /// An imported memory could not be used.
    ImportMemory,
    /// A trap while the imports were linked.
    LinkTrap,
    /// Not enough resources to link.
    Resource,
    /// The module's start function trapped.
    Start,
    /// The module needs a CPU feature that the host lacks.
    CpuFeature,
    /// An import belongs to another store.
    DifferentStores,
    /// The module was compiled for another architecture or system.
    DifferentArchOs,
}

/// How the lookup of an export failed, one variant for each case of
/// `wasmer::ExportError`.
#[derive(Clone, Copy, Debug, PartialEq, Eq, Structural)]
pub enum ExportFault {
    /// Nothing is exported under the name.
    Missing,
    /// What is exported under the name has another type than was asked for.
    IncompatibleType,
}

/// A function of the host, made in one store, with the type it was made
/// with.
pub(crate) struct HostFunction {
    pub(crate) signature: Signature,
    pub(crate) handle: wasmer::Function,
}

/// What `wasmer::wat2wasm` makes of a text, that is of bytes that do not
/// begin with the binary magic number: the binary module, or `None` where it
/// reports an error.
pub uninterp spec fn text_encoding(text: Seq<u8>) -> Option<Seq<u8>>;

/// The imports that `wasmer::Module::imports` lists, in their order, for the
/// module that `wasmer::Module::new` compiles from the bytes.
pub uninterp spec fn binary_imports(binary: Seq<u8>) -> Seq<ImportView>;

/// The exports that `wasmer::Module::exports` lists, in their order, for the
/// module that `wasmer::Module::new` compiles from the bytes.
pub uninterp spec fn binary_exports(binary: Seq<u8>) -> Seq<ExportView>;

/// The places that a `wasmer::Imports` defines, each a namespace and a name,
/// with what stands there.
pub uninterp spec fn table_entries(table: wasmer::Imports) -> Map<(Seq<char>, Seq<char>), ItemView>;

/// The names that a `wasmer::Exports` defines, each with what stands under it.
pub uninterp spec fn namespace_entries(namespace: wasmer::Exports) -> Map<Seq<char>, ItemView>;

/// A binding table that defines nothing.
pub open spec fn no_entries() -> TableView {
    Map::empty()
}

/// Whether everything in the table is a function.
pub open spec fn only_functions(table: TableView) -> bool {
    forall|place: (Seq<char>, Seq<char>)| #[trigger]
        table.dom().contains(place) ==> table[place] is Function
}

/// The four bytes with which every binary module begins.
pub open spec fn binary_magic() -> Seq<u8> {
    seq![0u8, 0x61u8, 0x73u8, 0x6du8]
}

/// Whether the bytes begin with the magic number of a binary module.
pub open spec fn is_binary(bytes: Seq<u8>) -> bool {
    bytes.len() >= 4 && bytes.subrange(0, 4) == binary_magic()
}

/// Whether the bytes that came back are the expected ones.
pub open spec fn same_bytes(got: Option<Vec<u8>>, expected: Option<Seq<u8>>) -> bool {
    match got {
        Some(bytes) => expected == Some(bytes@),
        None => expected is None,
    }
}

/// What the lookup of a procedure, a function without parameters and
/// results, finds under the name: nothing when it succeeds, else the fault.
pub open spec fn procedure_lookup(entries: Map<Seq<char>, ItemView>, name: Seq<char>) -> Option<
    ExportFault,
> {
    if !entries.dom().contains(name) {
        Some(ExportFault::Missing)
    } else if entries[name] != ItemView::Function(SignatureView::procedure()) {
        Some(ExportFault::IncompatibleType)
    } else {
        None
    }
}

/// `wasmer::wat2wasm`. It hands back bytes that begin with the binary magic
/// number as they are, and encodes every other input as module text; an
/// input that is no well-formed text is an error, reported here as `None`.
#[verifier::external_body]
pub(crate) fn parse_module(source: &[u8]) -> (binary: Option<Vec<u8>>)
    ensures
        is_binary(source@) ==> same_bytes(binary, Some(source@)),
        !is_binary(source@) ==> same_bytes(binary, text_encoding(source@)),
{
    wasmer::wat2wasm(source).ok().map(|bytes| bytes.into_owned())
}

/// `wasmer::Store::new` on an engine that compiles with Cranelift in its
/// default configuration.
#[verifier::external_body]
pub(crate) fn new_store() -> wasmer::Store {
    wasmer::Store::new(wasmer_compiler_cranelift::Cranelift::default())
}

/// The `wasmer::Type` that stands for a value kind.
#[verifier::external_body]
fn wasm_type(kind: &ValueKind) -> wasmer::Type {
    match kind {
        ValueKind::I32 => wasmer::Type::I32,
        ValueKind::I64 => wasmer::Type::I64,
        ValueKind::F32 => wasmer::Type::F32,
        ValueKind::F64 => wasmer::Type::F64,
        ValueKind::V128 => wasmer::Type::V128,
        ValueKind::ExternRef => wasmer::Type::ExternRef,
        ValueKind::FuncRef => wasmer::Type::FuncRef,
        ValueKind::ExceptionRef => wasmer::Type::ExceptionRef,
    }
}

/// The value kind that stands for a `wasmer::Type`.
#[verifier::external_body]
fn value_kind(ty: &wasmer::Type) -> ValueKind {
    match ty {
        wasmer::Type::I32 => ValueKind::I32,
        wasmer::Type::I64 => ValueKind::I64,
        wasmer::Type::F32 => ValueKind::F32,
        wasmer::Type::F64 => ValueKind::F64,
        wasmer::Type::V128 => ValueKind::V128,
        wasmer::Type::ExternRef => ValueKind::ExternRef,
        wasmer::Type::FuncRef => ValueKind::FuncRef,
        wasmer::Type::ExceptionRef => ValueKind::ExceptionRef,
    }
}

/// The item kind that stands for a `wasmer::ExternType`: a function keeps
/// its parameter and result types, every other kind keeps its kind alone.
#[verifier::external_body]
fn item_kind(ty: &wasmer::ExternType) -> ItemKind {
    match ty {
        ExternType::Function(function) => ItemKind::Function(Signature {
            params: function.params().iter().map(value_kind).collect(),
            results: function.results().iter().map(value_kind).collect(),
        }),
        ExternType::Global(_) => ItemKind::Global,
        ExternType::Table(_) => ItemKind::Table,
        ExternType::Memory(_) => ItemKind::Memory,
        ExternType::Tag(_) => ItemKind::Tag,
    }
}

/// `wasmer::Module::new`, which validates and compiles a binary module
/// (given a text, it encodes the text first), then `wasmer::Module::imports`
/// and `wasmer::Module::exports` for what the module declares, in the order
/// of the declarations. On a host for which Cranelift has no code generator
/// the compiler panics; no input decides that.
#[verifier::external_body]
pub(crate) fn compile_module(store: wasmer::Store, binary: &[u8]) -> (outcome: Result<
    CompiledModule,
    wasmer::CompileError,
>)
    ensures
        outcome matches Ok(module) ==> module.imports.deep_view() == binary_imports(binary@)
            && module.exports.deep_view() == binary_exports(binary@),
{
    let module = wasmer::Module::new(&store, binary)?;
    let imports = module.imports().map(|import| ImportDecl {
        namespace: import.module().to_string(),
        name: import.name().to_string(),
        item: item_kind(import.ty()),
    }).collect();
    let exports = module.exports().map(|export| ExportDecl {
        name: export.name().to_string(),
        item: item_kind(export.ty()),
    }).collect();
    Ok(CompiledModule { store, module, imports, exports })
}

/// `wasmer::Function::new`: a function of the host, of the given type, that
/// runs the procedure each time it is called, hands it none of its arguments
/// and hands its caller no results.
#[verifier::external_body]
pub(crate) fn host_function<F: Fn() + Send + Sync + 'static>(
    store: &mut wasmer::Store,
    signature: &Signature,
    procedure: F,
) -> (function: HostFunction)
    requires
        call_requires(procedure, ()),
    ensures
        function.signature@ == signature@,
{
    let params: Vec<wasmer::Type> = signature.params.iter().map(wasm_type).collect();
    let results: Vec<wasmer::Type> = signature.results.iter().map(wasm_type).collect();
    let ty = wasmer::FunctionType::new(params, results);
    let handle = wasmer::Function::new(store, ty, move |_arguments| {
        procedure();
        Ok(Vec::new())
    });
    HostFunction { signature: signature.clone(), handle }
}

/// `wasmer::Imports::new`: a binding table that defines nothing.
#[verifier::external_body]
pub(crate) fn new_table() -> (table: wasmer::Imports)
    ensures
        table_entries(table) == no_entries(),
{
    wasmer::Imports::new()
}

/// `wasmer::Imports::define`: puts the function at the namespace and name, in
/// place of what stood there before, and leaves every other place as it is.
#[verifier::external_body]
pub(crate) fn table_define(
    table: &mut wasmer::Imports,
    namespace: &str,
    name: &str,
    function: HostFunction,
)
    ensures
        table_entries(*final(table)) == table_entries(*old(table)).insert(
            (namespace@, name@),
            ItemView::Function(function.signature@),
        ),
{
    table.define(namespace, name, function.handle)
}

/// Tells the cases of a `wasmer::InstantiationError` apart, and under a
/// link error those of `wasmer::LinkError` and `wasmer_types::ImportError`.
#[verifier::external_body]
fn instantiation_fault(error: &wasmer::InstantiationError) -> InstantiationFault {
    match error {
        InstantiationError::Link(LinkError::Import(_, _, import)) => match import {
            ImportError::UnknownImport(_) => InstantiationFault::UnknownImport,
            ImportError::IncompatibleType(_, _) => InstantiationFault::IncompatibleImport,
            ImportError::MemoryError(_) => InstantiationFault::ImportMemory,
        },
        InstantiationError::Link(LinkError::Trap(_)) => InstantiationFault::LinkTrap,
        InstantiationError::Link(LinkError::Resource(_)) => InstantiationFault::Resource,
        InstantiationError::Start(_) => InstantiationFault::Start,
        InstantiationError::CpuFeature(_) => InstantiationFault::CpuFeature,
        InstantiationError::DifferentStores => InstantiationFault::DifferentStores,
        InstantiationError::DifferentArchOS => InstantiationFault::DifferentArchOs,
    }
}

/// `wasmer::Instance::new`, in the store of the module. Before anything
/// else it looks every declared import up in the table and reports the
/// first that has no entry as unknown. It goes on to check each entry
/// against the type that the import declares, and an entry of another type
/// is incompatible, so that an instance comes about only where the table
/// satisfies every import. The instance exports what its module declares.
/// Of the instance this keeps the field `exports`, beside the store that
/// holds everything else.
#[verifier::external_body]
pub(crate) fn instantiate(module: CompiledModule, table: &wasmer::Imports) -> (outcome: Result<
    GuestInstance,
    InstantiationFault,
>)
    requires
        only_functions(table_entries(*table)),
    ensures
        outcome matches Err(InstantiationFault::UnknownImport) <==> !all_bound(
            module.imports.deep_view(),
            table_entries(*table),
        ),
        outcome is Ok ==> all_satisfied(module.imports.deep_view(), table_entries(*table)),
        outcome matches Err(InstantiationFault::IncompatibleImport) ==> !all_satisfied(
            module.imports.deep_view(),
            table_entries(*table),
        ),
        outcome matches Ok(instance) ==> namespace_entries(instance.exports) == export_entries(
            module.exports.deep_view(),
        ),
{
    let mut store = module.store;
    match wasmer::Instance::new(&mut store, &module.module, table) {
        Ok(instance) => Ok(GuestInstance { store, exports: instance.exports }),
        Err(error) => Err(instantiation_fault(&error)),
    }
}

/// `wasmer::Exports::get_typed_function` on the exports of the instance,
/// asked for a function without parameters and results. It reports a name
/// that is not defined as missing, and a name that stands for anything but
/// such a function as of an incompatible type.
#[verifier::external_body]
pub(crate) fn lookup_procedure(instance: &GuestInstance, name: &str) -> (found: Result<
    wasmer::TypedFunction<(), ()>,
    ExportFault,
>)
    ensures
        match found {
            Ok(_) => procedure_lookup(namespace_entries(instance.exports), name@) is None,
            Err(fault) => procedure_lookup(namespace_entries(instance.exports), name@) == Some(
                fault,
            ),
        },
{
    instance.exports.get_typed_function(&instance.store, name).map_err(|error| match error {
        wasmer::ExportError::Missing(_) => ExportFault::Missing,
        wasmer::ExportError::IncompatibleType => ExportFault::IncompatibleType,
    })
}

/// `wasmer::TypedFunction::call` on a function without parameters and
/// results that was found among the exports of the instance, in the store
/// of the instance. The exports stay as they are.
#[verifier::external_body]
pub(crate) fn call_procedure(
    instance: &mut GuestInstance,
    procedure: &wasmer::TypedFunction<(), ()>,
) -> (outcome: Result<(), wasmer::RuntimeError>)
    ensures
        namespace_entries(final(instance).exports) == namespace_entries(old(instance).exports),
{
    procedure.call(&mut instance.store)
}

} // verus!
