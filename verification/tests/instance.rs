use std::sync::atomic::{AtomicUsize, Ordering};
use std::sync::Arc;

use guest_sequencer::demo::MODULE_SOURCE;
use guest_sequencer::{
    demo_binding, CompiledModule, ExecutionError, HostBinding, LinkFailure, Signature, ValueKind,
};

fn counter() -> (Arc<AtomicUsize>, impl Fn() + Send + Sync + 'static) {
    let calls = Arc::new(AtomicUsize::new(0));
    let seen = calls.clone();
    (calls, move || {
        seen.fetch_add(1, Ordering::SeqCst);
    })
}

fn binary_of(source: &[u8]) -> Vec<u8> {
    wasmer::wat2wasm(source).unwrap().into_owned()
}

fn demo_binary() -> Vec<u8> {
    binary_of(MODULE_SOURCE.as_bytes())
}

#[test]
fn instantiation_alone_calls_nothing() {
    let (calls, host) = counter();
    let binding = demo_binding();
    let module = CompiledModule::compile(&demo_binary()).unwrap();
    assert!(module.instantiate(Some(&binding), host).is_ok());
    assert_eq!(calls.load(Ordering::SeqCst), 0);
}

#[test]
fn each_call_of_the_instance_runs_the_export_once() {
    let (calls, host) = counter();
    let binding = demo_binding();
    let mut instance = CompiledModule::compile(&demo_binary()).unwrap().instantiate(Some(&binding), host).unwrap();
    assert_eq!(instance.call("run"), Ok(()));
    assert_eq!(calls.load(Ordering::SeqCst), 1);
    assert_eq!(instance.call("run"), Ok(()));
    assert_eq!(calls.load(Ordering::SeqCst), 2);
}

#[test]
fn failed_lookup_leaves_the_instance_usable() {
    let (calls, host) = counter();
    let binding = demo_binding();
    let mut instance = CompiledModule::compile(&demo_binary()).unwrap().instantiate(Some(&binding), host).unwrap();
    assert_eq!(instance.call("say_hello"), Err(ExecutionError::ExportNotFound));
    assert_eq!(instance.call(""), Err(ExecutionError::ExportNotFound));
    assert_eq!(calls.load(Ordering::SeqCst), 0);
    assert_eq!(instance.call("run"), Ok(()));
    assert_eq!(calls.load(Ordering::SeqCst), 1);
}

#[test]
fn instance_tells_its_exports_apart() {
    let (_, host) = counter();
    let binary = binary_of(
        b"(module (global (export \"level\") i32 (i32.const 0)) (func (export \"one\") (result i32) (i32.const 1)) (func (export \"go\")) (func (export \"stop\") (unreachable)))",
    );
    let mut instance = CompiledModule::compile(&binary).unwrap().instantiate(None, host).unwrap();
    assert_eq!(instance.call("go"), Ok(()));
    assert_eq!(instance.call("stop"), Err(ExecutionError::Trap));
    assert_eq!(instance.call("one"), Err(ExecutionError::SignatureMismatch));
    assert_eq!(instance.call("level"), Err(ExecutionError::SignatureMismatch));
    assert_eq!(instance.call("none"), Err(ExecutionError::ExportNotFound));
    assert_eq!(instance.call("go"), Ok(()));
}

#[test]
fn trap_leaves_the_instance_usable() {
    let (_, host) = counter();
    let binary = binary_of(b"(module (func (export \"go\")) (func (export \"stop\") (unreachable)))");
    let mut instance = CompiledModule::compile(&binary).unwrap().instantiate(None, host).unwrap();
    assert_eq!(instance.call("stop"), Err(ExecutionError::Trap));
    assert_eq!(instance.call("stop"), Err(ExecutionError::Trap));
    assert_eq!(instance.call("go"), Ok(()));
}

#[test]
fn compilation_reports_compile_errors_only() {
    assert_eq!(CompiledModule::compile(b"\0asm????").err(), Some(ExecutionError::Compile));
    assert_eq!(CompiledModule::compile(b"").err(), Some(ExecutionError::Compile));
    assert!(CompiledModule::compile(&demo_binary()).is_ok());
}

#[test]
fn malformed_text_given_as_binary_fails_at_the_compile_stage() {
    assert_eq!(CompiledModule::compile(b"(module").err(), Some(ExecutionError::Compile));
}

#[test]
fn instantiation_reports_link_errors_only() {
    let (_, host) = counter();
    let module = CompiledModule::compile(&demo_binary()).unwrap();
    assert_eq!(
        module.instantiate(None, host).err(),
        Some(ExecutionError::Link(LinkFailure::MissingImport))
    );
    let (_, host) = counter();
    let module = CompiledModule::compile(&demo_binary()).unwrap();
    let binding = HostBinding::new("env", "say_hello", Signature::new(vec![ValueKind::I32], vec![]));
    assert_eq!(
        module.instantiate(Some(&binding), host).err(),
        Some(ExecutionError::Link(LinkFailure::SignatureMismatch))
    );
}

#[test]
fn missing_import_is_reported_before_a_mismatched_one() {
    let (_, host) = counter();
    let binary = binary_of(
        b"(module (import \"env\" \"say_hello\" (func (param i32))) (import \"env\" \"other\" (func)))",
    );
    let binding = demo_binding();
    assert_eq!(
        CompiledModule::compile(&binary).unwrap().instantiate(Some(&binding), host).err(),
        Some(ExecutionError::Link(LinkFailure::MissingImport))
    );
}

#[test]
fn one_binding_may_satisfy_several_imports() {
    let (calls, host) = counter();
    let binary = binary_of(
        b"(module (import \"env\" \"say_hello\" (func $a)) (import \"env\" \"say_hello\" (func $b)) (func (export \"run\") (call $a) (call $b)))",
    );
    let binding = demo_binding();
    assert_eq!(CompiledModule::compile(&binary).unwrap().execute(Some(&binding), "run", host), Ok(()));
    assert_eq!(calls.load(Ordering::SeqCst), 2);
}

#[test]
fn execution_of_a_module_goes_through_the_remaining_stages() {
    let (calls, host) = counter();
    let binding = demo_binding();
    assert_eq!(CompiledModule::compile(&demo_binary()).unwrap().execute(Some(&binding), "run", host), Ok(()));
    assert_eq!(calls.load(Ordering::SeqCst), 1);
    let (calls, host) = counter();
    assert_eq!(
        CompiledModule::compile(&demo_binary()).unwrap().execute(Some(&binding), "walk", host),
        Err(ExecutionError::ExportNotFound)
    );
    assert_eq!(calls.load(Ordering::SeqCst), 0);
    let (calls, host) = counter();
    assert_eq!(
        CompiledModule::compile(&demo_binary()).unwrap().execute(None, "run", host),
        Err(ExecutionError::Link(LinkFailure::MissingImport))
    );
    assert_eq!(calls.load(Ordering::SeqCst), 0);
}

#[test]
fn start_function_may_call_the_host_while_the_module_is_instantiated() {
    let (calls, host) = counter();
    let binary = binary_of(
        b"(module (import \"env\" \"say_hello\" (func $h)) (func $boot (call $h)) (start $boot) (func (export \"run\")))",
    );
    let binding = demo_binding();
    let mut instance = CompiledModule::compile(&binary).unwrap().instantiate(Some(&binding), host).unwrap();
    assert_eq!(calls.load(Ordering::SeqCst), 1);
    assert_eq!(instance.call("run"), Ok(()));
    assert_eq!(calls.load(Ordering::SeqCst), 1);
}

#[test]
fn reexported_host_procedure_can_be_called_as_an_export() {
    let (calls, host) = counter();
    let binary =
        binary_of(b"(module (import \"env\" \"say_hello\" (func $h)) (export \"run\" (func $h)))");
    let binding = demo_binding();
    let mut instance = CompiledModule::compile(&binary).unwrap().instantiate(Some(&binding), host).unwrap();
    assert_eq!(instance.call("run"), Ok(()));
    assert_eq!(calls.load(Ordering::SeqCst), 1);
}
