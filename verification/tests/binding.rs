use guest_sequencer::{HostBinding, Signature, ValueKind};

#[test]
fn procedure_has_no_parameters_and_no_results() {
    let signature = Signature::procedure();
    assert!(signature.params.is_empty());
    assert!(signature.results.is_empty());
    assert!(signature.is_procedure());
}

#[test]
fn signature_keeps_its_kinds_in_order() {
    let signature = Signature::new(vec![ValueKind::I32, ValueKind::F64], vec![ValueKind::I64]);
    assert_eq!(signature.params, vec![ValueKind::I32, ValueKind::F64]);
    assert_eq!(signature.results, vec![ValueKind::I64]);
}

#[test]
fn function_with_a_parameter_or_a_result_is_no_procedure() {
    assert!(!Signature::new(vec![ValueKind::I32], vec![]).is_procedure());
    assert!(!Signature::new(vec![], vec![ValueKind::I32]).is_procedure());
    assert!(!Signature::new(vec![ValueKind::F32], vec![ValueKind::F32]).is_procedure());
    assert!(Signature::new(vec![], vec![]).is_procedure());
}

#[test]
fn binding_keeps_what_it_is_made_of() {
    let binding = HostBinding::new("env", "say_hello", Signature::new(vec![ValueKind::I32], vec![]));
    assert_eq!(binding.namespace, "env");
    assert_eq!(binding.name, "say_hello");
    assert_eq!(binding.signature.params, vec![ValueKind::I32]);
    assert!(binding.signature.results.is_empty());
}

#[test]
fn binding_names_may_be_empty_or_not_ascii() {
    let binding = HostBinding::new("", "grüß", Signature::procedure());
    assert_eq!(binding.namespace, "");
    assert_eq!(binding.name, "grüß");
}
