use recipe_ops::{IdentityNamespace, KernelTemplateId, OperationErrorKind, ValueId, validate_identity_namespaces};

#[test]
fn namespace_check_ignores_the_order() {
    let a = IdentityNamespace::new(ValueId(0), 10, KernelTemplateId(0), 10);
    let b = IdentityNamespace::new(ValueId(10), 10, KernelTemplateId(10), 10);
    let c = IdentityNamespace::new(ValueId(5), 10, KernelTemplateId(100), 10);
    assert!(validate_identity_namespaces(&[a, b]).is_ok());
    assert!(validate_identity_namespaces(&[b, a]).is_ok());
    assert_eq!(validate_identity_namespaces(&[a, b, c]).unwrap_err().kind, OperationErrorKind::IdentityNamespaceOverlap);
    assert_eq!(validate_identity_namespaces(&[c, b, a]).unwrap_err().kind, OperationErrorKind::IdentityNamespaceOverlap);
}
