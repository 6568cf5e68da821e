use recipe_ops::identity::{identity_ranges, ranges_overlap};
use recipe_ops::{
    ByteCount, GraphLedger, IdentityNamespace, KernelTemplateId, OperationErrorKind, ValueId,
    validate_identity_namespaces,
};

fn namespace(seed: u64) -> IdentityNamespace {
    IdentityNamespace::new(ValueId::new(seed), 1_000, KernelTemplateId::new(seed), 1_000)
}

#[test]
fn disjoint_namespaces_are_accepted_and_overlaps_refused() {
    assert_eq!(validate_identity_namespaces(&[namespace(10_000), namespace(20_000)]), Ok(()));
    assert_eq!(validate_identity_namespaces(&[]), Ok(()));
    let overlap = validate_identity_namespaces(&[
        namespace(30_000),
        IdentityNamespace::new(ValueId::new(30_999), 10, KernelTemplateId::new(40_000), 10),
    ])
    .unwrap_err();
    assert_eq!(overlap.kind, OperationErrorKind::IdentityNamespaceOverlap);
    let kernel_overlap = validate_identity_namespaces(&[
        namespace(50_000),
        IdentityNamespace::new(ValueId::new(60_000), 10, KernelTemplateId::new(50_500), 10),
    ])
    .unwrap_err();
    assert_eq!(kernel_overlap.kind, OperationErrorKind::IdentityNamespaceOverlap);
    let adjacent = IdentityNamespace::new(ValueId::new(31_000), 10, KernelTemplateId::new(31_000), 10);
    assert_eq!(validate_identity_namespaces(&[namespace(30_000), adjacent]), Ok(()));
    let empty = IdentityNamespace::new(ValueId::new(30_500), 0, KernelTemplateId::new(30_500), 0);
    assert_eq!(validate_identity_namespaces(&[namespace(30_000), empty]), Ok(()));
}

#[test]
fn namespaces_leaving_u64_are_exhausted() {
    let wrapping = IdentityNamespace::new(ValueId::new(u64::MAX), 2, KernelTemplateId::new(0), 1);
    assert_eq!(
        validate_identity_namespaces(&[wrapping]).unwrap_err().kind,
        OperationErrorKind::IdentityNamespaceExhausted
    );
    assert_eq!(identity_ranges(namespace(7)), Ok((7, 1_007, 7, 1_007)));
    let kernels = IdentityNamespace::new(ValueId::new(0), 1, KernelTemplateId::new(u64::MAX - 1), 2);
    assert_eq!(identity_ranges(kernels).unwrap_err().kind, OperationErrorKind::IdentityNamespaceExhausted);
}

#[test]
fn half_open_ranges_overlap_only_when_they_share_an_identity() {
    assert!(ranges_overlap(0, 10, 9, 20));
    assert!(!ranges_overlap(0, 10, 10, 20));
    assert!(!ranges_overlap(5, 5, 0, 10));
    assert!(ranges_overlap(3, 4, 0, 10));
}

#[test]
fn independent_fragments_hand_out_disjoint_identities() {
    let first_namespace = namespace(10_000);
    let second_namespace = namespace(20_000);
    validate_identity_namespaces(&[first_namespace, second_namespace]).unwrap();
    let mut first = GraphLedger::new(first_namespace, &[ValueId(1), ValueId(2)], ByteCount(64)).unwrap();
    let mut second = GraphLedger::new(second_namespace, &[ValueId(101)], ByteCount(64)).unwrap();
    let a = first.intermediate(16).unwrap();
    let b = second.intermediate(16).unwrap();
    let c = first.intermediate(16).unwrap();
    assert_eq!((a, b, c), (ValueId(10_000), ValueId(20_000), ValueId(10_001)));
    assert_eq!(first.emit_kernel().unwrap(), KernelTemplateId(10_000));
    assert_eq!(second.emit_kernel().unwrap(), KernelTemplateId(20_000));
}
