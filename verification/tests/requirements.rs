use recipe_ops::binary_metrics::{threshold_in_unit_interval, validate_recall_thresholds};
use recipe_ops::kmeans::validate_resources;
use recipe_ops::{
    BinaryMetricRequirements, ByteCount, IdentityNamespace, KMeansRequirements, KernelTemplateId,
    KnnOutputRequirement, KnnOutputSpec, OperationErrorKind, ValueId, binary_metric_requirements,
    kmeans_initialization_requirements, kmeans_lloyd_requirements, knn_all_output_requirements,
};

#[test]
fn binary_metric_resources_follow_the_formula() {
    assert_eq!(
        binary_metric_requirements(10, 2, 3),
        Ok(BinaryMetricRequirements {
            intermediate_values: 24 + 4 + 15,
            kernels: 24 + 6 + 12,
            workspace_bytes: ByteCount(19 * 40 + 20 + 2 * 44 + 3 * 92),
        })
    );
    assert_eq!(
        binary_metric_requirements(9_999_999, 256, 256).unwrap().workspace_bytes,
        ByteCount(19 * 39_999_996 + 20 + 256 * 40_000_000 + 256 * (2 * 39_999_996 + 12))
    );
    for (examples, recalls, bins) in [(0, 0, 1), (10_000_000, 0, 1), (1, 257, 1), (1, 0, 0), (1, 0, 257)] {
        assert_eq!(
            binary_metric_requirements(examples, recalls, bins).unwrap_err().kind,
            OperationErrorKind::UnsupportedConcreteShape
        );
    }
}

#[test]
fn recall_thresholds_lie_in_the_unit_interval() {
    assert!(threshold_in_unit_interval(0));
    assert!(threshold_in_unit_interval(0x3f00_0000));
    assert!(threshold_in_unit_interval(0x3f80_0000));
    assert!(threshold_in_unit_interval(0x8000_0000));
    assert!(!threshold_in_unit_interval(0x3f80_0001));
    assert!(!threshold_in_unit_interval(0xbf80_0000));
    assert!(!threshold_in_unit_interval(0x7fc0_0000));
    assert_eq!(validate_recall_thresholds(&[0x3f00_0000, 0x3f80_0000]), Ok(()));
    assert!(validate_recall_thresholds(&[0x3f00_0000, 0x4000_0000]).is_err());
}

#[test]
fn kmeans_resources_follow_the_formula() {
    assert_eq!(
        kmeans_initialization_requirements(5),
        Ok(KMeansRequirements { intermediate_values: 1, kernels: 2, workspace_bytes: ByteCount(20) })
    );
    assert_eq!(kmeans_initialization_requirements(0).unwrap_err().kind, OperationErrorKind::UnsupportedConcreteShape);
    assert_eq!(
        kmeans_initialization_requirements(2_147_483_648).unwrap_err().kind,
        OperationErrorKind::UnsupportedConcreteShape
    );
    let elements = 3 * (10 * 3) + 4 * (4 * 3) + 2 * 10 + 3 * 4 + 4 * (10 * 4);
    assert_eq!(
        kmeans_lloyd_requirements(10, 3, 4),
        Ok(KMeansRequirements { intermediate_values: 16, kernels: 18, workspace_bytes: ByteCount(4 * elements) })
    );
    assert_eq!(kmeans_lloyd_requirements(0, 3, 4).unwrap_err().kind, OperationErrorKind::UnsupportedConcreteShape);
    assert_eq!(kmeans_lloyd_requirements(16_777_217, 3, 4).unwrap_err().kind, OperationErrorKind::UnsupportedConcreteShape);
    assert_eq!(kmeans_lloyd_requirements(10, 0, 4).unwrap_err().kind, OperationErrorKind::UnsupportedConcreteShape);
    assert_eq!(kmeans_lloyd_requirements(10, 3, 0).unwrap_err().kind, OperationErrorKind::UnsupportedConcreteShape);
    assert_eq!(
        kmeans_lloyd_requirements(16_777_216, u64::MAX / 4, 1).unwrap_err().kind,
        OperationErrorKind::WorkspaceArithmeticOverflow
    );
}

#[test]
fn kmeans_resources_must_fit_the_reservation() {
    let requirements = KMeansRequirements { intermediate_values: 16, kernels: 18, workspace_bytes: ByteCount(100) };
    let namespace = |values: u64, kernels: u64| IdentityNamespace::new(ValueId(0), values, KernelTemplateId(0), kernels);
    assert_eq!(validate_resources(namespace(16, 18), ByteCount(100), requirements), Ok(()));
    assert_eq!(
        validate_resources(namespace(15, 18), ByteCount(100), requirements).unwrap_err().kind,
        OperationErrorKind::IdentityNamespaceExhausted
    );
    assert_eq!(
        validate_resources(namespace(16, 17), ByteCount(100), requirements).unwrap_err().kind,
        OperationErrorKind::IdentityNamespaceExhausted
    );
    assert_eq!(
        validate_resources(namespace(16, 18), ByteCount(99), requirements).unwrap_err().kind,
        OperationErrorKind::WorkspaceLimitExceeded
    );
}

#[test]
fn knn_resources_sum_the_declared_outputs() {
    let outputs = [
        KnnOutputSpec::Numeric { known_references: 3 },
        KnnOutputSpec::Categorical { known_references: 5, classes: 4 },
    ];
    let requirements = knn_all_output_requirements(2, 5, 3, 4, &outputs).unwrap();
    assert_eq!(
        requirements.outputs,
        vec![
            KnnOutputRequirement { effective_neighbors: 3, classes: None },
            KnnOutputRequirement { effective_neighbors: 4, classes: Some(4) },
        ]
    );
    assert_eq!(requirements.intermediate_values, 6 + 10 + 17);
    assert_eq!(requirements.kernels, 6 + 10 + 16);
    let base = 2 * 3 + 5 * 3 + 2 + 5 + 2 * (2 * 5);
    let numeric = (2 + 3 * 10 + 3 + 6) + (5 + 6 + 2);
    let categorical = (2 + 3 * 10 + 4 + 8) + (5 + 2 * 8 + 2 + 5 * 8 + 1);
    assert_eq!(requirements.workspace_bytes, ByteCount(4 * (base + numeric + categorical)));
    assert_eq!(KnnOutputSpec::Categorical { known_references: 5, classes: 4 }.known_references(), 5);
}

#[test]
fn knn_refuses_unsupported_shapes() {
    let numeric = [KnnOutputSpec::Numeric { known_references: 3 }];
    assert_eq!(knn_all_output_requirements(0, 5, 3, 4, &numeric).unwrap_err().kind, OperationErrorKind::UnsupportedConcreteShape);
    assert_eq!(knn_all_output_requirements(2, 5, 3, 0, &numeric).unwrap_err().kind, OperationErrorKind::UnsupportedConcreteShape);
    assert_eq!(knn_all_output_requirements(2, 5, 3, 4, &[]).unwrap_err().kind, OperationErrorKind::UnsupportedConcreteShape);
    let unknown = [KnnOutputSpec::Numeric { known_references: 0 }];
    assert_eq!(knn_all_output_requirements(2, 5, 3, 4, &unknown).unwrap_err().kind, OperationErrorKind::UnsupportedConcreteShape);
    let excess = [KnnOutputSpec::Numeric { known_references: 6 }];
    assert_eq!(knn_all_output_requirements(2, 5, 3, 4, &excess).unwrap_err().kind, OperationErrorKind::UnsupportedConcreteShape);
    let classless = [KnnOutputSpec::Categorical { known_references: 3, classes: 0 }];
    assert_eq!(knn_all_output_requirements(2, 5, 3, 4, &classless).unwrap_err().kind, OperationErrorKind::UnsupportedConcreteShape);
}
