use recipe_ops::binary_metrics::{
    BinaryClassificationMetricRequest, RecallAtOutput, reserve_binary_classification_metrics,
};
use recipe_ops::kmeans::{
    KMeansInitializationRequest, KMeansLloydRequest, reserve_kmeans_initialization, reserve_kmeans_lloyd_step,
};
use recipe_ops::knn_outputs::{KnnAllOutputRequest, KnnOutputRequest};
use recipe_ops::{
    BinaryMetricRequirements, ByteCount, DType, IdentityNamespace, KMeansRequirements, KernelTemplateId,
    KnnOutputRequirement, KnnOutputSpec, OperationErrorKind, TensorDecl, ValueId,
};

fn tensor(id: u64, dtype: DType, extents: &[u64]) -> TensorDecl {
    TensorDecl {
        id: ValueId(id),
        dtype,
        extents: extents.to_vec(),
        storage_bytes: ByteCount(extents.iter().product::<u64>() * 4),
        external_input: false,
        external_output: false,
    }
}

fn namespace() -> IdentityNamespace {
    IdentityNamespace::new(ValueId(10_000), 1_000, KernelTemplateId(10_000), 1_000)
}

fn metrics(examples: u64) -> BinaryClassificationMetricRequest {
    BinaryClassificationMetricRequest {
        probabilities: tensor(1, DType::F32, &[examples]),
        targets: tensor(2, DType::F32, &[examples]),
        per_element_bce: tensor(3, DType::F32, &[examples]),
        mean_bce: tensor(4, DType::F32, &[1]),
        auroc: tensor(5, DType::F32, &[1]),
        auprc: tensor(6, DType::F32, &[1]),
        brier_score: tensor(7, DType::F32, &[1]),
        expected_calibration_error: tensor(8, DType::F32, &[1]),
        recall_at: vec![
            RecallAtOutput { threshold_bits: 0x3f00_0000, output: tensor(9, DType::F32, &[1]) },
            RecallAtOutput { threshold_bits: 0x3f40_0000, output: tensor(10, DType::F32, &[1]) },
        ],
        calibration_bins: 3,
        tree_lanes: 256,
        identity_namespace: namespace(),
        workspace_limit: ByteCount(1 << 20),
    }
}

fn kind<T: std::fmt::Debug>(result: Result<T, recipe_ops::OperationError>) -> OperationErrorKind {
    result.unwrap_err().kind
}

#[test]
fn binary_metric_requests_reserve_the_exact_resources() {
    let request = metrics(10);
    assert_eq!(request.validate_request(), Ok(10));
    assert_eq!(
        reserve_binary_classification_metrics(&request),
        Ok(BinaryMetricRequirements {
            intermediate_values: 24 + 4 + 15,
            kernels: 24 + 6 + 12,
            workspace_bytes: ByteCount(19 * 40 + 20 + 2 * 44 + 3 * 92),
        })
    );
}

#[test]
fn binary_metric_requests_are_checked_in_order() {
    let mut request = metrics(10);
    request.targets = tensor(2, DType::I32, &[10]);
    assert_eq!(kind(request.validate_request()), OperationErrorKind::InvalidMaterializationRequest);
    let mut request = metrics(10);
    request.targets = tensor(2, DType::F32, &[10, 1]);
    assert_eq!(kind(request.validate_request()), OperationErrorKind::UnsupportedConcreteShape);
    let mut request = metrics(10);
    request.per_element_bce = tensor(3, DType::F32, &[9]);
    assert_eq!(kind(request.validate_request()), OperationErrorKind::UnsupportedConcreteShape);
    assert_eq!(kind(metrics(0).validate_request()), OperationErrorKind::UnsupportedConcreteShape);
    let mut request = metrics(10);
    request.tree_lanes = 3;
    assert_eq!(kind(request.validate_request()), OperationErrorKind::InvalidMaterializationRequest);
    let mut request = metrics(10);
    request.auroc = tensor(5, DType::F32, &[2]);
    assert_eq!(kind(request.validate_request()), OperationErrorKind::UnsupportedConcreteShape);
    let mut request = metrics(10);
    request.recall_at[1].threshold_bits = 0x3f00_0000;
    assert_eq!(kind(request.validate_request()), OperationErrorKind::InvalidMaterializationRequest);
    let mut request = metrics(10);
    request.recall_at[0].threshold_bits = 0x4000_0000;
    assert_eq!(kind(request.validate_request()), OperationErrorKind::InvalidMaterializationRequest);
    let mut request = metrics(10);
    request.recall_at[0].output = tensor(9, DType::F32, &[1, 1]);
    assert_eq!(kind(request.validate_request()), OperationErrorKind::UnsupportedConcreteShape);
    let mut request = metrics(10);
    request.recall_at[1].output = tensor(4, DType::F32, &[1]);
    assert_eq!(kind(request.validate_request()), OperationErrorKind::InvalidMaterializationRequest);
    let mut request = metrics(10);
    request.workspace_limit = ByteCount(100);
    assert_eq!(kind(reserve_binary_classification_metrics(&request)), OperationErrorKind::WorkspaceLimitExceeded);
    let mut request = metrics(10);
    request.identity_namespace = IdentityNamespace::new(ValueId(10_000), 42, KernelTemplateId(10_000), 1_000);
    assert_eq!(kind(reserve_binary_classification_metrics(&request)), OperationErrorKind::IdentityNamespaceExhausted);
}

#[test]
fn kmeans_requests_reserve_their_graphs() {
    let initialization = KMeansInitializationRequest {
        points: tensor(1, DType::F32, &[10, 3]),
        centroids: tensor(2, DType::F32, &[4, 3]),
        identity_namespace: namespace(),
        workspace_limit: ByteCount(1 << 20),
    };
    assert_eq!(
        reserve_kmeans_initialization(&initialization),
        Ok(KMeansRequirements { intermediate_values: 1, kernels: 2, workspace_bytes: ByteCount(16) })
    );
    let mut narrow = initialization.clone();
    narrow.centroids = tensor(2, DType::F32, &[4, 2]);
    assert_eq!(kind(reserve_kmeans_initialization(&narrow)), OperationErrorKind::UnsupportedConcreteShape);
    let mut aliased = initialization.clone();
    aliased.centroids = tensor(1, DType::F32, &[4, 3]);
    assert_eq!(kind(reserve_kmeans_initialization(&aliased)), OperationErrorKind::InvalidMaterializationRequest);
    let mut overlapping = initialization.clone();
    overlapping.points = tensor(10_500, DType::F32, &[10, 3]);
    assert_eq!(kind(reserve_kmeans_initialization(&overlapping)), OperationErrorKind::IdentityNamespaceOverlap);
    let mut vector = initialization.clone();
    vector.points = tensor(1, DType::F32, &[30]);
    assert_eq!(kind(reserve_kmeans_initialization(&vector)), OperationErrorKind::InvalidMaterializationRequest);

    let lloyd = KMeansLloydRequest {
        points: tensor(1, DType::F32, &[10, 3]),
        prior_centroids: tensor(2, DType::F32, &[4, 3]),
        updated_centroids: tensor(3, DType::F32, &[4, 3]),
        distances: tensor(4, DType::F32, &[10, 4]),
        tree_lanes: 64,
        identity_namespace: namespace(),
        workspace_limit: ByteCount(1 << 20),
    };
    let elements = 3 * (10 * 3) + 4 * (4 * 3) + 2 * 10 + 3 * 4 + 4 * (10 * 4);
    assert_eq!(
        reserve_kmeans_lloyd_step(&lloyd),
        Ok(KMeansRequirements { intermediate_values: 16, kernels: 18, workspace_bytes: ByteCount(4 * elements) })
    );
    let mut wrong_distances = lloyd.clone();
    wrong_distances.distances = tensor(4, DType::F32, &[4, 10]);
    assert_eq!(kind(reserve_kmeans_lloyd_step(&wrong_distances)), OperationErrorKind::UnsupportedConcreteShape);
    let mut lanes = lloyd.clone();
    lanes.tree_lanes = 0;
    assert_eq!(kind(reserve_kmeans_lloyd_step(&lanes)), OperationErrorKind::InvalidMaterializationRequest);
    let mut aliased = lloyd.clone();
    aliased.distances = tensor(2, DType::F32, &[10, 4]);
    assert_eq!(kind(reserve_kmeans_lloyd_step(&aliased)), OperationErrorKind::InvalidMaterializationRequest);
    let mut repeated_inputs = lloyd.clone();
    repeated_inputs.prior_centroids = tensor(1, DType::F32, &[4, 3]);
    assert_eq!(kind(reserve_kmeans_lloyd_step(&repeated_inputs)), OperationErrorKind::InvalidMaterializationRequest);
    let mut limited = lloyd.clone();
    limited.workspace_limit = ByteCount(4 * elements - 1);
    assert_eq!(kind(reserve_kmeans_lloyd_step(&limited)), OperationErrorKind::WorkspaceLimitExceeded);
}

fn knn() -> KnnAllOutputRequest {
    KnnAllOutputRequest {
        query_features: tensor(1, DType::F32, &[2, 3]),
        reference_features: tensor(2, DType::F32, &[5, 3]),
        outputs: vec![
            KnnOutputRequest::Numeric {
                reference_values: tensor(3, DType::F32, &[5]),
                known: tensor(4, DType::I32, &[5]),
                predictions: tensor(5, DType::F32, &[2, 1]),
                known_references: 3,
            },
            KnnOutputRequest::Categorical {
                reference_codes: tensor(6, DType::I32, &[5]),
                known: tensor(4, DType::I32, &[5]),
                predictions: tensor(7, DType::I32, &[2, 1]),
                known_references: 5,
                classes: 4,
            },
        ],
        neighbors: 4,
        tree_lanes: 128,
        identity_namespace: namespace(),
        workspace_limit: ByteCount(1 << 20),
    }
}

#[test]
fn knn_requests_reserve_their_graphs() {
    let request = knn();
    assert_eq!(request.outputs[1].spec(), KnnOutputSpec::Categorical { known_references: 5, classes: 4 });
    assert_eq!(request.outputs[1].reference_values().id, ValueId(6));
    assert_eq!(request.outputs[0].known().id, ValueId(4));
    assert_eq!(request.outputs[0].predictions().id, ValueId(5));
    let requirements = request.reserve().unwrap();
    assert_eq!(
        requirements.outputs,
        vec![
            KnnOutputRequirement { effective_neighbors: 3, classes: None },
            KnnOutputRequirement { effective_neighbors: 4, classes: Some(4) },
        ]
    );
    assert_eq!(requirements.intermediate_values, 33);
    assert_eq!(requirements.kernels, 32);
    assert_eq!(request.validate_request().unwrap().workspace_bytes, requirements.workspace_bytes);
}

#[test]
fn knn_requests_are_refused_for_bad_boundaries() {
    let mut request = knn();
    request.reference_features = tensor(2, DType::F32, &[5, 2]);
    assert_eq!(kind(request.validate_request()), OperationErrorKind::UnsupportedConcreteShape);
    let mut request = knn();
    request.query_features = tensor(1, DType::I32, &[2, 3]);
    assert_eq!(kind(request.validate_request()), OperationErrorKind::UnsupportedConcreteShape);
    let mut request = knn();
    if let KnnOutputRequest::Numeric { predictions, .. } = &mut request.outputs[0] {
        *predictions = tensor(3, DType::F32, &[2, 1]);
    }
    assert_eq!(kind(request.validate_request()), OperationErrorKind::InvalidMaterializationRequest);
    let mut request = knn();
    if let KnnOutputRequest::Categorical { predictions, .. } = &mut request.outputs[1] {
        *predictions = tensor(5, DType::I32, &[2, 1]);
    }
    assert_eq!(kind(request.validate_request()), OperationErrorKind::InvalidMaterializationRequest);
    let mut request = knn();
    if let KnnOutputRequest::Categorical { reference_codes, .. } = &mut request.outputs[1] {
        *reference_codes = tensor(6, DType::F32, &[5]);
    }
    assert_eq!(kind(request.validate_request()), OperationErrorKind::UnsupportedConcreteShape);
    let mut request = knn();
    request.tree_lanes = 2048;
    assert_eq!(kind(request.validate_request()), OperationErrorKind::InvalidMaterializationRequest);
    let mut request = knn();
    if let KnnOutputRequest::Categorical { known, .. } = &mut request.outputs[1] {
        *known = TensorDecl { storage_bytes: ByteCount(40), ..tensor(4, DType::I32, &[5]) };
    }
    assert_eq!(kind(request.reserve()), OperationErrorKind::InvalidMaterializationRequest);
    let mut request = knn();
    request.query_features = tensor(10_001, DType::F32, &[2, 3]);
    assert_eq!(kind(request.reserve()), OperationErrorKind::IdentityNamespaceOverlap);
    let mut request = knn();
    request.workspace_limit = ByteCount(16);
    assert_eq!(kind(request.reserve()), OperationErrorKind::WorkspaceLimitExceeded);
}
