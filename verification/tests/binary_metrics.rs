use recipe_ops::fragment::CalculationNode;
use recipe_ops::primitive::{AliasPermission, ReduceOperator, ScanMode, SortDirection};
use recipe_ops::{
    BinaryClassificationMetricRequest, ByteCount, CalculationGraph, DType, IdentityNamespace, KernelTemplateId,
    OperationErrorKind, PrimitiveKind, RecallAtOutput, TensorDecl, ValueId, append_binary_classification_metrics,
    materialize_binary_classification_metrics,
};

fn tensor(id: u64, extents: &[u64]) -> TensorDecl {
    TensorDecl {
        id: ValueId(id),
        dtype: DType::F32,
        extents: extents.to_vec(),
        storage_bytes: ByteCount(extents.iter().product::<u64>() * 4),
        external_input: false,
        external_output: false,
    }
}

fn request(examples: u64) -> BinaryClassificationMetricRequest {
    BinaryClassificationMetricRequest {
        probabilities: tensor(1, &[examples]),
        targets: tensor(2, &[examples]),
        per_element_bce: tensor(3, &[examples]),
        mean_bce: tensor(4, &[1]),
        auroc: tensor(5, &[1]),
        auprc: tensor(6, &[1]),
        brier_score: tensor(7, &[1]),
        expected_calibration_error: tensor(8, &[1]),
        recall_at: vec![
            RecallAtOutput { threshold_bits: 0x3f00_0000, output: tensor(9, &[1]) },
            RecallAtOutput { threshold_bits: 0x3f40_0000, output: tensor(10, &[1]) },
        ],
        calibration_bins: 3,
        tree_lanes: 256,
        identity_namespace: IdentityNamespace::new(ValueId(1_000), 100, KernelTemplateId(2_000), 100),
        workspace_limit: ByteCount(1 << 20),
    }
}

fn ids(node: &CalculationNode) -> (Vec<u64>, Vec<u64>) {
    (node.inputs.iter().map(|v| v.0).collect(), node.outputs.iter().map(|v| v.0).collect())
}

#[test]
fn metric_graph_matches_its_reservation() {
    let graph = materialize_binary_classification_metrics(&request(4)).unwrap();
    assert_eq!(graph.intermediate_values, (1_000..1_043).map(ValueId).collect::<Vec<_>>());
    assert_eq!(graph.kernels, (2_000..2_042).map(KernelTemplateId).collect::<Vec<_>>());
    assert_eq!(graph.workspace_bytes, ByteCount(19 * 16 + 20 + 2 * (16 + 4) + 3 * (32 + 12)));
    assert_eq!(graph.nodes.len(), 42);
    for (index, node) in graph.nodes.iter().enumerate() {
        assert_eq!(node.kernel, KernelTemplateId(2_000 + index as u64));
        assert_eq!(node.alias_rules.len(), node.inputs.len() * node.outputs.len());
        assert!(node.alias_rules.iter().all(|rule| rule.permission == AliasPermission::Forbidden));
    }
    assert_eq!(ids(&graph.nodes[0]), (vec![1, 2, 3], vec![1_000, 1_001, 1_002]));
    assert_eq!(ids(&graph.nodes[7]), (vec![1_000], vec![1_007, 1_008]));
    match &graph.nodes[7].kind {
        PrimitiveKind::Sort(spec) => {
            assert_eq!(spec.direction, SortDirection::Descending);
            assert!(spec.stable && spec.emit_indices);
        },
        other => panic!("unexpected kind {other:?}"),
    }
    match &graph.nodes[16].kind {
        PrimitiveKind::Histogram(spec) => assert!(spec.bins == 4 && spec.weighted),
        other => panic!("unexpected kind {other:?}"),
    }
    match &graph.nodes[13].kind {
        PrimitiveKind::Scan(spec) => {
            assert_eq!(spec.operator, ReduceOperator::Sum);
            assert_eq!(spec.mode, ScanMode::Inclusive);
            assert_eq!(spec.tree_lanes, 256);
        },
        other => panic!("unexpected kind {other:?}"),
    }
    assert_eq!(ids(&graph.nodes[22]), (vec![1_006, 1_022, 1_023], vec![5, 6]));
    // The first recall threshold, then the second.
    assert_eq!(ids(&graph.nodes[23]), (vec![1_000, 1_001], vec![1_024]));
    assert_eq!(ids(&graph.nodes[25]), (vec![1_025, 1_006], vec![9]));
    assert_eq!(ids(&graph.nodes[28]), (vec![1_027, 1_006], vec![10]));
    // The first calibration bin.
    assert_eq!(ids(&graph.nodes[29]), (vec![1_000, 1_001], vec![1_028, 1_029]));
    assert_eq!(ids(&graph.nodes[32]), (vec![1_030, 1_031], vec![1_032]));
    // The expected calibration error sums every bin's contribution.
    assert_eq!(ids(&graph.nodes[41]), (vec![1_032, 1_037, 1_042], vec![8]));
}

#[test]
fn metric_graph_refuses_an_overlapping_boundary() {
    let mut overlapping = request(4);
    overlapping.auroc = tensor(1_050, &[1]);
    assert_eq!(
        materialize_binary_classification_metrics(&overlapping).unwrap_err().kind,
        OperationErrorKind::IdentityNamespaceOverlap
    );
    let mut wrapping = request(4);
    wrapping.identity_namespace = IdentityNamespace::new(ValueId(u64::MAX - 10), 100, KernelTemplateId(2_000), 100);
    assert_eq!(
        materialize_binary_classification_metrics(&wrapping).unwrap_err().kind,
        OperationErrorKind::IdentityNamespaceExhausted
    );
    let mut narrow = request(4);
    narrow.identity_namespace = IdentityNamespace::new(ValueId(1_000), 42, KernelTemplateId(2_000), 100);
    assert_eq!(
        materialize_binary_classification_metrics(&narrow).unwrap_err().kind,
        OperationErrorKind::IdentityNamespaceExhausted
    );
}

fn caller_graph(request: &BinaryClassificationMetricRequest) -> CalculationGraph {
    let mut tensors = vec![
        request.probabilities.clone(),
        request.targets.clone(),
        request.per_element_bce.clone(),
        request.mean_bce.clone(),
        request.auroc.clone(),
        request.auprc.clone(),
        request.brier_score.clone(),
        request.expected_calibration_error.clone(),
    ];
    tensors.extend(request.recall_at.iter().map(|recall| recall.output.clone()));
    CalculationGraph { tensors, nodes: Vec::new() }
}

#[test]
fn appended_metrics_join_the_caller_graph() {
    let request = request(4);
    let mut graph = caller_graph(&request);
    let fragment = append_binary_classification_metrics(&mut graph, &request).unwrap();
    assert_eq!(graph.tensors.len(), 10 + 43);
    assert_eq!(graph.nodes.len(), 42);
    assert_eq!(graph.tensors[10].id, ValueId(1_000));
    assert_eq!(graph.tensors[10 + 8].dtype, DType::I32);
    assert_eq!(graph.tensors[10 + 3].extents, vec![1]);
    assert_eq!(graph.tensors[10].extents, vec![4]);
    assert_eq!(graph.tensors[10].storage_bytes, ByteCount(16));
    assert_eq!(fragment.intermediate_tensors.len(), 43);
    assert_eq!(ids(&graph.nodes[41]), ids(&fragment.nodes[41]));

    // Appending the same fragment again collides with its own intermediates.
    let before = graph.tensors.len();
    assert_eq!(
        append_binary_classification_metrics(&mut graph, &request).unwrap_err().kind,
        OperationErrorKind::IdentityNamespaceOverlap
    );
    assert_eq!(graph.tensors.len(), before);
}

#[test]
fn appended_metrics_need_declared_boundaries() {
    let request = request(4);
    let mut graph = caller_graph(&request);
    graph.tensors.pop();
    assert_eq!(
        append_binary_classification_metrics(&mut graph, &request).unwrap_err().kind,
        OperationErrorKind::InvalidMaterializationRequest
    );
    let mut repeated = caller_graph(&request);
    repeated.tensors.push(request.targets.clone());
    assert_eq!(
        append_binary_classification_metrics(&mut repeated, &request).unwrap_err().kind,
        OperationErrorKind::GraphMaterializationFailed
    );
    let mut producing = caller_graph(&request);
    let mut existing = materialize_binary_classification_metrics(&request).unwrap().nodes;
    let mut writer = existing.remove(2);
    writer.kernel = KernelTemplateId(9_999);
    producing.nodes.push(writer);
    assert_eq!(
        append_binary_classification_metrics(&mut producing, &request).unwrap_err().kind,
        OperationErrorKind::GraphMaterializationFailed
    );
}

#[test]
fn metric_graph_carries_its_boundary_declarations() {
    let mut metrics = request(4);
    metrics.mean_bce.external_input = true;
    let graph = materialize_binary_classification_metrics(&metrics).unwrap();
    let ids: Vec<u64> = graph.boundary_tensors.iter().map(|tensor| tensor.id.0).collect();
    assert_eq!(ids, (1..=10).collect::<Vec<_>>());
    for (index, tensor) in graph.boundary_tensors.iter().enumerate() {
        assert_eq!(tensor.external_input, index < 3);
        assert_eq!(tensor.external_output, index >= 3);
    }
    assert_eq!(graph.boundary_tensors[0].extents, vec![4]);
}
