use recipe_ops::fragment::CalculationNode;
use recipe_ops::primitive::{AliasPermission, SortDirection};
use recipe_ops::{
    ByteCount, CalculationGraph, DType, IdentityNamespace, KernelTemplateId, KnnAllOutputRequest, KnnOutputRequest,
    KnnOutputRequirement, OperationErrorKind, PrimitiveKind, TensorDecl, ValueId, append_knn_all_outputs,
    materialize_knn_all_outputs,
};

fn tensor(id: u64, dtype: DType, extents: &[u64]) -> TensorDecl {
    TensorDecl {
        id: ValueId(id),
        dtype,
        extents: extents.to_vec(),
        storage_bytes: ByteCount(extents.iter().product::<u64>() * 4),
        external_input: false,
        external_output: false,
    }
}

fn request() -> KnnAllOutputRequest {
    KnnAllOutputRequest {
        query_features: tensor(1, DType::F32, &[2, 3]),
        reference_features: tensor(2, DType::F32, &[5, 3]),
        outputs: vec![
            KnnOutputRequest::Numeric {
                reference_values: tensor(3, DType::F32, &[5]),
                known: tensor(4, DType::I32, &[5]),
                predictions: tensor(5, DType::F32, &[2, 1]),
                known_references: 4,
            },
            KnnOutputRequest::Categorical {
                reference_codes: tensor(6, DType::I32, &[5]),
                known: tensor(4, DType::I32, &[5]),
                predictions: tensor(7, DType::I32, &[2, 1]),
                known_references: 5,
                classes: 3,
            },
        ],
        neighbors: 3,
        tree_lanes: 128,
        identity_namespace: IdentityNamespace::new(ValueId(100), 40, KernelTemplateId(300), 40),
        workspace_limit: ByteCount(1 << 20),
    }
}

fn ids(node: &CalculationNode) -> (Vec<u64>, Vec<u64>) {
    (node.inputs.iter().map(|v| v.0).collect(), node.outputs.iter().map(|v| v.0).collect())
}

#[test]
fn knn_graph_covers_every_declared_output() {
    let graph = materialize_knn_all_outputs(&request()).unwrap();
    assert_eq!(graph.intermediate_values, (100..133).map(ValueId).collect::<Vec<_>>());
    assert_eq!(graph.kernels, (300..332).map(KernelTemplateId).collect::<Vec<_>>());
    assert_eq!(graph.workspace_bytes, ByteCount(4 * (48 + 54 + 91)));
    assert_eq!(
        graph.output_requirements,
        vec![
            KnnOutputRequirement { effective_neighbors: 3, classes: None },
            KnnOutputRequirement { effective_neighbors: 3, classes: Some(3) },
        ]
    );
    assert_eq!(graph.nodes.len(), 32);
    for (index, node) in graph.nodes.iter().enumerate() {
        assert_eq!(node.kernel, KernelTemplateId(300 + index as u64));
        assert!(node.alias_rules.iter().all(|rule| rule.permission == AliasPermission::Forbidden));
    }
    assert_eq!(ids(&graph.nodes[5]), (vec![102, 103, 104], vec![105]));
    // The numeric output: masked distances, ascending sort, mean.
    assert_eq!(ids(&graph.nodes[9]), (vec![105, 4], vec![109]));
    match &graph.nodes[10].kind {
        PrimitiveKind::Sort(spec) => assert!(spec.direction == SortDirection::Ascending && spec.axis == 1),
        other => panic!("unexpected kind {other:?}"),
    }
    assert_eq!(ids(&graph.nodes[15]), (vec![115], vec![5]));
    // The categorical output starts at the seventeenth intermediate.
    assert_eq!(ids(&graph.nodes[16]), (vec![6], vec![116]));
    match &graph.nodes[24].kind {
        PrimitiveKind::IndexMap(spec) => assert_eq!(spec.element_step, 3),
        other => panic!("unexpected kind {other:?}"),
    }
    match &graph.nodes[26].kind {
        PrimitiveKind::Histogram(spec) => assert!(spec.bins == 6 && !spec.weighted),
        other => panic!("unexpected kind {other:?}"),
    }
    match &graph.nodes[29].kind {
        PrimitiveKind::Sort(spec) => assert!(spec.direction == SortDirection::Descending),
        other => panic!("unexpected kind {other:?}"),
    }
    assert_eq!(ids(&graph.nodes[31]), (vec![131, 132], vec![7]));
}

#[test]
fn knn_graph_refuses_a_short_namespace() {
    let mut narrow = request();
    narrow.identity_namespace = IdentityNamespace::new(ValueId(100), 32, KernelTemplateId(300), 40);
    assert_eq!(materialize_knn_all_outputs(&narrow).unwrap_err().kind, OperationErrorKind::IdentityNamespaceExhausted);
    let mut overlapping = request();
    overlapping.query_features = tensor(120, DType::F32, &[2, 3]);
    assert_eq!(materialize_knn_all_outputs(&overlapping).unwrap_err().kind, OperationErrorKind::IdentityNamespaceOverlap);
}

#[test]
fn appended_knn_graph_joins_the_caller_graph() {
    let request = request();
    let mut tensors = vec![request.query_features.clone(), request.reference_features.clone()];
    for output in &request.outputs {
        tensors.push(output.reference_values().clone());
        tensors.push(output.known().clone());
    }
    tensors.dedup_by_key(|tensor| tensor.id);
    tensors.retain(|tensor| tensor.id != ValueId(4));
    tensors.push(tensor(4, DType::I32, &[5]));
    for output in &request.outputs {
        tensors.push(output.predictions().clone());
    }
    let mut graph = CalculationGraph { tensors, nodes: Vec::new() };
    let declared = graph.tensors.len();
    let fragment = append_knn_all_outputs(&mut graph, &request).unwrap();
    assert_eq!(graph.tensors.len(), declared + 33);
    assert_eq!(graph.nodes.len(), 32);
    assert_eq!(fragment.intermediate_tensors[0].extents, vec![2, 3]);
    assert_eq!(fragment.intermediate_tensors[16].dtype, DType::I32);
    assert_eq!(fragment.intermediate_tensors[16 + 11].extents, vec![6]);
    assert_eq!(fragment.intermediate_tensors[16 + 11].storage_bytes, ByteCount(24));

    let mut missing = CalculationGraph { tensors: vec![request.query_features.clone()], nodes: Vec::new() };
    assert_eq!(
        append_knn_all_outputs(&mut missing, &request).unwrap_err().kind,
        OperationErrorKind::InvalidMaterializationRequest
    );
}
