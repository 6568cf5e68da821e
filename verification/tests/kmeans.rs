use recipe_ops::fragment::CalculationNode;
use recipe_ops::primitive::{AliasPermission, AliasRule, IndexMapSpec, ReduceOperator, ReduceResult};
use recipe_ops::{
    ByteCount, DType, IdentityNamespace, KMeansInitializationRequest, KMeansLloydRequest, KernelTemplateId,
    OperationErrorKind, PrimitiveKind, TensorDecl, ValueId, materialize_kmeans_initialization,
    materialize_kmeans_lloyd_step,
};

fn tensor(id: u64, extents: &[u64]) -> TensorDecl {
    TensorDecl {
        id: ValueId(id),
        dtype: DType::F32,
        extents: extents.to_vec(),
        storage_bytes: ByteCount(extents.iter().product::<u64>() * 4),
        external_input: false,
        external_output: false,
    }
}

fn namespace() -> IdentityNamespace {
    IdentityNamespace::new(ValueId(500), 64, KernelTemplateId(900), 64)
}

fn ids(node: &CalculationNode) -> (Vec<u64>, Vec<u64>) {
    (node.inputs.iter().map(|v| v.0).collect(), node.outputs.iter().map(|v| v.0).collect())
}

fn lloyd(rows: u64, dimensions: u64, clusters: u64) -> KMeansLloydRequest {
    KMeansLloydRequest {
        points: tensor(1, &[rows, dimensions]),
        prior_centroids: tensor(2, &[clusters, dimensions]),
        updated_centroids: tensor(3, &[clusters, dimensions]),
        distances: tensor(4, &[rows, clusters]),
        tree_lanes: 32,
        identity_namespace: namespace(),
        workspace_limit: ByteCount(1 << 20),
    }
}

#[test]
fn initialization_gathers_rows_modulo_the_population() {
    let request = KMeansInitializationRequest {
        points: tensor(1, &[5, 3]),
        centroids: tensor(2, &[7, 3]),
        identity_namespace: namespace(),
        workspace_limit: ByteCount(1024),
    };
    let graph = materialize_kmeans_initialization(&request).unwrap();
    assert_eq!(graph.intermediate_values, vec![ValueId(500)]);
    assert_eq!(graph.kernels, vec![KernelTemplateId(900), KernelTemplateId(901)]);
    assert_eq!(graph.workspace_bytes, ByteCount(28));
    assert_eq!(graph.nodes.len(), 2);
    match &graph.nodes[0].kind {
        PrimitiveKind::IndexMap(spec) => {
            assert_eq!((spec.start, spec.element_step, spec.iteration_step, spec.modulus), (0, 1, 0, Some(5)))
        },
        other => panic!("unexpected kind {other:?}"),
    }
    assert_eq!(ids(&graph.nodes[0]), (vec![], vec![500]));
    match &graph.nodes[1].kind {
        PrimitiveKind::Gather(spec) => assert!(spec.axis == 0 && spec.rejects_out_of_bounds),
        other => panic!("unexpected kind {other:?}"),
    }
    assert_eq!(ids(&graph.nodes[1]), (vec![1, 500], vec![2]));
    assert_eq!(graph.nodes[1].kernel, KernelTemplateId(901));

    let limited = KMeansInitializationRequest { workspace_limit: ByteCount(27), ..request };
    assert_eq!(
        materialize_kmeans_initialization(&limited).unwrap_err().kind,
        OperationErrorKind::WorkspaceLimitExceeded
    );
}

#[test]
fn lloyd_step_emits_the_reserved_graph() {
    let graph = materialize_kmeans_lloyd_step(&lloyd(4, 2, 3)).unwrap();
    assert_eq!(graph.intermediate_values, (500..516).map(ValueId).collect::<Vec<_>>());
    assert_eq!(graph.kernels, (900..918).map(KernelTemplateId).collect::<Vec<_>>());
    assert_eq!(graph.workspace_bytes, ByteCount(4 * (3 * 8 + 4 * 6 + 2 * 4 + 3 * 3 + 4 * 12)));
    assert_eq!(graph.centroid_update_kernel, KernelTemplateId(913));
    assert_eq!(graph.nodes.len(), 18);
    for (index, node) in graph.nodes.iter().enumerate() {
        assert_eq!(node.kernel, KernelTemplateId(900 + index as u64));
    }
    assert_eq!(ids(&graph.nodes[6]), (vec![505], vec![506]));
    match &graph.nodes[6].kind {
        PrimitiveKind::Reduce(spec) => {
            assert_eq!(spec.operator, ReduceOperator::Minimum);
            assert_eq!(spec.result, ReduceResult::Index);
            assert_eq!(spec.axes, vec![1]);
            assert!(spec.keep_dimensions);
            assert_eq!(spec.tree_lanes, 32);
        },
        other => panic!("unexpected kind {other:?}"),
    }
    match &graph.nodes[9].kind {
        PrimitiveKind::IndexMap(IndexMapSpec { start: 0, element_step: 0, iteration_step: 0, modulus: None }) => {},
        other => panic!("unexpected kind {other:?}"),
    }
    assert_eq!(ids(&graph.nodes[13]), (vec![511, 512, 2], vec![3]));
    assert_eq!(
        graph.nodes[13].alias_rules,
        vec![
            AliasRule { input: 0, output: 0, permission: AliasPermission::Forbidden },
            AliasRule { input: 1, output: 0, permission: AliasPermission::Forbidden },
            AliasRule { input: 2, output: 0, permission: AliasPermission::MustAliasExact },
        ]
    );
    assert_eq!(graph.nodes[5].alias_rules.len(), 3);
    assert!(graph.nodes[5].alias_rules.iter().all(|rule| rule.permission == AliasPermission::Forbidden));
    assert_eq!(ids(&graph.nodes[17]), (vec![502, 514, 515], vec![4]));
    match &graph.nodes[16].kind {
        PrimitiveKind::Contraction(spec) => {
            assert!(spec.batch_axes.is_empty());
            assert_eq!(spec.contract_axes, vec![(1, 1)]);
        },
        other => panic!("unexpected kind {other:?}"),
    }
}

#[test]
fn lloyd_step_refuses_what_admission_refuses() {
    let mut request = lloyd(4, 2, 3);
    request.tree_lanes = 3;
    assert_eq!(
        materialize_kmeans_lloyd_step(&request).unwrap_err().kind,
        OperationErrorKind::InvalidMaterializationRequest
    );
    let mut request = lloyd(4, 2, 3);
    request.identity_namespace = IdentityNamespace::new(ValueId(500), 15, KernelTemplateId(900), 64);
    assert_eq!(
        materialize_kmeans_lloyd_step(&request).unwrap_err().kind,
        OperationErrorKind::IdentityNamespaceExhausted
    );
    let mut request = lloyd(4, 2, 3);
    request.workspace_limit = ByteCount(451);
    assert_eq!(
        materialize_kmeans_lloyd_step(&request).unwrap_err().kind,
        OperationErrorKind::WorkspaceLimitExceeded
    );
}

#[test]
fn initialization_declares_its_boundary_and_index_tensor() {
    let request = KMeansInitializationRequest {
        points: tensor(1, &[5, 3]),
        centroids: tensor(2, &[7, 3]),
        identity_namespace: namespace(),
        workspace_limit: ByteCount(1024),
    };
    let graph = materialize_kmeans_initialization(&request).unwrap();
    assert_eq!(graph.boundary_tensors.len(), 2);
    assert_eq!(graph.boundary_tensors[0].id, ValueId(1));
    assert!(graph.boundary_tensors[0].external_input && !graph.boundary_tensors[0].external_output);
    assert_eq!(graph.boundary_tensors[1].id, ValueId(2));
    assert!(!graph.boundary_tensors[1].external_input && graph.boundary_tensors[1].external_output);
    assert_eq!(graph.intermediate_tensors.len(), 1);
    let indices = &graph.intermediate_tensors[0];
    assert_eq!(indices.id, ValueId(500));
    assert_eq!(indices.dtype, DType::I32);
    assert_eq!(indices.extents, vec![7]);
    assert_eq!(indices.storage_bytes, ByteCount(28));
    assert!(!indices.external_input && !indices.external_output);
}

#[test]
fn lloyd_step_declares_its_boundary_and_intermediates() {
    let graph = materialize_kmeans_lloyd_step(&lloyd(5, 3, 2)).unwrap();
    let flags: Vec<(u64, bool, bool)> = graph
        .boundary_tensors
        .iter()
        .map(|tensor| (tensor.id.0, tensor.external_input, tensor.external_output))
        .collect();
    assert_eq!(flags, vec![(1, true, false), (2, true, false), (3, false, true), (4, false, true)]);
    assert_eq!(graph.intermediate_tensors.len(), 16);
    let assignments = &graph.intermediate_tensors[6];
    assert_eq!(assignments.id, ValueId(506));
    assert_eq!(assignments.dtype, DType::I32);
    assert_eq!(assignments.extents, vec![5, 1]);
    assert_eq!(assignments.storage_bytes, ByteCount(20));
    let products = &graph.intermediate_tensors[15];
    assert_eq!((products.dtype, products.extents.clone()), (DType::F32, vec![5, 2]));
    let total: u64 = graph.intermediate_tensors.iter().map(|tensor| tensor.storage_bytes.0).sum();
    assert_eq!(ByteCount(total), graph.workspace_bytes);
}
