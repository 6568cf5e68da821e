use recipe_ops::{
    PrimitiveKind,
    ByteCount, DType, IdentityNamespace, KernelTemplateId, LoweringAvailability, MaterializationRequest, NamedTensor,
    OperationDescriptor, OperationErrorKind, OperationId, PreparedParameter, PreparedParameters, TensorDecl, ValueId,
    composition_for_entry, materialize_composition,
};

fn tensor(id: u64, extents: &[u64], input: bool) -> TensorDecl {
    TensorDecl {
        id: ValueId(id),
        dtype: DType::F32,
        extents: extents.to_vec(),
        storage_bytes: ByteCount(extents.iter().product::<u64>() * 4),
        external_input: input,
        external_output: !input,
    }
}

fn descriptor(symbol: &'static str, source: &'static str) -> OperationDescriptor {
    OperationDescriptor {
        id: OperationId(7),
        symbol,
        source,
        lowering: LoweringAvailability::Composition(composition_for_entry(symbol, source).unwrap()),
    }
}

fn accuracy_request(descriptor: OperationDescriptor, iteration: &str, workspace: u64) -> MaterializationRequest {
    let mut parameters = PreparedParameters::new();
    parameters.insert("tree_lanes".to_owned(), PreparedParameter::U64(64));
    MaterializationRequest::new(
        descriptor,
        vec![
            NamedTensor::new("predictions".to_owned(), tensor(1, &[6], true)),
            NamedTensor::new("targets".to_owned(), tensor(2, &[6], true)),
        ],
        vec![NamedTensor::new("accuracy".to_owned(), tensor(3, &[1], false))],
        iteration.to_owned(),
        parameters,
        IdentityNamespace::new(ValueId(1_000), 8, KernelTemplateId(2_000), 8),
        ByteCount(workspace),
    )
}

fn accuracy() -> OperationDescriptor {
    descriptor("gpu_accuracy_into", "gpu-core/src/kernels.rs:2914")
}

#[test]
fn materializes_an_owned_row_with_an_exact_workspace() {
    let materialized = materialize_composition(&accuracy_request(accuracy(), "predictions", 28)).unwrap();
    assert_eq!(materialized.operation, OperationId(7));
    assert_eq!(materialized.stages.len(), materialized.resolved.steps.len());
    assert_eq!(materialized.stages.len(), 3);
    for (index, stage) in materialized.stages.iter().enumerate() {
        assert_eq!(stage.step, index);
        assert!(!stage.kernels.is_empty());
    }
    assert_eq!(materialized.nodes.len(), 3);
    assert_eq!(materialized.workspace.bytes, ByteCount(28));
    let values: Vec<ValueId> = materialized.workspace.objects.iter().map(|object| object.value).collect();
    assert_eq!(values, vec![ValueId(1_000), ValueId(1_001)]);
    let total: u64 = materialized.workspace.objects.iter().map(|object| object.bytes.0).sum();
    assert_eq!(total, 28);
    assert_eq!(materialized.identity_namespace.first_value, ValueId(1_000));
    let boundary: Vec<u64> = materialized.boundary_tensors().iter().map(|tensor| tensor.id.0).collect();
    assert_eq!(boundary, vec![1, 2, 3]);
}

#[test]
fn refuses_a_workspace_below_the_exact_need() {
    let error = materialize_composition(&accuracy_request(accuracy(), "predictions", 27)).unwrap_err();
    assert_eq!(error.kind, OperationErrorKind::WorkspaceLimitExceeded);
}

#[test]
fn unmaterialized_recipes_fail_closed() {
    let oob = descriptor("gpu_oob_mask", "gpu-core/src/forest.rs:174");
    let error = materialize_composition(&accuracy_request(oob, "predictions", 28)).unwrap_err();
    assert_eq!(error.kind, OperationErrorKind::MissingConcreteFormula);
    assert_eq!(error.operation, Some(OperationId(7)));
    let mut moved = accuracy();
    moved.source = "gpu-core/src/kernels.rs:246";
    let error = materialize_composition(&accuracy_request(moved, "predictions", 28)).unwrap_err();
    assert_eq!(error.kind, OperationErrorKind::MissingConcreteFormula);
}

#[test]
fn owned_rows_without_a_dispatcher_are_refused() {
    let split = descriptor("gpu_tb_histogram", "gpu-core/src/kernels.rs:3737");
    let error = materialize_composition(&accuracy_request(split, "predictions", 28)).unwrap_err();
    assert_ne!(error.kind, OperationErrorKind::MissingConcreteFormula);
}

#[test]
fn refuses_invalid_requests_before_dispatch() {
    let error = materialize_composition(&accuracy_request(accuracy(), "absent", 28)).unwrap_err();
    assert_eq!(error.kind, OperationErrorKind::InvalidMaterializationRequest);
    let mut scalar = accuracy();
    scalar.lowering = LoweringAvailability::Scalar;
    let error = materialize_composition(&accuracy_request(scalar, "predictions", 28)).unwrap_err();
    assert_eq!(error.kind, OperationErrorKind::WrongLoweringKind);
}

fn typed(id: u64, dtype: DType, extents: &[u64], input: bool) -> TensorDecl {
    TensorDecl { dtype, ..tensor(id, extents, input) }
}

fn split_request(rows: u64, features: u64, namespace: IdentityNamespace, limit: u64) -> MaterializationRequest {
    let mut parameters = PreparedParameters::new();
    parameters.insert("destination_indices_unique".to_owned(), PreparedParameter::Bool(true));
    MaterializationRequest::new(
        descriptor("gpu_leaf_split_apply", "gpu-core/src/kernels.rs:7173"),
        vec![
            NamedTensor::new("features".to_owned(), typed(1, DType::F32, &[features], true)),
            NamedTensor::new("feature_indices".to_owned(), typed(2, DType::I32, &[rows], true)),
            NamedTensor::new("thresholds".to_owned(), typed(3, DType::F32, &[rows], true)),
            NamedTensor::new("assignments".to_owned(), typed(4, DType::I32, &[rows], true)),
            NamedTensor::new("destination_indices".to_owned(), typed(5, DType::I32, &[rows], true)),
        ],
        vec![NamedTensor::new("updated_assignments".to_owned(), typed(6, DType::I32, &[rows], false))],
        "features".to_owned(),
        parameters,
        namespace,
        ByteCount(limit),
    )
}

#[test]
fn materializes_a_checked_tree_ml_routing_step() {
    let namespace = IdentityNamespace::new(ValueId(10_000), 10_000, KernelTemplateId(10_000), 10_000);
    let materialized = materialize_composition(&split_request(4, 12, namespace, 32)).unwrap();
    let families: Vec<&str> = materialized
        .nodes()
        .iter()
        .map(|node| match &node.kind {
            PrimitiveKind::Gather(_) => "gather",
            PrimitiveKind::Elementwise => "elementwise",
            PrimitiveKind::Scatter(_) => "scatter",
            _ => "other",
        })
        .collect();
    assert_eq!(families, ["gather", "elementwise", "scatter"]);
    assert_eq!(materialized.workspace().bytes().0, 32);
}

#[test]
fn preserves_the_existing_exact_leaf_split_route() {
    let namespace = IdentityNamespace::new(ValueId(140_000), 100, KernelTemplateId(140_000), 100);
    let result = materialize_composition(&split_request(3, 6, namespace, 1 << 20)).unwrap();
    assert_eq!(result.nodes().len(), 3);
}
