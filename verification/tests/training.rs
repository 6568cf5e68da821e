use recipe_ops::fragment::StageEmitter;
use recipe_ops::primitive::{AliasPermission, AliasRule, ReduceOperator};
use recipe_ops::training::{
    FamilyDispatch, dispatch, emit_binary_cross_entropy_with_logits, emit_linear, emit_linear_backward_full,
    emit_linear_backward_weights_only, emit_matvec_bias,
};
use recipe_ops::{
    ByteCount, DType, GraphLedger, IdentityNamespace, KernelTemplateId, LoweringAvailability,
    MaterializationRequest, NamedTensor, OperationDescriptor, OperationErrorKind, OperationId,
    PreparedParameter, PreparedParameters, PrimitiveKind, TensorDecl, ValueId, composition_for_entry,
    expand_composition,
};

fn tensor(id: u64, extents: &[u64], input: bool) -> TensorDecl {
    TensorDecl {
        id: ValueId(id),
        dtype: DType::F32,
        extents: extents.to_vec(),
        storage_bytes: ByteCount(extents.iter().product::<u64>() * 4),
        external_input: input,
        external_output: !input,
    }
}

fn descriptor(symbol: &'static str, source: &'static str) -> OperationDescriptor {
    OperationDescriptor {
        id: OperationId(21),
        symbol,
        source,
        lowering: LoweringAvailability::Composition(composition_for_entry(symbol, source).unwrap()),
    }
}

fn request(
    symbol: &'static str,
    source: &'static str,
    inputs: Vec<(&str, TensorDecl)>,
    outputs: Vec<(&str, TensorDecl)>,
    iteration: &str,
    prepared: &[(&str, PreparedParameter)],
) -> MaterializationRequest {
    let mut parameters = PreparedParameters::new();
    for (name, value) in prepared {
        parameters.insert((*name).to_owned(), *value);
    }
    MaterializationRequest::new(
        descriptor(symbol, source),
        inputs.into_iter().map(|(name, tensor)| NamedTensor::new(name.to_owned(), tensor)).collect(),
        outputs.into_iter().map(|(name, tensor)| NamedTensor::new(name.to_owned(), tensor)).collect(),
        iteration.to_owned(),
        parameters,
        IdentityNamespace::new(ValueId(1_000), 8, KernelTemplateId(2_000), 8),
        ByteCount(1 << 16),
    )
}

fn open_emitter(request: &MaterializationRequest, shape: &[u64]) -> StageEmitter {
    let resolved = expand_composition(&request.descriptor, shape, &request.parameters).unwrap();
    let declared = request.inputs.iter().chain(&request.outputs).map(|named| named.tensor.id).collect::<Vec<_>>();
    let ledger = GraphLedger::new(request.identity_namespace, &declared, request.workspace_limit).unwrap();
    StageEmitter::new(ledger, &resolved)
}

fn linear(symbol: &'static str, source: &'static str) -> MaterializationRequest {
    request(
        symbol,
        source,
        vec![("input", tensor(1, &[4, 3], true)), ("weight", tensor(2, &[3, 5], true)), ("bias", tensor(3, &[5], true))],
        vec![("output", tensor(4, &[4, 5], false))],
        "input",
        &[],
    )
}

#[test]
fn linear_projection_contracts_then_adds_the_bias() {
    let request = linear("gpu_linear_into", "gpu-core/src/kernels.rs:2796");
    request.validate_request().unwrap();
    let mut emitter = open_emitter(&request, &[4, 3]);
    assert_eq!(emit_linear(&request, &mut emitter), Ok(()));
    let (ledger, stages, nodes) = emitter.finish().unwrap();
    assert_eq!(stages.len(), 2);
    assert_eq!(ledger.intermediate_values(), &[ValueId(1_000)]);
    assert_eq!(ledger.workspace_bytes(), ByteCount(80));
    assert_eq!(nodes[0].kernel, KernelTemplateId(2_000));
    assert_eq!(nodes[0].inputs, vec![ValueId(1), ValueId(2)]);
    assert_eq!(nodes[0].outputs, vec![ValueId(1_000)]);
    match &nodes[0].kind {
        PrimitiveKind::Contraction(spec) => {
            assert!(spec.batch_axes.is_empty());
            assert_eq!(spec.contract_axes, vec![(1, 0)]);
        }
        other => panic!("unexpected kind {other:?}"),
    }
    assert_eq!(nodes[1].kernel, KernelTemplateId(2_001));
    assert_eq!(nodes[1].inputs, vec![ValueId(1_000), ValueId(3)]);
    assert_eq!(nodes[1].outputs, vec![ValueId(4)]);
    assert!(matches!(nodes[1].kind, PrimitiveKind::Elementwise));
    assert_eq!(
        nodes[1].alias_rules,
        vec![
            AliasRule { input: 0, output: 0, permission: AliasPermission::Forbidden },
            AliasRule { input: 1, output: 0, permission: AliasPermission::Forbidden },
        ]
    );
}

#[test]
fn linear_projection_rejects_mismatched_boundaries() {
    let mut inner = linear("gpu_linear_into", "gpu-core/src/kernels.rs:2796");
    inner.inputs[1].tensor = tensor(2, &[4, 5], true);
    let mut emitter = open_emitter(&inner, &[4, 3]);
    assert_eq!(emit_linear(&inner, &mut emitter).unwrap_err().kind, OperationErrorKind::InvalidMaterializationRequest);
    let mut output = linear("gpu_linear_into", "gpu-core/src/kernels.rs:2796");
    output.outputs[0].tensor = tensor(4, &[5, 4], false);
    assert_eq!(emit_linear(&output, &mut emitter).unwrap_err().kind, OperationErrorKind::UnsupportedConcreteShape);
    let mut iteration = linear("gpu_linear_into", "gpu-core/src/kernels.rs:2796");
    iteration.iteration_shape_input = "weight".to_owned();
    assert_eq!(emit_linear(&iteration, &mut emitter).unwrap_err().kind, OperationErrorKind::InvalidMaterializationRequest);
    let mut extra = linear("gpu_linear_into", "gpu-core/src/kernels.rs:2796");
    extra.parameters.insert("scale".to_owned(), PreparedParameter::U64(1));
    let error = emit_linear(&extra, &mut emitter).unwrap_err();
    assert_eq!(error.kind, OperationErrorKind::InvalidMaterializationRequest);
    assert_eq!(error.operation, Some(OperationId(21)));
}

#[test]
fn matvec_bias_uses_a_weight_vector() {
    let request = request(
        "gpu_matvec_bias_into",
        "gpu-core/src/kernels.rs:3084",
        vec![("input", tensor(1, &[4, 3], true)), ("weight", tensor(2, &[3], true)), ("bias", tensor(3, &[1], true))],
        vec![("output", tensor(4, &[4], false))],
        "input",
        &[],
    );
    let mut emitter = open_emitter(&request, &[4, 3]);
    assert_eq!(emit_matvec_bias(&request, &mut emitter), Ok(()));
    let (ledger, _, nodes) = emitter.finish().unwrap();
    assert_eq!(ledger.workspace_bytes(), ByteCount(16));
    assert_eq!(nodes.len(), 2);
    assert_eq!(nodes[1].inputs, vec![ValueId(1_000), ValueId(3)]);
}

#[test]
fn linear_backward_emits_three_gradients() {
    let request = request(
        "gpu_linear_backward_full_into",
        "gpu-core/src/kernels.rs:3434",
        vec![
            ("output_gradient", tensor(1, &[4, 5], true)),
            ("input", tensor(2, &[4, 3], true)),
            ("weight", tensor(3, &[3, 5], true)),
        ],
        vec![
            ("input_gradient", tensor(4, &[4, 3], false)),
            ("weight_gradient", tensor(5, &[3, 5], false)),
            ("bias_gradient", tensor(6, &[5], false)),
        ],
        "output_gradient",
        &[("tree_lanes", PreparedParameter::U64(64))],
    );
    let mut emitter = open_emitter(&request, &[4, 5]);
    assert_eq!(emit_linear_backward_full(&request, &mut emitter), Ok(()));
    let (ledger, stages, nodes) = emitter.finish().unwrap();
    assert_eq!(stages.len(), 3);
    assert!(ledger.intermediate_values().is_empty());
    assert_eq!(nodes[0].inputs, vec![ValueId(1), ValueId(3)]);
    assert_eq!(nodes[0].outputs, vec![ValueId(4)]);
    assert_eq!(nodes[1].inputs, vec![ValueId(2), ValueId(1)]);
    assert_eq!(nodes[1].outputs, vec![ValueId(5)]);
    assert_eq!(nodes[2].inputs, vec![ValueId(1)]);
    assert_eq!(nodes[2].outputs, vec![ValueId(6)]);
    match &nodes[2].kind {
        PrimitiveKind::Reduce(spec) => {
            assert_eq!(spec.operator, ReduceOperator::Sum);
            assert_eq!(spec.axes, vec![0]);
            assert!(!spec.keep_dimensions);
            assert_eq!(spec.tree_lanes, 64);
        }
        other => panic!("unexpected kind {other:?}"),
    }
}

#[test]
fn weights_only_backward_checks_rows_and_lanes() {
    let build = |input_rows: u64, lanes: u64| {
        request(
            "gpu_linear_backward_weights_only_into",
            "gpu-core/src/kernels.rs:3400",
            vec![("output_gradient", tensor(1, &[4, 5], true)), ("input", tensor(2, &[input_rows, 3], true))],
            vec![("weight_gradient", tensor(5, &[3, 5], false)), ("bias_gradient", tensor(6, &[5], false))],
            "output_gradient",
            &[("tree_lanes", PreparedParameter::U64(lanes))],
        )
    };
    let good = build(4, 32);
    let mut emitter = open_emitter(&good, &[4, 5]);
    assert_eq!(emit_linear_backward_weights_only(&good, &mut emitter), Ok(()));
    assert_eq!(emitter.finish().unwrap().2.len(), 2);
    let rows = build(3, 32);
    let mut emitter = open_emitter(&good, &[4, 5]);
    assert_eq!(
        emit_linear_backward_weights_only(&rows, &mut emitter).unwrap_err().kind,
        OperationErrorKind::InvalidMaterializationRequest
    );
    let lanes = build(4, 48);
    assert_eq!(
        emit_linear_backward_weights_only(&lanes, &mut emitter).unwrap_err().kind,
        OperationErrorKind::InvalidMaterializationRequest
    );
}

#[test]
fn bce_with_logits_is_one_elementwise_kernel() {
    let request = request(
        "gpu_bce_with_logits",
        "gpu-core/src/losses.rs:145",
        vec![("logits", tensor(1, &[8], true)), ("targets", tensor(2, &[8], true))],
        vec![("losses", tensor(3, &[8], false)), ("gradients", tensor(4, &[8], false))],
        "logits",
        &[],
    );
    let mut emitter = open_emitter(&request, &[8]);
    assert_eq!(emit_binary_cross_entropy_with_logits(&request, &mut emitter), Ok(()));
    let (_, _, nodes) = emitter.finish().unwrap();
    assert_eq!(nodes.len(), 1);
    assert_eq!(nodes[0].inputs, vec![ValueId(1), ValueId(2)]);
    assert_eq!(nodes[0].outputs, vec![ValueId(3), ValueId(4)]);
    assert_eq!(nodes[0].alias_rules.len(), 4);
    let mut wrong = request;
    wrong.outputs[1].tensor = tensor(4, &[4], false);
    let mut emitter = open_emitter(&wrong, &[8]);
    assert_eq!(
        emit_binary_cross_entropy_with_logits(&wrong, &mut emitter).unwrap_err().kind,
        OperationErrorKind::UnsupportedConcreteShape
    );
}

#[test]
fn dispatch_owns_only_training_rows() {
    let request = linear("gpu_linear_f32", "gpu-core/src/nn_f32.rs:200");
    let mut emitter = open_emitter(&request, &[4, 3]);
    assert!(matches!(dispatch(&request, &mut emitter), FamilyDispatch::Owned(Ok(()))));
    let other_source = linear("gpu_linear_f32", "gpu-core/src/elsewhere.rs:1");
    let mut emitter = open_emitter(&other_source, &[4, 3]);
    assert!(matches!(dispatch(&other_source, &mut emitter), FamilyDispatch::NotOwned));
}

#[test]
fn emission_stops_when_the_reservation_runs_out() {
    let mut request = linear("gpu_linear_into", "gpu-core/src/kernels.rs:2796");
    request.workspace_limit = ByteCount(79);
    let mut emitter = open_emitter(&request, &[4, 3]);
    assert_eq!(emit_linear(&request, &mut emitter).unwrap_err().kind, OperationErrorKind::WorkspaceLimitExceeded);
}
