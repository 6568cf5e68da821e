use recipe_ops::fragment::{CalculationNode, StageEmitter};
use recipe_ops::normalization::{
    emit_batch_normalization_backward, emit_batch_normalization_forward, emit_batch_normalization_running_update,
    emit_layer_normalization, emit_layer_normalization_backward, emit_rms_normalization,
    emit_rms_normalization_backward,
};
use recipe_ops::primitive::ReduceSpec;
use recipe_ops::{
    ByteCount, DType, GraphLedger, IdentityNamespace, KernelTemplateId, LoweringAvailability,
    MaterializationRequest, NamedTensor, OperationDescriptor, OperationErrorKind, OperationId, OperationResult,
    PreparedParameter, PreparedParameters, PrimitiveKind, StageEmission, TensorDecl, ValueId,
    composition_for_entry, expand_composition,
};

type Emit = fn(&MaterializationRequest, &mut StageEmitter) -> OperationResult<()>;
type Fragment = (GraphLedger, Vec<StageEmission>, Vec<CalculationNode>);

const SOURCE: &str = "gpu-core/src/normalization.rs:1";

fn tensor(id: u64, extents: &[u64], input: bool) -> TensorDecl {
    TensorDecl {
        id: ValueId(id),
        dtype: DType::F32,
        extents: extents.to_vec(),
        storage_bytes: ByteCount(extents.iter().product::<u64>() * 4),
        external_input: input,
        external_output: !input,
    }
}

fn request(
    symbol: &'static str,
    inputs: Vec<(&str, TensorDecl)>,
    outputs: Vec<(&str, TensorDecl)>,
    prepared: &[(&str, PreparedParameter)],
) -> MaterializationRequest {
    let iteration = inputs.iter().find(|(name, _)| *name == "values").map_or(inputs[0].0, |(name, _)| *name).to_owned();
    let mut parameters = PreparedParameters::new();
    for (name, value) in prepared {
        parameters.insert((*name).to_owned(), *value);
    }
    MaterializationRequest::new(
        OperationDescriptor {
            id: OperationId(44),
            symbol,
            source: SOURCE,
            lowering: LoweringAvailability::Composition(composition_for_entry(symbol, SOURCE).unwrap()),
        },
        inputs.into_iter().map(|(name, tensor)| NamedTensor::new(name.to_owned(), tensor)).collect(),
        outputs.into_iter().map(|(name, tensor)| NamedTensor::new(name.to_owned(), tensor)).collect(),
        iteration,
        parameters,
        IdentityNamespace::new(ValueId(1_000), 16, KernelTemplateId(2_000), 16),
        ByteCount(1 << 16),
    )
}

fn open_emitter(request: &MaterializationRequest) -> StageEmitter {
    let iteration = request.inputs.iter().find(|named| named.name == request.iteration_shape_input).unwrap();
    let resolved = expand_composition(&request.descriptor, &iteration.tensor.extents, &request.parameters).unwrap();
    let declared = request.inputs.iter().chain(&request.outputs).map(|named| named.tensor.id).collect::<Vec<_>>();
    let ledger = GraphLedger::new(request.identity_namespace, &declared, request.workspace_limit).unwrap();
    StageEmitter::new(ledger, &resolved)
}

fn run(emit: Emit, request: &MaterializationRequest) -> OperationResult<Fragment> {
    let mut emitter = open_emitter(request);
    emit(request, &mut emitter)?;
    emitter.finish()
}

fn refusal(emit: Emit, request: &MaterializationRequest, opener: &MaterializationRequest) -> OperationErrorKind {
    let mut emitter = open_emitter(opener);
    emit(request, &mut emitter).unwrap_err().kind
}

fn reductions(nodes: &[CalculationNode]) -> Vec<&ReduceSpec> {
    nodes
        .iter()
        .filter_map(|node| match &node.kind {
            PrimitiveKind::Reduce(spec) => Some(spec),
            _ => None,
        })
        .collect()
}

fn epsilon_lanes(lanes: u64) -> Vec<(&'static str, PreparedParameter)> {
    vec![("epsilon", PreparedParameter::F32Bits(1e-5f32.to_bits())), ("tree_lanes", PreparedParameter::U64(lanes))]
}

fn batch_forward(prepared: &[(&str, PreparedParameter)]) -> MaterializationRequest {
    request(
        "gpu_batchnorm_forward",
        vec![("values", tensor(1, &[4, 3], true)), ("scale", tensor(2, &[3], true)), ("bias", tensor(3, &[3], true))],
        vec![
            ("normalized", tensor(4, &[4, 3], false)),
            ("saved_mean", tensor(5, &[3], false)),
            ("saved_inverse_standard_deviation", tensor(6, &[3], false)),
        ],
        prepared,
    )
}

#[test]
fn batch_normalization_forward_folds_channels_in_fixed_order() {
    let fragment = run(emit_batch_normalization_forward, &batch_forward(&epsilon_lanes(32))).unwrap();
    assert_eq!(fragment.0.workspace_bytes(), ByteCount(48 + 12 + 48 + 12));
    assert_eq!(fragment.0.intermediate_values(), &[ValueId(1_000), ValueId(1_001), ValueId(1_002), ValueId(1_003)]);
    assert_eq!(fragment.1.len(), 4);
    assert_eq!(fragment.1[2].kernels().len(), 2);
    assert_eq!(fragment.1[3].kernels().len(), 2);
    assert_eq!(fragment.2.len(), 6);
    assert_eq!(fragment.2[0].inputs, vec![ValueId(1)]);
    assert_eq!(fragment.2[4].outputs, vec![ValueId(5), ValueId(6)]);
    assert_eq!(fragment.2[5].inputs, vec![ValueId(1), ValueId(2), ValueId(3), ValueId(5), ValueId(6)]);
    assert_eq!(fragment.2[5].outputs, vec![ValueId(4)]);
    let sums = reductions(&fragment.2);
    assert_eq!(sums.len(), 2);
    assert!(sums.iter().all(|sum| sum.axes == vec![0] && !sum.keep_dimensions && sum.tree_lanes == 32));
}

#[test]
fn batch_normalization_forward_refuses_each_fault_with_its_kind() {
    let good = batch_forward(&epsilon_lanes(32));
    let negative = vec![
        ("epsilon", PreparedParameter::F32Bits((-1.0f32).to_bits())),
        ("tree_lanes", PreparedParameter::U64(32)),
    ];
    assert_eq!(
        refusal(emit_batch_normalization_forward, &batch_forward(&negative), &good),
        OperationErrorKind::InvalidMaterializationRequest
    );
    let zero = vec![("epsilon", PreparedParameter::F32Bits(0)), ("tree_lanes", PreparedParameter::U64(32))];
    assert_eq!(
        refusal(emit_batch_normalization_forward, &batch_forward(&zero), &good),
        OperationErrorKind::InvalidMaterializationRequest
    );
    let mut wide_scale = batch_forward(&epsilon_lanes(32));
    wide_scale.inputs[1].tensor = tensor(2, &[4], true);
    assert_eq!(
        refusal(emit_batch_normalization_forward, &wide_scale, &good),
        OperationErrorKind::UnsupportedConcreteShape
    );
    let mut vector = batch_forward(&epsilon_lanes(32));
    vector.inputs[0].tensor = tensor(1, &[12], true);
    assert_eq!(refusal(emit_batch_normalization_forward, &vector, &good), OperationErrorKind::UnsupportedConcreteShape);
    let mut integer = batch_forward(&epsilon_lanes(32));
    integer.inputs[0].tensor.dtype = DType::I32;
    assert_eq!(
        refusal(emit_batch_normalization_forward, &integer, &good),
        OperationErrorKind::InvalidMaterializationRequest
    );
    let mut missing_iteration = batch_forward(&epsilon_lanes(32));
    missing_iteration.iteration_shape_input = "normalized".to_owned();
    assert_eq!(
        refusal(emit_batch_normalization_forward, &missing_iteration, &good),
        OperationErrorKind::InvalidMaterializationRequest
    );
    let mut tight = batch_forward(&epsilon_lanes(32));
    tight.workspace_limit = ByteCount(119);
    assert_eq!(refusal(emit_batch_normalization_forward, &tight, &tight), OperationErrorKind::WorkspaceLimitExceeded);
}

#[test]
fn batch_normalization_backward_sums_gradient_terms_per_channel() {
    let backward = request(
        "gpu_batchnorm_backward",
        vec![
            ("output_gradient", tensor(1, &[4, 3], true)),
            ("values", tensor(2, &[4, 3], true)),
            ("saved_mean", tensor(3, &[3], true)),
            ("saved_inverse_standard_deviation", tensor(4, &[3], true)),
            ("scale", tensor(5, &[3], true)),
        ],
        vec![
            ("input_gradient", tensor(6, &[4, 3], false)),
            ("scale_gradient", tensor(7, &[3], false)),
            ("bias_gradient", tensor(8, &[3], false)),
        ],
        &[("tree_lanes", PreparedParameter::U64(16))],
    );
    let fragment = run(emit_batch_normalization_backward, &backward).unwrap();
    assert_eq!(fragment.0.workspace_bytes(), ByteCount(48 * 4 + 12 * 2));
    assert_eq!(fragment.1.len(), 5);
    assert_eq!(fragment.2[3].outputs, vec![ValueId(6), ValueId(1_004), ValueId(1_005)]);
    assert_eq!(fragment.2[4].outputs, vec![ValueId(7)]);
    assert_eq!(fragment.2[5].outputs, vec![ValueId(8)]);
    assert_eq!(reductions(&fragment.2).len(), 4);
}

#[test]
fn running_statistics_update_is_one_kernel() {
    let update = |momentum: f32, extents: &[u64]| {
        request(
            "gpu_bn_update_running",
            vec![
                ("saved_mean", tensor(1, extents, true)),
                ("saved_variance", tensor(2, extents, true)),
                ("running_mean", tensor(3, extents, true)),
                ("running_variance", tensor(4, extents, true)),
            ],
            vec![("updated_running_mean", tensor(5, extents, false)), ("updated_running_variance", tensor(6, extents, false))],
            &[("momentum", PreparedParameter::F32Bits(momentum.to_bits()))],
        )
    };
    let fragment = run(emit_batch_normalization_running_update, &update(0.9, &[3])).unwrap();
    assert_eq!(fragment.0.workspace_bytes(), ByteCount(0));
    assert_eq!(fragment.2.len(), 1);
    assert_eq!(fragment.2[0].inputs, vec![ValueId(3), ValueId(4), ValueId(1), ValueId(2)]);
    assert_eq!(fragment.2[0].outputs, vec![ValueId(5), ValueId(6)]);
    assert!(run(emit_batch_normalization_running_update, &update(1.0, &[3])).is_ok());
    assert!(run(emit_batch_normalization_running_update, &update(-0.0, &[3])).is_ok());
    let good = update(0.9, &[3]);
    assert_eq!(
        refusal(emit_batch_normalization_running_update, &update(1.5, &[3]), &good),
        OperationErrorKind::InvalidMaterializationRequest
    );
    assert_eq!(
        refusal(emit_batch_normalization_running_update, &update(f32::NAN, &[3]), &good),
        OperationErrorKind::InvalidMaterializationRequest
    );
    assert_eq!(
        refusal(emit_batch_normalization_running_update, &update(0.5, &[3, 1]), &good),
        OperationErrorKind::UnsupportedConcreteShape
    );
    assert_eq!(
        refusal(emit_batch_normalization_running_update, &update(0.5, &[0]), &good),
        OperationErrorKind::UnsupportedConcreteShape
    );
}

fn layer(symbol: &'static str, with_scale: bool, with_bias: bool, prepared: &[(&str, PreparedParameter)]) -> MaterializationRequest {
    let mut inputs = vec![("values", tensor(1, &[2, 5], true))];
    if with_scale {
        inputs.push(("scale", tensor(2, &[5], true)));
    }
    if with_bias {
        inputs.push(("bias", tensor(3, &[5], true)));
    }
    request(symbol, inputs, vec![("normalized", tensor(4, &[2, 5], false))], prepared)
}

#[test]
fn layer_normalization_keeps_the_feature_axis() {
    let fragment = run(emit_layer_normalization, &layer("gpu_layernorm_into", true, true, &epsilon_lanes(64))).unwrap();
    assert_eq!(fragment.0.workspace_bytes(), ByteCount(40 + 8 + 40 + 8));
    assert_eq!(fragment.1.len(), 4);
    assert_eq!(fragment.2[4].inputs, vec![ValueId(1), ValueId(1_001), ValueId(1_003), ValueId(2), ValueId(3)]);
    assert!(reductions(&fragment.2).iter().all(|sum| sum.axes == vec![1] && sum.keep_dimensions));

    let mut optional = epsilon_lanes(64);
    optional.push(("has_scale", PreparedParameter::Bool(false)));
    optional.push(("has_bias", PreparedParameter::Bool(true)));
    let fragment = run(emit_layer_normalization, &layer("gpu_layernorm_opt_into", false, true, &optional)).unwrap();
    assert_eq!(fragment.2[4].inputs, vec![ValueId(1), ValueId(1_001), ValueId(1_003), ValueId(3)]);

    let good = layer("gpu_layernorm_into", true, true, &epsilon_lanes(64));
    assert_eq!(
        refusal(emit_layer_normalization, &layer("gpu_layernorm_opt_into", false, true, &epsilon_lanes(64)), &good),
        OperationErrorKind::MissingPreparedParameter
    );
    assert_eq!(
        refusal(emit_layer_normalization, &layer("gpu_layernorm_opt_into", true, true, &optional), &good),
        OperationErrorKind::InvalidMaterializationRequest
    );
    let mut sideways = layer("gpu_layernorm_into", true, true, &epsilon_lanes(64));
    sideways.iteration_shape_input = "scale".to_owned();
    assert_eq!(refusal(emit_layer_normalization, &sideways, &good), OperationErrorKind::GraphMaterializationFailed);
}

#[test]
fn rms_normalization_folds_squares_twice() {
    let fragment = run(emit_rms_normalization, &layer("gpu_rmsnorm", true, false, &epsilon_lanes(8))).unwrap();
    assert_eq!(fragment.0.workspace_bytes(), ByteCount(40 + 8 + 8));
    assert_eq!(fragment.1.len(), 4);
    assert_eq!(fragment.2[3].inputs, vec![ValueId(1), ValueId(1_002), ValueId(2)]);
    let fragment = run(emit_rms_normalization, &layer("gpu_rmsnorm_f64_nogamma", false, false, &epsilon_lanes(8))).unwrap();
    assert_eq!(fragment.2[3].inputs, vec![ValueId(1), ValueId(1_002)]);
    let good = layer("gpu_rmsnorm", true, false, &epsilon_lanes(8));
    assert_eq!(
        refusal(emit_rms_normalization, &layer("gpu_rmsnorm", false, false, &epsilon_lanes(8)), &good),
        OperationErrorKind::InvalidMaterializationRequest
    );
}

#[test]
fn layer_normalization_backward_allocates_gradient_terms_after_the_statistics() {
    let backward = request(
        "gpu_layernorm_backward_f32",
        vec![
            ("output_gradient", tensor(1, &[2, 5], true)),
            ("values", tensor(2, &[2, 5], true)),
            ("scale", tensor(3, &[5], true)),
        ],
        vec![
            ("input_gradient", tensor(4, &[2, 5], false)),
            ("scale_gradient", tensor(5, &[5], false)),
            ("bias_gradient", tensor(6, &[5], false)),
        ],
        &epsilon_lanes(4),
    );
    let fragment = run(emit_layer_normalization_backward, &backward).unwrap();
    assert_eq!(fragment.0.workspace_bytes(), ByteCount(40 * 6 + 8 * 4));
    assert_eq!(fragment.0.intermediate_values().len(), 10);
    assert_eq!(fragment.1.len(), 5);
    assert_eq!(fragment.1[3].kernels().len(), 4);
    assert_eq!(fragment.2[4].outputs, vec![ValueId(1_004), ValueId(1_005), ValueId(1_006), ValueId(1_007)]);
    assert_eq!(fragment.2[7].outputs, vec![ValueId(4)]);
    assert_eq!(fragment.2[8].outputs, vec![ValueId(5)]);
    assert_eq!(fragment.2[9].outputs, vec![ValueId(6)]);
}

#[test]
fn rms_normalization_backward_allocates_in_three_phases() {
    let backward = request(
        "gpu_rmsnorm_backward",
        vec![
            ("output_gradient", tensor(1, &[2, 5], true)),
            ("values", tensor(2, &[2, 5], true)),
            ("scale", tensor(3, &[5], true)),
        ],
        vec![("input_gradient", tensor(4, &[2, 5], false)), ("scale_gradient", tensor(5, &[5], false))],
        &epsilon_lanes(4),
    );
    let fragment = run(emit_rms_normalization_backward, &backward).unwrap();
    assert_eq!(fragment.0.workspace_bytes(), ByteCount(40 * 3 + 8 * 2));
    assert_eq!(fragment.1.len(), 5);
    assert_eq!(fragment.2[4].outputs, vec![ValueId(4), ValueId(1_004)]);
    assert_eq!(fragment.2[5].outputs, vec![ValueId(5)]);
    let mut tight = request(
        "gpu_rmsnorm_backward",
        vec![
            ("output_gradient", tensor(1, &[2, 5], true)),
            ("values", tensor(2, &[2, 5], true)),
            ("scale", tensor(3, &[5], true)),
        ],
        vec![("input_gradient", tensor(4, &[2, 5], false)), ("scale_gradient", tensor(5, &[5], false))],
        &epsilon_lanes(4),
    );
    tight.workspace_limit = ByteCount(40 * 3 + 8 * 2 - 1);
    assert_eq!(refusal(emit_rms_normalization_backward, &tight, &tight), OperationErrorKind::WorkspaceLimitExceeded);
}
