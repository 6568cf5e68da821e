use recipe_ops::fragment::{CalculationNode, StageEmitter};
use recipe_ops::optimizer::{
    emit_adagrad_update, emit_adam_update, emit_gradient_clip_norm, emit_lamb_phase_one, emit_lamb_phase_two,
    emit_lion_update, emit_momentum_update, emit_nadam_update, emit_rmsprop_update,
};
use recipe_ops::primitive::ReduceSpec;
use recipe_ops::{
    ByteCount, DType, GraphLedger, IdentityNamespace, KernelTemplateId, LoweringAvailability,
    MaterializationRequest, NamedTensor, OperationDescriptor, OperationErrorKind, OperationId, OperationResult,
    PreparedParameter, PreparedParameters, PrimitiveKind, StageEmission, TensorDecl, ValueId,
    composition_for_entry, expand_composition,
};

type Fragment = (GraphLedger, Vec<StageEmission>, Vec<CalculationNode>);

const SOURCE: &str = "gpu-core/src/optimizers.rs:1";

fn tensor(id: u64, extents: &[u64], input: bool) -> TensorDecl {
    TensorDecl {
        id: ValueId(id),
        dtype: DType::F32,
        extents: extents.to_vec(),
        storage_bytes: ByteCount(extents.iter().product::<u64>() * 4),
        external_input: input,
        external_output: !input,
    }
}

fn f32_parameter(name: &'static str, value: f32) -> (&'static str, PreparedParameter) {
    (name, PreparedParameter::F32Bits(value.to_bits()))
}

fn request(
    symbol: &'static str,
    inputs: &[(&str, u64, &[u64])],
    outputs: &[(&str, u64, &[u64])],
    prepared: &[(&'static str, PreparedParameter)],
) -> MaterializationRequest {
    let mut parameters = PreparedParameters::new();
    for (name, value) in prepared {
        parameters.insert((*name).to_owned(), *value);
    }
    MaterializationRequest::new(
        OperationDescriptor {
            id: OperationId(55),
            symbol,
            source: SOURCE,
            lowering: LoweringAvailability::Composition(composition_for_entry(symbol, SOURCE).unwrap()),
        },
        inputs.iter().map(|(name, id, extents)| NamedTensor::new((*name).to_owned(), tensor(*id, extents, true))).collect(),
        outputs.iter().map(|(name, id, extents)| NamedTensor::new((*name).to_owned(), tensor(*id, extents, false))).collect(),
        inputs.iter().find(|(name, _, _)| *name == "weight" || *name == "values").map_or(inputs[0].0, |(name, _, _)| *name).to_owned(),
        parameters,
        IdentityNamespace::new(ValueId(1_000), 8, KernelTemplateId(2_000), 8),
        ByteCount(1 << 16),
    )
}

fn open_emitter(request: &MaterializationRequest) -> StageEmitter {
    let iteration = request.inputs.iter().find(|named| named.name == request.iteration_shape_input).unwrap();
    let resolved = expand_composition(&request.descriptor, &iteration.tensor.extents, &request.parameters).unwrap();
    let declared = request.inputs.iter().chain(&request.outputs).map(|named| named.tensor.id).collect::<Vec<_>>();
    let ledger = GraphLedger::new(request.identity_namespace, &declared, request.workspace_limit).unwrap();
    StageEmitter::new(ledger, &resolved)
}

fn run(
    emit: impl Fn(&MaterializationRequest, &mut StageEmitter) -> OperationResult<()>,
    request: &MaterializationRequest,
) -> OperationResult<Fragment> {
    let mut emitter = open_emitter(request);
    emit(request, &mut emitter)?;
    emitter.finish()
}

fn reductions(nodes: &[CalculationNode]) -> Vec<&ReduceSpec> {
    nodes
        .iter()
        .filter_map(|node| match &node.kind {
            PrimitiveKind::Reduce(spec) => Some(spec),
            _ => None,
        })
        .collect()
}

#[test]
fn momentum_update_chains_velocity_then_parameters() {
    let momentum = |momentum: f32, rate: f32| {
        request(
            "gpu_momentum_update",
            &[("parameters", 1, &[6]), ("velocity", 2, &[6]), ("gradient", 3, &[6])],
            &[("updated_velocity", 4, &[6]), ("updated_parameters", 5, &[6])],
            &[f32_parameter("momentum", momentum), f32_parameter("learning_rate", rate)],
        )
    };
    let fragment = run(emit_momentum_update, &momentum(0.9, 0.01)).unwrap();
    assert_eq!(fragment.0.workspace_bytes(), ByteCount(0));
    assert_eq!(fragment.2[0].inputs, vec![ValueId(2), ValueId(3)]);
    assert_eq!(fragment.2[0].outputs, vec![ValueId(4)]);
    assert_eq!(fragment.2[1].inputs, vec![ValueId(1), ValueId(4)]);
    assert_eq!(fragment.2[1].outputs, vec![ValueId(5)]);
    assert!(run(emit_momentum_update, &momentum(-3.0, -0.0)).is_ok());
    for (momentum_value, rate) in [(f32::INFINITY, 0.1), (0.9, -0.1), (0.9, f32::NAN)] {
        assert_eq!(
            run(emit_momentum_update, &momentum(momentum_value, rate)).unwrap_err().kind,
            OperationErrorKind::InvalidMaterializationRequest
        );
    }
}

#[test]
fn adaptive_updates_check_rates_in_order() {
    let adagrad = |rate: f32, epsilon: f32| {
        request(
            "gpu_adagrad_update",
            &[("gradient", 1, &[2, 3]), ("weight", 2, &[2, 3]), ("accumulator", 3, &[2, 3])],
            &[("updated_accumulator", 4, &[2, 3]), ("updated_weight", 5, &[2, 3])],
            &[f32_parameter("learning_rate", rate), f32_parameter("epsilon", epsilon)],
        )
    };
    let fragment = run(emit_adagrad_update, &adagrad(0.1, 1e-8)).unwrap();
    assert_eq!(fragment.2[1].inputs, vec![ValueId(2), ValueId(1), ValueId(4)]);
    assert_eq!(
        run(emit_adagrad_update, &adagrad(0.1, 0.0)).unwrap_err().kind,
        OperationErrorKind::InvalidMaterializationRequest
    );
    let rmsprop = |decay: f32| {
        request(
            "gpu_rmsprop_update",
            &[("gradient", 1, &[4]), ("weight", 2, &[4]), ("cache", 3, &[4])],
            &[("updated_cache", 4, &[4]), ("updated_weight", 5, &[4])],
            &[f32_parameter("learning_rate", 0.01), f32_parameter("decay", decay), f32_parameter("epsilon", 1e-8)],
        )
    };
    assert!(run(emit_rmsprop_update, &rmsprop(1.0)).is_ok());
    assert_eq!(
        run(emit_rmsprop_update, &rmsprop(1.0000001)).unwrap_err().kind,
        OperationErrorKind::InvalidMaterializationRequest
    );
}

fn adam(symbol: &'static str, step: u64, beta_one: f32, decay: bool) -> MaterializationRequest {
    let mut prepared = vec![
        f32_parameter("learning_rate", 0.001),
        f32_parameter("beta_one", beta_one),
        f32_parameter("beta_two", 0.999),
        f32_parameter("epsilon", 1e-8),
        ("step", PreparedParameter::U64(step)),
    ];
    if decay {
        prepared.push(f32_parameter("weight_decay", 0.01));
    }
    request(
        symbol,
        &[("gradient", 1, &[5]), ("weight", 2, &[5]), ("first_moment", 3, &[5]), ("second_moment", 4, &[5])],
        &[("updated_first_moment", 5, &[5]), ("updated_second_moment", 6, &[5]), ("updated_weight", 7, &[5])],
        &prepared,
    )
}

#[test]
fn adam_family_checks_the_moment_parameters() {
    let fragment = run(|request, emitter| emit_adam_update(request, emitter, false), &adam("gpu_adam_update", 1, 0.9, false)).unwrap();
    assert_eq!(fragment.2[0].outputs, vec![ValueId(5), ValueId(6)]);
    assert_eq!(fragment.2[1].inputs, vec![ValueId(2), ValueId(5), ValueId(6)]);
    assert!(run(|request, emitter| emit_adam_update(request, emitter, true), &adam("gpu_adamw_update", 7, 0.9, true)).is_ok());
    let fragment = run(emit_nadam_update, &adam("gpu_nadam_update", 3, 0.9, false)).unwrap();
    assert_eq!(fragment.2[1].inputs, vec![ValueId(2), ValueId(1), ValueId(5), ValueId(6)]);
    let adam_only = |request: &MaterializationRequest, emitter: &mut StageEmitter| emit_adam_update(request, emitter, false);
    for (step, beta_one) in [(0, 0.9), (2_147_483_647, 0.9), (1, 1.0)] {
        assert_eq!(
            run(adam_only, &adam("gpu_adam_update", step, beta_one, false)).unwrap_err().kind,
            OperationErrorKind::InvalidMaterializationRequest
        );
    }
    assert!(run(adam_only, &adam("gpu_adam_update", 2_147_483_646, 0.0, false)).is_ok());
    assert_eq!(
        run(adam_only, &adam("gpu_adam_update", 1, 0.9, true)).unwrap_err().kind,
        OperationErrorKind::InvalidMaterializationRequest
    );
}

#[test]
fn lion_update_allocates_one_direction_image() {
    let lion = request(
        "gpu_lion_update",
        &[("gradient", 1, &[3, 2]), ("weight", 2, &[3, 2]), ("moment", 3, &[3, 2])],
        &[("updated_moment", 4, &[3, 2]), ("updated_weight", 5, &[3, 2])],
        &[
            f32_parameter("learning_rate", 1e-4),
            f32_parameter("beta_one", 0.9),
            f32_parameter("beta_two", 0.99),
            f32_parameter("weight_decay", 0.0),
        ],
    );
    let fragment = run(emit_lion_update, &lion).unwrap();
    assert_eq!(fragment.0.workspace_bytes(), ByteCount(24));
    assert_eq!(fragment.2[0].outputs, vec![ValueId(4), ValueId(1_000)]);
    assert_eq!(fragment.2[1].inputs, vec![ValueId(2), ValueId(1_000)]);
    let mut empty = request(
        "gpu_lion_update",
        &[("gradient", 1, &[0]), ("weight", 2, &[0]), ("moment", 3, &[0])],
        &[("updated_moment", 4, &[0]), ("updated_weight", 5, &[0])],
        &[
            f32_parameter("learning_rate", 1e-4),
            f32_parameter("beta_one", 0.9),
            f32_parameter("beta_two", 0.99),
            f32_parameter("weight_decay", 0.0),
        ],
    );
    let mut emitter = open_emitter(&lion);
    empty.iteration_shape_input = "weight".to_owned();
    assert_eq!(emit_lion_update(&empty, &mut emitter).unwrap_err().kind, OperationErrorKind::UnsupportedConcreteShape);
}

#[test]
fn lamb_phases_fold_norms_in_fixed_order() {
    let phase_one = request(
        "gpu_lamb_phase1",
        &[("gradient", 1, &[2, 4]), ("weight", 2, &[2, 4]), ("moment", 3, &[2, 4]), ("velocity", 4, &[2, 4])],
        &[
            ("updated_moment", 5, &[2, 4]),
            ("updated_velocity", 6, &[2, 4]),
            ("update", 7, &[2, 4]),
            ("weight_norm_squared", 8, &[1]),
            ("update_norm_squared", 9, &[1]),
        ],
        &[
            f32_parameter("beta_one", 0.9),
            f32_parameter("beta_two", 0.999),
            f32_parameter("epsilon", 1e-6),
            f32_parameter("weight_decay", 0.01),
            ("step", PreparedParameter::U64(10)),
            ("tree_lanes", PreparedParameter::U64(16)),
        ],
    );
    let fragment = run(emit_lamb_phase_one, &phase_one).unwrap();
    assert_eq!(fragment.0.workspace_bytes(), ByteCount(96));
    assert_eq!(fragment.1.len(), 2);
    assert_eq!(fragment.1[1].kernels().len(), 3);
    let sums = reductions(&fragment.2);
    assert_eq!(sums.len(), 2);
    assert!(sums.iter().all(|sum| sum.axes == vec![0, 1] && sum.tree_lanes == 16));
    assert_eq!(fragment.2[3].outputs, vec![ValueId(7)]);

    let phase_two = request(
        "gpu_lamb_phase2",
        &[("update", 1, &[8]), ("weight_norm_squared", 2, &[1]), ("update_norm_squared", 3, &[1]), ("weight", 4, &[8])],
        &[("updated_weight", 5, &[8])],
        &[f32_parameter("learning_rate", 0.001), ("tree_lanes", PreparedParameter::U64(1))],
    );
    let fragment = run(emit_lamb_phase_two, &phase_two).unwrap();
    assert_eq!(fragment.0.workspace_bytes(), ByteCount(16));
    assert_eq!(fragment.1.len(), 4);
    assert_eq!(fragment.2[3].inputs, vec![ValueId(4), ValueId(1), ValueId(1_002), ValueId(1_003)]);
}

#[test]
fn gradient_clip_sums_squares_over_every_axis() {
    let clip = |norm: f32| {
        request(
            "gpu_grad_clip_norm",
            &[("values", 1, &[2, 3, 2])],
            &[("clipped", 2, &[2, 3, 2])],
            &[f32_parameter("maximum_norm", norm), ("tree_lanes", PreparedParameter::U64(8))],
        )
    };
    let fragment = run(emit_gradient_clip_norm, &clip(1.0)).unwrap();
    assert_eq!(fragment.0.workspace_bytes(), ByteCount(52));
    assert_eq!(reductions(&fragment.2)[0].axes, vec![0, 1, 2]);
    assert_eq!(fragment.2[2].inputs, vec![ValueId(1), ValueId(1_001)]);
    assert_eq!(
        run(emit_gradient_clip_norm, &clip(-1.0)).unwrap_err().kind,
        OperationErrorKind::InvalidMaterializationRequest
    );
}
