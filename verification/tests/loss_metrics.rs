use recipe_ops::fragment::{CalculationNode, StageEmitter};
use recipe_ops::loss_metrics::dispatch;
use recipe_ops::primitive::{ReduceOperator, ReduceResult, ReduceSpec};
use recipe_ops::training::FamilyDispatch;
use recipe_ops::{
    ByteCount, DType, GraphLedger, IdentityNamespace, KernelTemplateId, LoweringAvailability,
    MaterializationRequest, NamedTensor, OperationDescriptor, OperationErrorKind, OperationId, OperationResult,
    PreparedParameter, PreparedParameters, PrimitiveKind, StageEmission, TensorDecl, ValueId,
    composition_for_entry, expand_composition,
};

const LOSS_ROWS: [(&str, &str); 15] = [
    ("gpu_accuracy", "gpu-core/src/kernels.rs:4472"),
    ("gpu_accuracy_into", "gpu-core/src/kernels.rs:2914"),
    ("gpu_argmax_accuracy_into", "gpu-core/src/kernels.rs:2963"),
    ("gpu_contrastive_loss", "gpu-core/src/losses.rs:328"),
    ("gpu_cosine_embedding_loss", "gpu-core/src/losses.rs:270"),
    ("gpu_has_nan", "gpu-core/src/math_ops.rs:456"),
    ("gpu_hinge_loss", "gpu-core/src/losses.rs:246"),
    ("gpu_isfinite_all", "gpu-core/src/math_ops.rs:476"),
    ("gpu_kl_div_loss", "gpu-core/src/losses.rs:225"),
    ("gpu_mean_all", "gpu-core/src/reductions.rs:275"),
    ("gpu_mse_into", "gpu-core/src/kernels.rs:2888"),
    ("gpu_reduce_mean_cols", "gpu-core/src/kernels.rs:5176"),
    ("gpu_reduce_var_cols", "gpu-core/src/kernels.rs:5209"),
    ("gpu_ss_res_into", "gpu-core/src/kernels.rs:2862"),
    ("gpu_triplet_loss", "gpu-core/src/losses.rs:299"),
];

fn source(symbol: &str) -> &'static str {
    LOSS_ROWS.iter().find(|(name, _)| *name == symbol).unwrap().1
}

fn tensor(id: u64, dtype: DType, extents: &[u64], input: bool) -> TensorDecl {
    TensorDecl {
        id: ValueId(id),
        dtype,
        extents: extents.to_vec(),
        storage_bytes: ByteCount(extents.iter().product::<u64>() * 4),
        external_input: input,
        external_output: !input,
    }
}

fn descriptor(symbol: &'static str, source: &'static str) -> OperationDescriptor {
    OperationDescriptor {
        id: OperationId(33),
        symbol,
        source,
        lowering: LoweringAvailability::Composition(composition_for_entry(symbol, source).unwrap()),
    }
}

fn tree_parameters(lanes: u64) -> Vec<(&'static str, PreparedParameter)> {
    vec![("tree_lanes", PreparedParameter::U64(lanes))]
}

fn margin_parameters(margin: f32, lanes: u64) -> Vec<(&'static str, PreparedParameter)> {
    vec![("margin", PreparedParameter::F32Bits(margin.to_bits())), ("tree_lanes", PreparedParameter::U64(lanes))]
}

fn request(
    symbol: &'static str,
    inputs: Vec<(&str, TensorDecl)>,
    outputs: Vec<(&str, TensorDecl)>,
    prepared: &[(&str, PreparedParameter)],
    workspace: u64,
) -> MaterializationRequest {
    let iteration = inputs[0].0.to_owned();
    let mut parameters = PreparedParameters::new();
    for (name, value) in prepared {
        parameters.insert((*name).to_owned(), *value);
    }
    MaterializationRequest::new(
        descriptor(symbol, source(symbol)),
        inputs.into_iter().map(|(name, tensor)| NamedTensor::new(name.to_owned(), tensor)).collect(),
        outputs.into_iter().map(|(name, tensor)| NamedTensor::new(name.to_owned(), tensor)).collect(),
        iteration,
        parameters,
        IdentityNamespace::new(ValueId(1_000), 8, KernelTemplateId(2_000), 8),
        ByteCount(workspace),
    )
}

fn open_emitter(request: &MaterializationRequest) -> StageEmitter {
    let shape = request.inputs[0].tensor.extents.clone();
    let resolved = expand_composition(&request.descriptor, &shape, &request.parameters).unwrap();
    let declared = request.inputs.iter().chain(&request.outputs).map(|named| named.tensor.id).collect::<Vec<_>>();
    let ledger = GraphLedger::new(request.identity_namespace, &declared, request.workspace_limit).unwrap();
    StageEmitter::new(ledger, &resolved)
}

fn materialize(
    request: &MaterializationRequest,
) -> OperationResult<(GraphLedger, Vec<StageEmission>, Vec<CalculationNode>)> {
    let mut emitter = open_emitter(request);
    match dispatch(request, &mut emitter) {
        FamilyDispatch::Owned(result) => result?,
        FamilyDispatch::NotOwned => panic!("the loss family did not own {}", request.descriptor.symbol),
    }
    emitter.finish()
}

fn refusal(request: &MaterializationRequest, opener: &MaterializationRequest) -> OperationErrorKind {
    let mut emitter = open_emitter(opener);
    match dispatch(request, &mut emitter) {
        FamilyDispatch::Owned(result) => result.unwrap_err().kind,
        FamilyDispatch::NotOwned => panic!("the loss family did not own {}", request.descriptor.symbol),
    }
}

fn reductions(nodes: &[CalculationNode]) -> Vec<&ReduceSpec> {
    nodes
        .iter()
        .filter_map(|node| match &node.kind {
            PrimitiveKind::Reduce(spec) => Some(spec),
            _ => None,
        })
        .collect()
}

fn assert_fragment(
    fragment: &(GraphLedger, Vec<StageEmission>, Vec<CalculationNode>),
    workspace: u64,
    stages: usize,
    tree_lanes: Option<u32>,
) {
    assert_eq!(fragment.0.workspace_bytes(), ByteCount(workspace));
    assert_eq!(fragment.1.len(), stages);
    assert!(fragment.1.iter().all(|stage| !stage.kernels().is_empty()));
    match tree_lanes {
        Some(expected) => {
            let reductions = reductions(&fragment.2);
            assert!(!reductions.is_empty());
            assert!(reductions.iter().all(|reduction| reduction.tree_lanes == expected));
        }
        None => assert!(reductions(&fragment.2).is_empty()),
    }
}

fn hinge_request(scores_extents: &[u64]) -> MaterializationRequest {
    request(
        "gpu_hinge_loss",
        vec![("scores", tensor(1, DType::F32, scores_extents, true)), ("labels", tensor(2, DType::F32, &[4], true))],
        vec![("losses", tensor(3, DType::F32, &[4], false)), ("gradients", tensor(4, DType::F32, &[4], false))],
        &[],
        0,
    )
}

#[test]
fn owns_exactly_the_fifteen_loss_metric_rows() {
    let hinge = hinge_request(&[4]);
    let mut moved = hinge_request(&[4]);
    moved.descriptor.source = "gpu-core/src/kernels.rs:246";
    let mut emitter = open_emitter(&hinge);
    assert!(matches!(dispatch(&moved, &mut emitter), FamilyDispatch::NotOwned));
    assert_eq!(emitter.finish().unwrap_err().kind, OperationErrorKind::GraphMaterializationFailed);
    let mut training = hinge_request(&[4]);
    training.descriptor.symbol = "gpu_linear_into";
    training.descriptor.source = "gpu-core/src/kernels.rs:2796";
    let mut emitter = open_emitter(&hinge);
    assert!(matches!(dispatch(&training, &mut emitter), FamilyDispatch::NotOwned));
    let fragment = materialize(&hinge).unwrap();
    assert_fragment(&fragment, 0, 1, None);
    assert_eq!(fragment.2[0].inputs, vec![ValueId(1), ValueId(2)]);
    assert_eq!(fragment.2[0].outputs, vec![ValueId(3), ValueId(4)]);
    assert!(matches!(fragment.2[0].kind, PrimitiveKind::Elementwise));
    assert_eq!(fragment.2[0].alias_rules.len(), 4);
    for (symbol, _) in LOSS_ROWS {
        assert!(composition_for_entry(symbol, source(symbol)).is_some());
    }
}

#[test]
fn materializes_accuracy_and_finite_metrics_with_fixed_reductions() {
    let prepared = tree_parameters(64);
    let binary = request(
        "gpu_accuracy_into",
        vec![("predictions", tensor(1, DType::F32, &[6], true)), ("targets", tensor(2, DType::F32, &[6], true))],
        vec![("accuracy", tensor(3, DType::F32, &[1], false))],
        &prepared,
        28,
    );
    let fragment = materialize(&binary).unwrap();
    assert_fragment(&fragment, 28, 3, Some(64));
    let binary_reductions = reductions(&fragment.2);
    assert_eq!(binary_reductions[0].operator, ReduceOperator::Sum);
    assert_eq!(binary_reductions[0].axes, vec![0]);
    assert_eq!(fragment.0.intermediate_values(), &[ValueId(1_000), ValueId(1_001)]);
    assert_eq!(fragment.2[0].inputs, vec![ValueId(1), ValueId(2)]);
    assert_eq!(fragment.2[0].outputs, vec![ValueId(1_000)]);
    assert_eq!(fragment.2[1].outputs, vec![ValueId(1_001)]);
    assert_eq!(fragment.2[2].inputs, vec![ValueId(1_001)]);
    assert_eq!(fragment.2[2].outputs, vec![ValueId(3)]);
    assert_eq!(fragment.2[2].kernel, KernelTemplateId(2_002));

    let multiclass = request(
        "gpu_accuracy",
        vec![("predictions", tensor(11, DType::F32, &[3, 4], true)), ("targets", tensor(12, DType::I32, &[3], true))],
        vec![("correct_count", tensor(13, DType::F32, &[1], false))],
        &prepared,
        24,
    );
    let fragment = materialize(&multiclass).unwrap();
    assert_fragment(&fragment, 24, 3, Some(64));
    let multiclass_reductions = reductions(&fragment.2);
    assert_eq!(multiclass_reductions[0].operator, ReduceOperator::Maximum);
    assert_eq!(multiclass_reductions[0].result, ReduceResult::Index);
    assert_eq!(multiclass_reductions[0].axes, vec![1]);
    assert_eq!(multiclass_reductions[1].operator, ReduceOperator::Sum);
    assert_eq!(multiclass_reductions[1].axes, vec![0]);
    assert_eq!(fragment.2[2].outputs, vec![ValueId(13)]);

    let dense = request(
        "gpu_argmax_accuracy_into",
        vec![("predictions", tensor(11, DType::F32, &[3, 4], true)), ("targets", tensor(22, DType::F32, &[3, 4], true))],
        vec![("accuracy", tensor(23, DType::F32, &[1], false))],
        &prepared,
        40,
    );
    let fragment = materialize(&dense).unwrap();
    assert_fragment(&fragment, 40, 5, Some(64));
    let dense_reductions = reductions(&fragment.2);
    assert_eq!(dense_reductions.len(), 3);
    assert!(dense_reductions[..2].iter().all(|reduction| reduction.result == ReduceResult::Index));

    for (symbol, output_name, operator) in
        [("gpu_has_nan", "has_nan", ReduceOperator::Any), ("gpu_isfinite_all", "all_finite", ReduceOperator::All)]
    {
        let finite = request(
            symbol,
            vec![("values", tensor(31, DType::F32, &[2, 3], true))],
            vec![(output_name, tensor(32, DType::I32, &[1], false))],
            &prepared,
            24,
        );
        let fragment = materialize(&finite).unwrap();
        assert_fragment(&fragment, 24, 2, Some(64));
        assert_eq!(reductions(&fragment.2)[0].operator, operator);
        assert_eq!(reductions(&fragment.2)[0].axes, vec![0, 1]);
    }
}

#[test]
fn materializes_scalar_losses_and_global_statistics_with_exact_workspace() {
    let kl = request(
        "gpu_kl_div_loss",
        vec![
            ("log_probabilities", tensor(11, DType::F32, &[2, 3], true)),
            ("targets", tensor(12, DType::F32, &[2, 3], true)),
        ],
        vec![("losses", tensor(13, DType::F32, &[2, 3], false))],
        &[],
        48,
    );
    let fragment = materialize(&kl).unwrap();
    assert_fragment(&fragment, 48, 1, None);
    assert_eq!(fragment.1[0].kernels().len(), 3);
    assert_eq!(fragment.2[2].inputs, vec![ValueId(11), ValueId(12), ValueId(1_001)]);

    let prepared = tree_parameters(32);
    let mean = request(
        "gpu_mean_all",
        vec![("values", tensor(21, DType::F32, &[2, 3], true))],
        vec![("mean", tensor(22, DType::F32, &[1], false))],
        &prepared,
        4,
    );
    let fragment = materialize(&mean).unwrap();
    assert_fragment(&fragment, 4, 2, Some(32));
    assert_eq!(reductions(&fragment.2)[0].axes, vec![0, 1]);

    for (symbol, output_name, workspace, stages) in
        [("gpu_mse_into", "mean_squared_error", 28, 3), ("gpu_ss_res_into", "sum_squared_residuals", 24, 2)]
    {
        let loss = request(
            symbol,
            vec![("predictions", tensor(31, DType::F32, &[2, 3], true)), ("targets", tensor(32, DType::F32, &[2, 3], true))],
            vec![(output_name, tensor(33, DType::F32, &[1], false))],
            &prepared,
            workspace,
        );
        let fragment = materialize(&loss).unwrap();
        assert_fragment(&fragment, workspace, stages, Some(32));
    }
}

#[test]
fn materializes_column_statistics_without_hidden_scratch() {
    let prepared = tree_parameters(64);
    let mean = request(
        "gpu_reduce_mean_cols",
        vec![("values", tensor(1, DType::F32, &[3, 4], true))],
        vec![("means", tensor(2, DType::F32, &[4], false))],
        &prepared,
        16,
    );
    let fragment = materialize(&mean).unwrap();
    assert_fragment(&fragment, 16, 2, Some(64));
    assert_eq!(reductions(&fragment.2)[0].axes, vec![0]);

    let variance = request(
        "gpu_reduce_var_cols",
        vec![("values", tensor(1, DType::F32, &[3, 4], true))],
        vec![("variances", tensor(3, DType::F32, &[4], false))],
        &prepared,
        96,
    );
    let fragment = materialize(&variance).unwrap();
    assert_fragment(&fragment, 96, 3, Some(64));
    assert_eq!(fragment.1[2].kernels().len(), 3);
    let kept = reductions(&fragment.2);
    assert_eq!(kept.len(), 3);
    assert!(!kept[0].keep_dimensions && kept[1].keep_dimensions && !kept[2].keep_dimensions);
    assert_eq!(fragment.2[4].outputs, vec![ValueId(3)]);
}

#[test]
fn materializes_distance_losses_at_per_example_granularity() {
    let prepared = margin_parameters(0.5, 64);
    let paired = |symbol: &'static str, workspace: u64| {
        request(
            symbol,
            vec![
                ("left", tensor(1, DType::F32, &[2, 3], true)),
                ("right", tensor(2, DType::F32, &[2, 3], true)),
                ("labels", tensor(3, DType::F32, &[2], true)),
            ],
            vec![("losses", tensor(4, DType::F32, &[2], false))],
            &prepared,
            workspace,
        )
    };
    let fragment = materialize(&paired("gpu_contrastive_loss", 32)).unwrap();
    assert_fragment(&fragment, 32, 3, Some(64));
    assert_eq!(fragment.2[2].inputs, vec![ValueId(1_001), ValueId(3)]);

    let fragment = materialize(&paired("gpu_cosine_embedding_loss", 96)).unwrap();
    assert_fragment(&fragment, 96, 5, Some(64));
    assert_eq!(reductions(&fragment.2).len(), 3);
    assert!(reductions(&fragment.2).iter().all(|reduction| reduction.axes == vec![1]));
    assert_eq!(fragment.2[0].outputs, vec![ValueId(1_000), ValueId(1_001), ValueId(1_002)]);

    let triplet = request(
        "gpu_triplet_loss",
        vec![
            ("anchor", tensor(11, DType::F32, &[2, 3], true)),
            ("positive", tensor(12, DType::F32, &[2, 3], true)),
            ("negative", tensor(13, DType::F32, &[2, 3], true)),
        ],
        vec![("losses", tensor(14, DType::F32, &[2], false))],
        &prepared,
        64,
    );
    let fragment = materialize(&triplet).unwrap();
    assert_fragment(&fragment, 64, 4, Some(64));
    assert_eq!(reductions(&fragment.2).len(), 2);
}

#[test]
fn rejects_abi_domain_tree_and_workspace_drift() {
    let accuracy = |prepared: &[(&str, PreparedParameter)], workspace: u64| {
        request(
            "gpu_accuracy_into",
            vec![("predictions", tensor(1, DType::F32, &[6], true)), ("targets", tensor(2, DType::F32, &[6], true))],
            vec![("accuracy", tensor(3, DType::F32, &[1], false))],
            prepared,
            workspace,
        )
    };
    let error = materialize(&accuracy(&tree_parameters(3), 28)).unwrap_err();
    assert_eq!(error.kind, OperationErrorKind::InvalidMaterializationRequest);
    assert_eq!(error.operation, Some(OperationId(33)));

    let mut extra = tree_parameters(64);
    extra.push(("threshold", PreparedParameter::F32Bits(0.5f32.to_bits())));
    let error = materialize(&accuracy(&extra, 28)).unwrap_err();
    assert_eq!(error.kind, OperationErrorKind::InvalidMaterializationRequest);

    let error = materialize(&accuracy(&tree_parameters(64), 27)).unwrap_err();
    assert_eq!(error.kind, OperationErrorKind::WorkspaceLimitExceeded);

    assert_eq!(
        refusal(&accuracy(&[], 28), &accuracy(&tree_parameters(64), 28)),
        OperationErrorKind::InvalidMaterializationRequest
    );

    let oversized = request(
        "gpu_mean_all",
        vec![("values", tensor(11, DType::F32, &[16_777_217], true))],
        vec![("mean", tensor(12, DType::F32, &[1], false))],
        &tree_parameters(64),
        4,
    );
    assert_eq!(
        refusal(&oversized, &accuracy(&tree_parameters(64), 28)),
        OperationErrorKind::UnsupportedConcreteShape
    );

    let nonfinite = request(
        "gpu_contrastive_loss",
        vec![
            ("left", tensor(21, DType::F32, &[2, 3], true)),
            ("right", tensor(22, DType::F32, &[2, 3], true)),
            ("labels", tensor(23, DType::F32, &[2], true)),
        ],
        vec![("losses", tensor(24, DType::F32, &[2], false))],
        &margin_parameters(f32::INFINITY, 64),
        32,
    );
    let error = materialize(&nonfinite).unwrap_err();
    assert_eq!(error.kind, OperationErrorKind::InvalidMaterializationRequest);
}

#[test]
fn refuses_each_boundary_fault_with_its_kind() {
    let short_labels = request(
        "gpu_contrastive_loss",
        vec![
            ("left", tensor(21, DType::F32, &[2, 3], true)),
            ("right", tensor(22, DType::F32, &[2, 3], true)),
            ("labels", tensor(23, DType::F32, &[3], true)),
        ],
        vec![("losses", tensor(24, DType::F32, &[2], false))],
        &margin_parameters(0.5, 64),
        32,
    );
    assert_eq!(materialize(&short_labels).unwrap_err().kind, OperationErrorKind::InvalidMaterializationRequest);

    let integer_margin = request(
        "gpu_triplet_loss",
        vec![
            ("anchor", tensor(11, DType::F32, &[2, 3], true)),
            ("positive", tensor(12, DType::F32, &[2, 3], true)),
            ("negative", tensor(13, DType::F32, &[2, 3], true)),
        ],
        vec![("losses", tensor(14, DType::F32, &[2], false))],
        &[("margin", PreparedParameter::U64(1)), ("tree_lanes", PreparedParameter::U64(64))],
        64,
    );
    assert_eq!(materialize(&integer_margin).unwrap_err().kind, OperationErrorKind::PreparedParameterTypeMismatch);

    let wide_targets = request(
        "gpu_accuracy",
        vec![("predictions", tensor(11, DType::F32, &[3, 4], true)), ("targets", tensor(12, DType::F32, &[3], true))],
        vec![("correct_count", tensor(13, DType::F32, &[1], false))],
        &tree_parameters(64),
        24,
    );
    assert_eq!(materialize(&wide_targets).unwrap_err().kind, OperationErrorKind::InvalidMaterializationRequest);

    assert_eq!(refusal(&hinge_request(&[0]), &hinge_request(&[4])), OperationErrorKind::InvalidMaterializationRequest);

    let no_lanes = request(
        "gpu_reduce_mean_cols",
        vec![("values", tensor(1, DType::F32, &[3, 4], true))],
        vec![("means", tensor(2, DType::F32, &[4], false))],
        &[],
        16,
    );
    let means = request(
        "gpu_reduce_mean_cols",
        vec![("values", tensor(1, DType::F32, &[3, 4], true))],
        vec![("means", tensor(2, DType::F32, &[4], false))],
        &tree_parameters(64),
        16,
    );
    assert_eq!(refusal(&no_lanes, &means), OperationErrorKind::InvalidMaterializationRequest);
    let odd_lanes = request(
        "gpu_reduce_mean_cols",
        vec![("values", tensor(1, DType::F32, &[3, 4], true))],
        vec![("means", tensor(2, DType::F32, &[4], false))],
        &[("tree_lanes", PreparedParameter::F32Bits(1))],
        16,
    );
    assert_eq!(refusal(&odd_lanes, &means), OperationErrorKind::PreparedParameterTypeMismatch);

    let wrong_means = request(
        "gpu_reduce_mean_cols",
        vec![("values", tensor(1, DType::F32, &[3, 4], true))],
        vec![("means", tensor(2, DType::F32, &[3], false))],
        &tree_parameters(64),
        16,
    );
    assert_eq!(materialize(&wrong_means).unwrap_err().kind, OperationErrorKind::InvalidMaterializationRequest);
}
