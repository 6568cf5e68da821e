use recipe_ops::fragment::CalculationNode;
use recipe_ops::primitive::{AliasPermission, ContractionSpec, ReduceSpec};
use recipe_ops::{
    ByteCount, DType, IdentityNamespace, KernelTemplateId, MaterializationRequest, MaterializedComposition,
    NamedTensor, OperationDescriptor, OperationErrorKind, PreparedParameter, PreparedParameters, PrimitiveKind,
    TensorDecl, ValueId, materialize_composition, operation_registry,
};

fn tensor(id: u64, extents: &[u64], input: bool) -> TensorDecl {
    TensorDecl {
        id: ValueId(id),
        dtype: DType::F32,
        extents: extents.to_vec(),
        storage_bytes: ByteCount(extents.iter().product::<u64>() * 4),
        external_input: input,
        external_output: !input,
    }
}

fn input_tensor(id: u64, extents: &[u64]) -> TensorDecl {
    tensor(id, extents, true)
}

fn output_tensor(id: u64, extents: &[u64]) -> TensorDecl {
    tensor(id, extents, false)
}

fn namespace(seed: u64) -> IdentityNamespace {
    IdentityNamespace::new(ValueId(seed), 100, KernelTemplateId(seed), 100)
}

fn tree_parameters(lanes: u64) -> PreparedParameters {
    let mut parameters = PreparedParameters::new();
    parameters.insert("tree_lanes".to_owned(), PreparedParameter::U64(lanes));
    parameters
}

fn resolve_unique(symbol: &str) -> OperationDescriptor {
    let mut matching = operation_registry().descriptors.into_iter().filter(|descriptor| descriptor.symbol == symbol);
    let found = matching.next().unwrap();
    assert!(matching.next().is_none());
    found
}

fn materialize(
    symbol: &str,
    inputs: &[(&str, &TensorDecl)],
    outputs: &[(&str, &TensorDecl)],
    iteration: &str,
    parameters: PreparedParameters,
    identities: IdentityNamespace,
    limit: u64,
) -> Result<MaterializedComposition, OperationErrorKind> {
    let request = MaterializationRequest::new(
        resolve_unique(symbol),
        inputs.iter().map(|(name, tensor)| NamedTensor::new((*name).to_owned(), (*tensor).clone())).collect(),
        outputs.iter().map(|(name, tensor)| NamedTensor::new((*name).to_owned(), (*tensor).clone())).collect(),
        iteration.to_owned(),
        parameters,
        identities,
        ByteCount(limit),
    );
    materialize_composition(&request).map_err(|error| error.kind)
}

fn families(materialized: &MaterializedComposition) -> Vec<&'static str> {
    materialized
        .nodes()
        .iter()
        .map(|node| match &node.kind {
            PrimitiveKind::Elementwise => "elementwise",
            PrimitiveKind::Reduce(_) => "reduce",
            PrimitiveKind::Contraction(_) => "contraction",
            _ => "other",
        })
        .collect()
}

fn contractions(materialized: &MaterializedComposition) -> Vec<&ContractionSpec> {
    materialized
        .nodes()
        .iter()
        .filter_map(|node| match &node.kind {
            PrimitiveKind::Contraction(spec) => Some(spec),
            _ => None,
        })
        .collect()
}

fn reductions(materialized: &MaterializedComposition) -> Vec<&ReduceSpec> {
    materialized
        .nodes()
        .iter()
        .filter_map(|node| match &node.kind {
            PrimitiveKind::Reduce(spec) => Some(spec),
            _ => None,
        })
        .collect()
}

fn assert_forbidden_aliases(materialized: &MaterializedComposition) {
    for node in materialized.nodes() {
        let node: &CalculationNode = node;
        assert_eq!(node.alias_rules.len(), node.inputs.len() * node.outputs.len());
        assert!(node.alias_rules.iter().all(|rule| rule.permission == AliasPermission::Forbidden));
    }
}

#[test]
fn materializes_matrix_linear_and_specialized_matvec_with_exact_workspace() {
    for (index, symbol) in ["gpu_linear_into", "gpu_linear_f32"].iter().enumerate() {
        let input = input_tensor(1, &[3, 5]);
        let weight = input_tensor(2, &[5, 7]);
        let bias = input_tensor(3, &[7]);
        let output = output_tensor(4, &[3, 7]);
        let materialized = materialize(
            symbol,
            &[("input", &input), ("weight", &weight), ("bias", &bias)],
            &[("output", &output)],
            "input",
            PreparedParameters::new(),
            namespace(10_000 + index as u64 * 1_000),
            84,
        )
        .unwrap();
        assert_eq!(families(&materialized), ["contraction", "elementwise"]);
        assert_eq!(materialized.workspace().bytes(), ByteCount(84));
        assert_eq!(contractions(&materialized)[0].contract_axes, [(1, 0)]);
        assert_forbidden_aliases(&materialized);
    }
    let input = input_tensor(11, &[3, 5]);
    let weight = input_tensor(12, &[5]);
    let bias = input_tensor(13, &[1]);
    let output = output_tensor(14, &[3]);
    let materialized = materialize(
        "gpu_matvec_bias_into",
        &[("input", &input), ("weight", &weight), ("bias", &bias)],
        &[("output", &output)],
        "input",
        PreparedParameters::new(),
        namespace(20_000),
        12,
    )
    .unwrap();
    assert_eq!(families(&materialized), ["contraction", "elementwise"]);
    assert_eq!(materialized.workspace().bytes(), ByteCount(12));
    assert_eq!(contractions(&materialized)[0].contract_axes, [(1, 0)]);
    assert_forbidden_aliases(&materialized);
}

#[test]
fn materializes_linear_backward_contractions_and_fixed_tree_bias_sum() {
    let output_gradient = input_tensor(1, &[3, 7]);
    let input = input_tensor(2, &[3, 5]);
    let weight = input_tensor(3, &[5, 7]);
    let input_gradient = output_tensor(4, &[3, 5]);
    let weight_gradient = output_tensor(5, &[5, 7]);
    let bias_gradient = output_tensor(6, &[7]);
    let full = materialize(
        "gpu_linear_backward_full_into",
        &[("output_gradient", &output_gradient), ("input", &input), ("weight", &weight)],
        &[("input_gradient", &input_gradient), ("weight_gradient", &weight_gradient), ("bias_gradient", &bias_gradient)],
        "output_gradient",
        tree_parameters(64),
        namespace(30_000),
        0,
    )
    .unwrap();
    assert_eq!(families(&full), ["contraction", "contraction", "reduce"]);
    assert_eq!(full.workspace().bytes(), ByteCount(0));
    let full_contractions = contractions(&full);
    assert_eq!(full_contractions[0].contract_axes, [(1, 1)]);
    assert_eq!(full_contractions[1].contract_axes, [(0, 0)]);
    assert_eq!(reductions(&full)[0].axes.as_slice(), [0]);
    assert_eq!(reductions(&full)[0].tree_lanes, 64);
    assert_forbidden_aliases(&full);

    let weights_only = materialize(
        "gpu_linear_backward_weights_only_into",
        &[("output_gradient", &output_gradient), ("input", &input)],
        &[("weight_gradient", &weight_gradient), ("bias_gradient", &bias_gradient)],
        "output_gradient",
        tree_parameters(64),
        namespace(40_000),
        0,
    )
    .unwrap();
    assert_eq!(families(&weights_only), ["contraction", "reduce"]);
    assert_eq!(contractions(&weights_only)[0].contract_axes, [(0, 0)]);
    assert_eq!(reductions(&weights_only)[0].tree_lanes, 64);
    assert_forbidden_aliases(&weights_only);
}

#[test]
fn materializes_stable_bce_loss_and_gradient_in_one_owned_scalar_program() {
    let logits = input_tensor(1, &[2, 3]);
    let targets = input_tensor(2, &[2, 3]);
    let losses = output_tensor(3, &[2, 3]);
    let gradients = output_tensor(4, &[2, 3]);
    let materialized = materialize(
        "gpu_bce_with_logits",
        &[("logits", &logits), ("targets", &targets)],
        &[("losses", &losses), ("gradients", &gradients)],
        "logits",
        PreparedParameters::new(),
        namespace(50_000),
        0,
    )
    .unwrap();
    assert_eq!(families(&materialized), ["elementwise"]);
    assert_eq!(materialized.workspace().bytes(), ByteCount(0));
    let node = &materialized.nodes()[0];
    assert_eq!(node.inputs.len(), 2);
    assert_eq!(node.outputs.len(), 2);
    assert_forbidden_aliases(&materialized);
}

#[test]
fn rejects_non_exact_training_abis_shapes_parameters_and_workspace() {
    let input = input_tensor(1, &[3, 5]);
    let bad_weight = input_tensor(2, &[4, 7]);
    let bias = input_tensor(3, &[7]);
    let output = output_tensor(4, &[3, 7]);
    let error = materialize(
        "gpu_linear_into",
        &[("input", &input), ("weight", &bad_weight), ("bias", &bias)],
        &[("output", &output)],
        "input",
        PreparedParameters::new(),
        namespace(60_000),
        84,
    )
    .unwrap_err();
    assert_eq!(error, OperationErrorKind::InvalidMaterializationRequest);

    let weight = input_tensor(12, &[5, 7]);
    let mut extra = PreparedParameters::new();
    extra.insert("unexpected".to_owned(), PreparedParameter::Bool(true));
    let error = materialize(
        "gpu_linear_into",
        &[("input", &input), ("weight", &weight), ("bias", &bias)],
        &[("output", &output)],
        "input",
        extra,
        namespace(61_000),
        84,
    )
    .unwrap_err();
    assert_eq!(error, OperationErrorKind::InvalidMaterializationRequest);

    let error = materialize(
        "gpu_linear_into",
        &[("input", &input), ("weight", &weight), ("bias", &bias)],
        &[("output", &output)],
        "input",
        PreparedParameters::new(),
        namespace(62_000),
        83,
    )
    .unwrap_err();
    assert_eq!(error, OperationErrorKind::WorkspaceLimitExceeded);

    let targets = input_tensor(20, &[2, 3]);
    let logits = input_tensor(21, &[2, 3]);
    let losses = output_tensor(22, &[2, 3]);
    let bad_gradients = output_tensor(23, &[3, 2]);
    let error = materialize(
        "gpu_bce_with_logits",
        &[("logits", &logits), ("targets", &targets)],
        &[("losses", &losses), ("gradients", &bad_gradients)],
        "logits",
        PreparedParameters::new(),
        namespace(63_000),
        0,
    )
    .unwrap_err();
    assert_eq!(error, OperationErrorKind::UnsupportedConcreteShape);
}
