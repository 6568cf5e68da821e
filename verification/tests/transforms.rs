use recipe_ops::fft::emit_radix_two_fft;
use recipe_ops::fragment::{CalculationNode, StageEmitter};
use recipe_ops::tree_split::emit_tree_leaf_split;
use recipe_ops::triangular::emit_triangular_solve;
use recipe_ops::{
    ByteCount, DType, GraphLedger, IdentityNamespace, KernelTemplateId, LoweringAvailability, MaterializationRequest,
    NamedTensor, OperationDescriptor, OperationErrorKind, OperationId, OperationResult, PreparedParameter,
    PreparedParameters, PrimitiveKind, StageEmission, TensorDecl, ValueId, composition_for_entry, expand_composition,
};

type Fragment = (GraphLedger, Vec<StageEmission>, Vec<CalculationNode>);

const SOURCE: &str = "gpu-core/src/linear.rs:1";

fn tensor(id: u64, dtype: DType, extents: &[u64]) -> TensorDecl {
    TensorDecl {
        id: ValueId(id),
        dtype,
        extents: extents.to_vec(),
        storage_bytes: ByteCount(extents.iter().product::<u64>() * 4),
        external_input: false,
        external_output: false,
    }
}

fn request(
    symbol: &'static str,
    iteration: &str,
    inputs: Vec<(String, TensorDecl)>,
    outputs: Vec<(String, TensorDecl)>,
    prepared: &[(&str, PreparedParameter)],
) -> MaterializationRequest {
    let mut parameters = PreparedParameters::new();
    for (name, value) in prepared {
        parameters.insert((*name).to_owned(), *value);
    }
    MaterializationRequest::new(
        OperationDescriptor {
            id: OperationId(77),
            symbol,
            source: SOURCE,
            lowering: LoweringAvailability::Composition(composition_for_entry(symbol, SOURCE).unwrap()),
        },
        inputs.into_iter().map(|(name, tensor)| NamedTensor::new(name, tensor)).collect(),
        outputs.into_iter().map(|(name, tensor)| NamedTensor::new(name, tensor)).collect(),
        iteration.to_owned(),
        parameters,
        IdentityNamespace::new(ValueId(1_000), 32, KernelTemplateId(2_000), 32),
        ByteCount(1 << 16),
    )
}

fn run(
    emit: impl Fn(&MaterializationRequest, &mut StageEmitter) -> OperationResult<()>,
    request: &MaterializationRequest,
) -> OperationResult<Fragment> {
    let iteration = request.inputs.iter().find(|named| named.name == request.iteration_shape_input).unwrap();
    let resolved = expand_composition(&request.descriptor, &iteration.tensor.extents, &request.parameters).unwrap();
    let declared = request.inputs.iter().chain(&request.outputs).map(|named| named.tensor.id).collect::<Vec<_>>();
    let ledger = GraphLedger::new(request.identity_namespace, &declared, request.workspace_limit).unwrap();
    let mut emitter = StageEmitter::new(ledger, &resolved);
    emit(request, &mut emitter)?;
    emitter.finish()
}

fn ids(node: &CalculationNode) -> (Vec<u64>, Vec<u64>) {
    (node.inputs.iter().map(|v| v.0).collect(), node.outputs.iter().map(|v| v.0).collect())
}

fn named(name: &str, tensor: TensorDecl) -> (String, TensorDecl) {
    (name.to_owned(), tensor)
}

fn flag(name: &str) -> (&str, PreparedParameter) {
    (name, PreparedParameter::Bool(true))
}

fn split_request() -> MaterializationRequest {
    request(
        "gpu_leaf_split_apply",
        "feature_indices",
        vec![
            named("features", tensor(1, DType::F32, &[12])),
            named("feature_indices", tensor(2, DType::I32, &[3])),
            named("thresholds", tensor(3, DType::F32, &[3])),
            named("assignments", tensor(4, DType::I32, &[3])),
            named("destination_indices", tensor(5, DType::I32, &[3])),
        ],
        vec![named("updated_assignments", tensor(6, DType::I32, &[3]))],
        &[flag("destination_indices_unique")],
    )
}

#[test]
fn leaf_split_gathers_branches_and_scatters() {
    let split = split_request();
    let (ledger, stages, nodes) = run(emit_tree_leaf_split, &split).unwrap();
    assert_eq!(ledger.intermediate_values(), &[ValueId(1_000), ValueId(1_001)]);
    assert_eq!(ledger.workspace_bytes(), ByteCount(24));
    assert_eq!(stages.len(), 3);
    assert_eq!(ids(&nodes[0]), (vec![1, 2], vec![1_000]));
    assert_eq!(ids(&nodes[1]), (vec![1_000, 3, 4], vec![1_001]));
    assert_eq!(ids(&nodes[2]), (vec![4, 5, 1_001], vec![6]));
    assert!(matches!(nodes[2].kind, PrimitiveKind::Scatter(spec) if !spec.atomic_add && spec.rejects_out_of_bounds));

    let mut unchecked = split_request();
    unchecked.parameters = PreparedParameters::new();
    assert_eq!(run(emit_tree_leaf_split, &unchecked).unwrap_err().kind, OperationErrorKind::MissingPreparedParameter);
}

fn solve_request(rows: u64, missing_last_destination: bool) -> MaterializationRequest {
    let mut inputs = vec![named("solution_base", tensor(1, DType::F32, &[rows]))];
    for row in 0..rows {
        inputs.push(named(&format!("row_{row}_strict_prefix"), tensor(10 + 4 * row, DType::F32, &[rows])));
        inputs.push(named(&format!("row_{row}_rhs"), tensor(11 + 4 * row, DType::F32, &[1])));
        inputs.push(named(&format!("row_{row}_diagonal"), tensor(12 + 4 * row, DType::F32, &[1])));
        if !(missing_last_destination && row + 1 == rows) {
            inputs.push(named(&format!("row_{row}_destination"), tensor(13 + 4 * row, DType::I32, &[1])));
        }
    }
    request(
        "gpu_solve",
        "solution_base",
        inputs,
        vec![named("solution", tensor(2, DType::F32, &[rows]))],
        &[
            flag("solution_base_zero"),
            flag("triangular_rows_verified"),
            flag("destination_indices_unique"),
            ("tree_lanes", PreparedParameter::U64(32)),
        ],
    )
}

#[test]
fn triangular_solve_substitutes_row_by_row() {
    let (ledger, stages, nodes) = run(emit_triangular_solve, &solve_request(2, false)).unwrap();
    assert_eq!(ledger.intermediate_values().len(), 7);
    assert_eq!(ledger.workspace_bytes(), ByteCount(24 + 16));
    assert_eq!(stages.len(), 6);
    assert_eq!(nodes.len(), 8);
    // Row zero reads the base image and writes the next image.
    assert_eq!(ids(&nodes[0]), (vec![10, 1], vec![1_000]));
    assert!(matches!(&nodes[1].kind, PrimitiveKind::Reduce(spec) if spec.tree_lanes == 32 && spec.axes == vec![0]));
    assert_eq!(ids(&nodes[2]), (vec![11, 1_001, 12], vec![1_002]));
    assert_eq!(ids(&nodes[3]), (vec![1, 13, 1_002], vec![1_003]));
    // The last row writes the solution.
    assert_eq!(ids(&nodes[4]), (vec![14, 1_003], vec![1_004]));
    assert_eq!(ids(&nodes[7]), (vec![1_003, 17, 1_006], vec![2]));
}

#[test]
fn triangular_solve_stops_at_a_missing_row_tensor() {
    let error = run(emit_triangular_solve, &solve_request(2, true)).unwrap_err();
    assert_eq!(error.kind, OperationErrorKind::InvalidMaterializationRequest);
}

fn fft_request(elements: u64, misshapen_destination: bool) -> MaterializationRequest {
    let stages = 64 - (elements - 1).leading_zeros() as u64;
    let mut inputs = vec![
        named("real", tensor(1, DType::F32, &[elements])),
        named("imaginary", tensor(2, DType::F32, &[elements])),
    ];
    let coefficients = [
        "real_from_left_real",
        "real_from_left_imaginary",
        "real_from_right_real",
        "real_from_right_imaginary",
        "imaginary_from_left_real",
        "imaginary_from_left_imaginary",
        "imaginary_from_right_real",
        "imaginary_from_right_imaginary",
    ];
    for stage in 0..stages {
        let id = 100 * (stage + 1);
        inputs.push(named(&format!("stage_{stage}_left_indices"), tensor(id, DType::I32, &[elements])));
        inputs.push(named(&format!("stage_{stage}_right_indices"), tensor(id + 1, DType::I32, &[elements])));
        for (k, suffix) in coefficients.iter().enumerate() {
            inputs.push(named(&format!("stage_{stage}_{suffix}"), tensor(id + 10 + k as u64, DType::F32, &[elements])));
        }
        inputs.push(named(&format!("stage_{stage}_real_base"), tensor(id + 20, DType::F32, &[elements])));
        inputs.push(named(&format!("stage_{stage}_imaginary_base"), tensor(id + 21, DType::F32, &[elements])));
        let destination_extent = if misshapen_destination && stage + 1 == stages { elements + 1 } else { elements };
        inputs.push(named(
            &format!("stage_{stage}_destination_indices"),
            tensor(id + 22, DType::I32, &[destination_extent]),
        ));
    }
    request(
        "gpu_fft_c2c_1d",
        "real",
        inputs,
        vec![
            named("transformed_real", tensor(3, DType::F32, &[elements])),
            named("transformed_imaginary", tensor(4, DType::F32, &[elements])),
        ],
        &[flag("fft_stage_tables_verified"), flag("fft_destination_indices_unique")],
    )
}

#[test]
fn fft_chains_butterfly_stages() {
    let (ledger, stages, nodes) = run(emit_radix_two_fft, &fft_request(4, false)).unwrap();
    assert_eq!(ledger.intermediate_values().len(), 14);
    assert_eq!(ledger.workspace_bytes(), ByteCount(14 * 16));
    assert_eq!(stages.len(), 6);
    assert_eq!(nodes.len(), 14);
    assert_eq!(ids(&nodes[0]), (vec![1, 100], vec![1_000]));
    assert_eq!(ids(&nodes[3]), (vec![2, 101], vec![1_003]));
    let combine = ids(&nodes[4]);
    assert_eq!(combine.0.len(), 12);
    assert_eq!(&combine.0[..5], &[1_000, 1_001, 1_002, 1_003, 110]);
    assert_eq!(combine.1, vec![1_004, 1_005]);
    assert_eq!(ids(&nodes[5]), (vec![120, 122, 1_004], vec![1_006]));
    // The second stage reads the first stage's images and writes the outputs.
    assert_eq!(ids(&nodes[7]), (vec![1_006, 200], vec![1_008]));
    assert_eq!(ids(&nodes[12]), (vec![220, 222, 1_012], vec![3]));
    assert_eq!(ids(&nodes[13]), (vec![221, 222, 1_013], vec![4]));
}

#[test]
fn fft_refuses_lengths_and_tables() {
    let error = run(emit_radix_two_fft, &fft_request(4, true)).unwrap_err();
    assert_eq!(error.kind, OperationErrorKind::UnsupportedConcreteShape);
    let mut odd = fft_request(4, false);
    for named in odd.inputs.iter_mut().chain(odd.outputs.iter_mut()) {
        if ["real", "imaginary", "transformed_real", "transformed_imaginary"].contains(&named.name.as_str()) {
            named.tensor.extents = vec![6];
        }
    }
    assert_eq!(emit_radix_two_fft(&odd, &mut empty_emitter(&odd)).unwrap_err().kind, OperationErrorKind::UnsupportedConcreteShape);
}

fn empty_emitter(request: &MaterializationRequest) -> StageEmitter {
    let base = fft_request(4, false);
    let iteration = base.inputs.iter().find(|named| named.name == "real").unwrap();
    let resolved = expand_composition(&base.descriptor, &iteration.tensor.extents, &base.parameters).unwrap();
    let ledger = GraphLedger::new(request.identity_namespace, &[], request.workspace_limit).unwrap();
    StageEmitter::new(ledger, &resolved)
}

fn exact_request(
    symbol: &'static str,
    iteration: &str,
    inputs: Vec<(String, TensorDecl)>,
    outputs: Vec<(String, TensorDecl)>,
    prepared: &[(&str, PreparedParameter)],
    limit: u64,
) -> MaterializationRequest {
    let mut built = request(symbol, iteration, inputs, outputs, prepared);
    built.identity_namespace = IdentityNamespace::new(ValueId(10_000), 10_000, KernelTemplateId(10_000), 10_000);
    built.workspace_limit = ByteCount(limit);
    built
}

fn family(node: &CalculationNode) -> &'static str {
    match &node.kind {
        PrimitiveKind::Gather(_) => "gather",
        PrimitiveKind::Elementwise => "elementwise",
        PrimitiveKind::Scatter(_) => "scatter",
        PrimitiveKind::Reduce(_) => "reduce",
        _ => "other",
    }
}

fn butterfly_request(limit: u64) -> MaterializationRequest {
    let specs = [
        ("real", DType::F32),
        ("imaginary", DType::F32),
        ("stage_0_left_indices", DType::I32),
        ("stage_0_right_indices", DType::I32),
        ("stage_0_real_from_left_real", DType::F32),
        ("stage_0_real_from_left_imaginary", DType::F32),
        ("stage_0_real_from_right_real", DType::F32),
        ("stage_0_real_from_right_imaginary", DType::F32),
        ("stage_0_imaginary_from_left_real", DType::F32),
        ("stage_0_imaginary_from_left_imaginary", DType::F32),
        ("stage_0_imaginary_from_right_real", DType::F32),
        ("stage_0_imaginary_from_right_imaginary", DType::F32),
        ("stage_0_real_base", DType::F32),
        ("stage_0_imaginary_base", DType::F32),
        ("stage_0_destination_indices", DType::I32),
    ];
    let inputs = specs
        .iter()
        .enumerate()
        .map(|(index, (name, dtype))| named(name, tensor(index as u64 + 1, *dtype, &[2])))
        .collect();
    exact_request(
        "gpu_fft_c2c_1d",
        "real",
        inputs,
        vec![
            named("transformed_real", tensor(20, DType::F32, &[2])),
            named("transformed_imaginary", tensor(21, DType::F32, &[2])),
        ],
        &[flag("fft_stage_tables_verified"), flag("fft_destination_indices_unique")],
        limit,
    )
}

#[test]
fn materializes_an_exact_length_two_complex_fft_butterfly() {
    let (ledger, stages, nodes) = run(emit_radix_two_fft, &butterfly_request(48)).unwrap();
    let families: Vec<&str> = nodes.iter().map(family).collect();
    assert_eq!(families, ["gather", "gather", "gather", "gather", "elementwise", "scatter", "scatter"]);
    assert_eq!(ledger.workspace_bytes(), ByteCount(48));
    assert_eq!(stages.len(), 3);
    let refused = run(emit_radix_two_fft, &butterfly_request(47)).unwrap_err();
    assert_eq!(refused.kind, OperationErrorKind::WorkspaceLimitExceeded);
}

#[test]
fn materializes_every_static_solver_row_without_a_host_loop() {
    let specs = [
        ("solution_base", DType::F32, 3_u64),
        ("row_0_strict_prefix", DType::F32, 3),
        ("row_0_rhs", DType::F32, 1),
        ("row_0_diagonal", DType::F32, 1),
        ("row_0_destination", DType::I32, 1),
        ("row_1_strict_prefix", DType::F32, 3),
        ("row_1_rhs", DType::F32, 1),
        ("row_1_diagonal", DType::F32, 1),
        ("row_1_destination", DType::I32, 1),
        ("row_2_strict_prefix", DType::F32, 3),
        ("row_2_rhs", DType::F32, 1),
        ("row_2_diagonal", DType::F32, 1),
        ("row_2_destination", DType::I32, 1),
    ];
    let inputs = specs
        .iter()
        .enumerate()
        .map(|(index, (name, dtype, extent))| named(name, tensor(index as u64 + 1, *dtype, &[*extent])))
        .collect();
    let solve = exact_request(
        "gpu_tri_solve",
        "solution_base",
        inputs,
        vec![named("solution", tensor(20, DType::F32, &[3]))],
        &[
            flag("solution_base_zero"),
            flag("triangular_rows_verified"),
            flag("destination_indices_unique"),
            ("tree_lanes", PreparedParameter::U64(64)),
        ],
        84,
    );
    let iteration = solve.inputs.iter().find(|named| named.name == "solution_base").unwrap();
    let resolved = expand_composition(&solve.descriptor, &iteration.tensor.extents, &solve.parameters).unwrap();
    assert_eq!(resolved.bounds[0].value, 3);
    let (ledger, stages, nodes) = run(emit_triangular_solve, &solve).unwrap();
    assert_eq!(stages.len(), 9);
    assert_eq!(ledger.workspace_bytes(), ByteCount(84));
    assert_eq!(nodes.len(), 12);
}
