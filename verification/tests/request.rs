use recipe_ops::{
    ByteCount, DType, IdentityNamespace, KernelTemplateId, LoweringAvailability, MaterializationRequest,
    NamedTensor, OperationDescriptor, OperationErrorKind, OperationId, PreparedParameter,
    PreparedParameters, TensorDecl, ValueId, composition_for_entry,
};

fn tensor(id: u64, dtype: DType, extents: &[u64], input: bool) -> TensorDecl {
    TensorDecl {
        id: ValueId(id),
        dtype,
        extents: extents.to_vec(),
        storage_bytes: ByteCount(extents.iter().product::<u64>() * dtype.byte_width()),
        external_input: input,
        external_output: !input,
    }
}

fn named(name: &str, tensor: TensorDecl) -> NamedTensor {
    NamedTensor::new(name.to_owned(), tensor)
}

fn structured() -> OperationDescriptor {
    OperationDescriptor {
        id: OperationId(3),
        symbol: "gpu_fft_c2c_1d",
        source: "gpu-core/src/fft.rs:1",
        lowering: LoweringAvailability::Composition(
            composition_for_entry("gpu_fft_c2c_1d", "gpu-core/src/fft.rs:1").unwrap(),
        ),
    }
}

fn parameters(values: &[(&str, PreparedParameter)]) -> PreparedParameters {
    let mut parameters = PreparedParameters::new();
    for (name, value) in values {
        parameters.insert((*name).to_owned(), *value);
    }
    parameters
}

fn request(inputs: Vec<NamedTensor>, outputs: Vec<NamedTensor>, prepared: PreparedParameters) -> MaterializationRequest {
    MaterializationRequest::new(
        structured(),
        inputs,
        outputs,
        "values".to_owned(),
        prepared,
        IdentityNamespace::new(ValueId(10_000), 100, KernelTemplateId(10_000), 100),
        ByteCount(1 << 20),
    )
}

fn simple() -> MaterializationRequest {
    request(
        vec![named("values", tensor(1, DType::F32, &[4, 3], true)), named("labels", tensor(2, DType::F32, &[4], true))],
        vec![named("losses", tensor(3, DType::F32, &[4], false))],
        parameters(&[
            ("tree_lanes", PreparedParameter::U64(256)),
            ("causal", PreparedParameter::Bool(true)),
            ("masked", PreparedParameter::Bool(false)),
            ("scale", PreparedParameter::F32Bits(0x3f80_0000)),
            ("axis", PreparedParameter::U64(1)),
        ]),
    )
}

fn kind<T: std::fmt::Debug>(result: Result<T, recipe_ops::OperationError>) -> OperationErrorKind {
    let error = result.unwrap_err();
    assert_eq!(error.operation, Some(OperationId(3)));
    error.kind
}

#[test]
fn well_formed_request_validates() {
    assert_eq!(simple().validate_request(), Ok(()));
}

#[test]
fn request_boundary_defects_are_refused() {
    let empty_outputs = request(vec![named("values", tensor(1, DType::F32, &[4], true))], vec![], PreparedParameters::new());
    assert_eq!(kind(empty_outputs.validate_request()), OperationErrorKind::InvalidMaterializationRequest);

    let duplicate_name = request(
        vec![named("values", tensor(1, DType::F32, &[4], true))],
        vec![named("values", tensor(2, DType::F32, &[4], false))],
        PreparedParameters::new(),
    );
    assert_eq!(kind(duplicate_name.validate_request()), OperationErrorKind::InvalidMaterializationRequest);

    let duplicate_id = request(
        vec![named("a", tensor(1, DType::F32, &[4], true)), named("b", tensor(1, DType::F32, &[4], true))],
        vec![named("c", tensor(2, DType::F32, &[4], false))],
        PreparedParameters::new(),
    );
    assert_eq!(kind(duplicate_id.validate_request()), OperationErrorKind::InvalidMaterializationRequest);

    let unnamed = request(
        vec![named("", tensor(1, DType::F32, &[4], true))],
        vec![named("c", tensor(2, DType::F32, &[4], false))],
        PreparedParameters::new(),
    );
    assert_eq!(kind(unnamed.validate_request()), OperationErrorKind::InvalidMaterializationRequest);

    let internal_input = request(
        vec![named("a", tensor(1, DType::F32, &[4], false))],
        vec![named("c", tensor(2, DType::F32, &[4], false))],
        PreparedParameters::new(),
    );
    assert_eq!(kind(internal_input.validate_request()), OperationErrorKind::InvalidMaterializationRequest);

    let mut input_output = tensor(2, DType::F32, &[4], false);
    input_output.external_input = true;
    let aliased_output = request(
        vec![named("a", tensor(1, DType::F32, &[4], true))],
        vec![named("c", input_output)],
        PreparedParameters::new(),
    );
    assert_eq!(kind(aliased_output.validate_request()), OperationErrorKind::InvalidMaterializationRequest);

    let mut unstructured = simple();
    unstructured.descriptor.lowering = LoweringAvailability::Scalar;
    assert_eq!(kind(unstructured.validate_request()), OperationErrorKind::WrongLoweringKind);
}

#[test]
fn exact_abi_compares_name_sets() {
    let request = simple();
    assert_eq!(
        request.require_exact_abi(
            &["labels", "values"],
            &["losses"],
            &["axis", "scale", "masked", "causal", "tree_lanes"],
        ),
        Ok(())
    );
    assert_eq!(
        kind(request.require_exact_abi(&["values"], &["losses"], &["axis", "scale", "masked", "causal", "tree_lanes"])),
        OperationErrorKind::InvalidMaterializationRequest
    );
    assert_eq!(
        kind(request.require_exact_abi(&["labels", "values"], &["losses", "extra"], &[
            "axis", "scale", "masked", "causal", "tree_lanes",
        ])),
        OperationErrorKind::InvalidMaterializationRequest
    );
    assert_eq!(
        kind(request.require_exact_abi(&["labels", "values"], &["losses"], &["axis"])),
        OperationErrorKind::InvalidMaterializationRequest
    );
}

#[test]
fn named_tensors_are_looked_up_by_name() {
    let request = simple();
    assert_eq!(request.input("labels").unwrap().id, ValueId(2));
    assert_eq!(request.output("losses").unwrap().id, ValueId(3));
    assert_eq!(kind(request.input("losses")), OperationErrorKind::InvalidMaterializationRequest);
    assert_eq!(kind(request.output("values")), OperationErrorKind::InvalidMaterializationRequest);
}

#[test]
fn tensor_contract_checks() {
    let request = simple();
    let values = request.input("values").unwrap();
    let labels = request.input("labels").unwrap();
    assert_eq!(request.require_dtype(values, DType::F32), Ok(()));
    assert_eq!(kind(request.require_dtype(values, DType::I32)), OperationErrorKind::InvalidMaterializationRequest);
    assert_eq!(request.require_shape(values, &[4, 3]), Ok(()));
    assert_eq!(kind(request.require_shape(values, &[3, 4])), OperationErrorKind::UnsupportedConcreteShape);
    assert_eq!(kind(request.require_shape(values, &[4])), OperationErrorKind::UnsupportedConcreteShape);
    assert_eq!(request.require_same_tensor_contract(values, values), Ok(()));
    assert_eq!(
        kind(request.require_same_tensor_contract(values, labels)),
        OperationErrorKind::InvalidMaterializationRequest
    );
    assert_eq!(request.require_f32_shape(labels, &[4]), Ok(()));
    let codes = tensor(9, DType::I32, &[4], true);
    assert_eq!(kind(request.require_f32_shape(&codes, &[4])), OperationErrorKind::InvalidMaterializationRequest);
    assert_eq!(kind(request.require_f32_shape(labels, &[5])), OperationErrorKind::UnsupportedConcreteShape);
}

#[test]
fn prepared_values_are_typed() {
    let request = simple();
    assert_eq!(request.prepared_u64("axis"), Ok(1));
    assert_eq!(kind(request.prepared_u64("causal")), OperationErrorKind::PreparedParameterTypeMismatch);
    assert_eq!(kind(request.prepared_u64("missing")), OperationErrorKind::MissingPreparedParameter);
    assert_eq!(request.prepared_bool("masked"), Ok(false));
    assert_eq!(kind(request.prepared_bool("scale")), OperationErrorKind::PreparedParameterTypeMismatch);
    assert_eq!(request.require_true("causal"), Ok(()));
    assert_eq!(kind(request.require_true("masked")), OperationErrorKind::InvalidMaterializationRequest);
    assert_eq!(kind(request.require_true("axis")), OperationErrorKind::PreparedParameterTypeMismatch);
    assert_eq!(kind(request.require_true("missing")), OperationErrorKind::MissingPreparedParameter);
    assert_eq!(request.prepared_axis("axis"), Ok(1));
    assert_eq!(kind(request.prepared_axis("scale")), OperationErrorKind::PreparedParameterTypeMismatch);
    assert_eq!(request.prepared_tree_lanes(), Ok(256));
}

#[test]
fn tree_lanes_must_be_a_power_of_two_up_to_1024() {
    for (lanes, accepted) in [(1, true), (2, true), (1024, true), (0, false), (3, false), (768, false), (2048, false), (1 << 32, false)] {
        let request = request(
            vec![named("values", tensor(1, DType::F32, &[4], true))],
            vec![named("out", tensor(2, DType::F32, &[4], false))],
            parameters(&[("tree_lanes", PreparedParameter::U64(lanes))]),
        );
        match request.prepared_tree_lanes() {
            Ok(value) => {
                assert!(accepted, "{lanes} accepted");
                assert_eq!(u64::from(value), lanes);
            }
            Err(error) => {
                assert!(!accepted, "{lanes} refused");
                assert_eq!(error.kind, OperationErrorKind::InvalidMaterializationRequest);
            }
        }
    }
    let missing = request(
        vec![named("values", tensor(1, DType::F32, &[4], true))],
        vec![named("out", tensor(2, DType::F32, &[4], false))],
        PreparedParameters::new(),
    );
    assert_eq!(kind(missing.prepared_tree_lanes()), OperationErrorKind::MissingPreparedParameter);
}

#[test]
fn iteration_input_must_name_the_shape_tensor() {
    let request = simple();
    assert_eq!(request.require_iteration_input("values"), Ok(()));
    assert_eq!(kind(request.require_iteration_input("labels")), OperationErrorKind::InvalidMaterializationRequest);
}

#[test]
fn matrices_and_element_counts() {
    let request = simple();
    let matrix = tensor(1, DType::F32, &[4, 3], true);
    assert_eq!(request.require_nonempty_f32(&matrix), Ok(()));
    assert_eq!(kind(request.require_nonempty_f32(&tensor(1, DType::F32, &[4, 0], true))), OperationErrorKind::InvalidMaterializationRequest);
    assert_eq!(
        kind(request.require_nonempty_f32(&tensor(1, DType::F32, &[65_536, 32_768], true))),
        OperationErrorKind::InvalidMaterializationRequest
    );
    assert_eq!(request.require_nonempty_f32(&tensor(1, DType::F32, &[2_147_483_647], true)), Ok(()));
    assert_eq!(request.require_f32_matrix(&matrix), Ok((4, 3)));
    assert_eq!(request.require_f32_matrix(&tensor(1, DType::F32, &[0, 3], true)), Ok((0, 3)));
    assert_eq!(kind(request.require_f32_matrix(&tensor(1, DType::F32, &[12], true))), OperationErrorKind::InvalidMaterializationRequest);
    assert_eq!(request.require_nonempty_f32_matrix(&matrix), Ok((4, 3)));
    assert_eq!(kind(request.require_nonempty_f32_matrix(&tensor(1, DType::F32, &[0, 3], true))), OperationErrorKind::InvalidMaterializationRequest);
    assert_eq!(kind(request.require_nonempty_f32_matrix(&tensor(1, DType::I32, &[4, 3], true))), OperationErrorKind::InvalidMaterializationRequest);
}

#[test]
fn normalization_divisors_must_be_exact_in_binary32() {
    let request = simple();
    assert_eq!(request.exact_f32_extent(16_777_216), Ok(16_777_216));
    assert_eq!(kind(request.exact_f32_extent(16_777_217)), OperationErrorKind::UnsupportedConcreteShape);
    assert_eq!(request.normalization_matrix(&tensor(1, DType::F32, &[4, 3], true)), Ok((4, 3)));
    assert_eq!(kind(request.normalization_matrix(&tensor(1, DType::I32, &[4, 3], true))), OperationErrorKind::InvalidMaterializationRequest);
    assert_eq!(kind(request.normalization_matrix(&tensor(1, DType::F32, &[12], true))), OperationErrorKind::UnsupportedConcreteShape);
    assert_eq!(kind(request.normalization_matrix(&tensor(1, DType::F32, &[0, 3], true))), OperationErrorKind::UnsupportedConcreteShape);
    assert_eq!(kind(request.normalization_matrix(&tensor(1, DType::F32, &[16_777_217, 1], true))), OperationErrorKind::UnsupportedConcreteShape);
}

#[test]
fn paired_loss_tensors_share_the_row_count() {
    let request = simple();
    let left = tensor(1, DType::F32, &[5, 2], true);
    let right = tensor(2, DType::F32, &[5, 2], true);
    let labels = tensor(3, DType::F32, &[5], true);
    let losses = tensor(4, DType::F32, &[5], false);
    assert_eq!(request.require_paired_loss_tensors(&left, &right, &labels, &losses), Ok((5, 2)));
    let narrow = tensor(2, DType::F32, &[5, 1], true);
    assert_eq!(
        kind(request.require_paired_loss_tensors(&left, &narrow, &labels, &losses)),
        OperationErrorKind::InvalidMaterializationRequest
    );
    let short = tensor(3, DType::F32, &[4], true);
    assert_eq!(
        kind(request.require_paired_loss_tensors(&left, &right, &short, &losses)),
        OperationErrorKind::InvalidMaterializationRequest
    );
}
