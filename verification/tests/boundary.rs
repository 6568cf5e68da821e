use recipe_ops::boundary::{insert_boundary, require_scalar_output, validate_boundary_storage, validate_f32_matrix};
use recipe_ops::{ByteCount, DType, OperationErrorKind, TensorDecl, ValueId};

fn tensor(id: u64, dtype: DType, extents: &[u64]) -> TensorDecl {
    TensorDecl {
        id: ValueId(id),
        dtype,
        extents: extents.to_vec(),
        storage_bytes: ByteCount(extents.iter().product::<u64>() * 4),
        external_input: true,
        external_output: false,
    }
}

#[test]
fn caller_graph_declares_every_boundary_tensor() {
    let graph = vec![tensor(1, DType::F32, &[4]), tensor(2, DType::I32, &[4]), tensor(3, DType::F32, &[1])];
    assert_eq!(validate_boundary_storage(&graph, &vec![&tensor(3, DType::F32, &[1]), &tensor(1, DType::F32, &[4])]), Ok(()));
    assert_eq!(validate_boundary_storage(&graph, &vec![]), Ok(()));
    let missing = validate_boundary_storage(&graph, &vec![&tensor(9, DType::F32, &[4])]).unwrap_err();
    assert_eq!(missing.kind, OperationErrorKind::InvalidMaterializationRequest);
    let differs = validate_boundary_storage(&graph, &vec![&tensor(2, DType::F32, &[4])]).unwrap_err();
    assert_eq!(differs.kind, OperationErrorKind::InvalidMaterializationRequest);
    let reshaped = validate_boundary_storage(&graph, &vec![&tensor(1, DType::F32, &[2, 2])]).unwrap_err();
    assert_eq!(reshaped.kind, OperationErrorKind::InvalidMaterializationRequest);
    let repeated = vec![tensor(1, DType::F32, &[4]), tensor(1, DType::F32, &[4])];
    let error = validate_boundary_storage(&repeated, &vec![&tensor(1, DType::F32, &[4])]).unwrap_err();
    assert_eq!(error.kind, OperationErrorKind::GraphMaterializationFailed);
}

#[test]
fn boundaries_are_recorded_once_per_identity() {
    let mut boundaries = Vec::new();
    assert_eq!(insert_boundary(&mut boundaries, tensor(1, DType::F32, &[4])), Ok(()));
    assert_eq!(insert_boundary(&mut boundaries, tensor(2, DType::F32, &[4])), Ok(()));
    assert_eq!(insert_boundary(&mut boundaries, tensor(1, DType::F32, &[4])), Ok(()));
    assert_eq!(boundaries.len(), 2);
    let conflict = insert_boundary(&mut boundaries, tensor(2, DType::I32, &[4])).unwrap_err();
    assert_eq!(conflict.kind, OperationErrorKind::InvalidMaterializationRequest);
    assert_eq!(boundaries.len(), 2);
    assert_eq!(boundaries[1].dtype, DType::F32);
}

#[test]
fn scalar_outputs_and_matrices() {
    assert_eq!(require_scalar_output(&tensor(1, DType::F32, &[1])), Ok(()));
    assert_eq!(
        require_scalar_output(&tensor(1, DType::I32, &[1])).unwrap_err().kind,
        OperationErrorKind::InvalidMaterializationRequest
    );
    assert_eq!(
        require_scalar_output(&tensor(1, DType::F32, &[1, 1])).unwrap_err().kind,
        OperationErrorKind::UnsupportedConcreteShape
    );
    assert_eq!(validate_f32_matrix(&tensor(1, DType::F32, &[3, 2])), Ok(()));
    assert_eq!(
        validate_f32_matrix(&tensor(1, DType::F32, &[6])).unwrap_err().kind,
        OperationErrorKind::InvalidMaterializationRequest
    );
    assert_eq!(
        validate_f32_matrix(&tensor(1, DType::Bool, &[3, 2])).unwrap_err().kind,
        OperationErrorKind::InvalidMaterializationRequest
    );
}
