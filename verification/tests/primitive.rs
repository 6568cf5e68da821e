use recipe_ops::primitive::{
    AliasPermission, AliasRule, ContractionSpec, GatherSpec, HistogramSpec, IndexMapSpec, RandomDistribution,
    ReduceOperator, ReduceResult, ReduceSpec,
    ScalarLiteral, ScanMode, ScanSpec, ScatterSpec, SortDirection, SortSpec,
};
use recipe_ops::{
    AxisRequirement, CanonicalDTypeContract, ContractionClass, DType, LoweringAvailability,
    OperationDescriptor, OperationErrorKind, OperationFamily, OperationId, PrimitiveFamily,
    PrimitiveKernel, PrimitiveKind, PrimitiveRecipe, RandomRecipe, check_index_map_lowering,
    check_primitive_lowering, check_primitive_recipe, primitive_recipe_of,
};

fn kernel(kind: PrimitiveKind, input_ranks: Vec<Option<usize>>) -> PrimitiveKernel {
    PrimitiveKernel { kind, input_ranks, alias_rules: Vec::new() }
}

fn reduce(operator: ReduceOperator, result: ReduceResult, axes: Vec<usize>) -> PrimitiveKind {
    PrimitiveKind::Reduce(ReduceSpec { operator, result, axes, keep_dimensions: false, tree_lanes: 256 })
}

fn scan(operator: ReduceOperator, mode: ScanMode, axis: usize, reverse: bool) -> PrimitiveKind {
    PrimitiveKind::Scan(ScanSpec { operator, mode, axis, reverse, tree_lanes: 32 })
}

fn descriptor(lowering: LoweringAvailability) -> OperationDescriptor {
    OperationDescriptor { id: OperationId(7), symbol: "gpu_dot", source: "gpu-core/src/kernels.rs:1", lowering }
}

#[test]
fn legacy_symbols_resolve_to_their_recipes() {
    assert_eq!(
        PrimitiveRecipe::for_symbol("gpu_dot"),
        Some(PrimitiveRecipe::Contraction(ContractionClass::Vector))
    );
    assert_eq!(
        PrimitiveRecipe::for_symbol("gpu_argmax_rows"),
        Some(PrimitiveRecipe::Reduce {
            operator: ReduceOperator::Maximum,
            result: ReduceResult::Index,
            axes: AxisRequirement::Last,
        })
    );
    assert_eq!(
        PrimitiveRecipe::for_symbol("gpu_prefix_sum_exclusive"),
        Some(PrimitiveRecipe::Scan { operator: ReduceOperator::Sum, exclusive: true, axis: AxisRequirement::Any })
    );
    assert_eq!(
        PrimitiveRecipe::for_symbol("gpu_sort"),
        Some(PrimitiveRecipe::Sort {
            direction: SortDirection::Ascending,
            stable: false,
            axis: AxisRequirement::All,
        })
    );
    assert_eq!(PrimitiveRecipe::for_symbol("gpu_randn"), Some(PrimitiveRecipe::Random(RandomRecipe::NormalF32)));
    assert_eq!(
        PrimitiveRecipe::for_symbol("gpu_gemm_bt_into"),
        Some(PrimitiveRecipe::Contraction(ContractionClass::RightTransposedMatrix))
    );
    assert_eq!(PrimitiveRecipe::for_symbol("gpu_sum_all").map(PrimitiveRecipe::family), Some(PrimitiveFamily::Reduce));
    assert_eq!(PrimitiveRecipe::for_symbol("gpu_fft_c2c_1d"), None);
    assert_eq!(PrimitiveRecipe::for_symbol(""), None);
}

#[test]
fn recipe_families_and_operation_families() {
    let scatter = PrimitiveRecipe::ScatterAdd { axis: AxisRequirement::First };
    assert_eq!(scatter.family(), PrimitiveFamily::Scatter);
    assert_eq!(scatter.operation_family(), OperationFamily::ShapeAndIndexing);
    assert_eq!(PrimitiveRecipe::IndexMap.family(), PrimitiveFamily::IndexMap);
    assert_eq!(PrimitiveRecipe::IndexMap.operation_family(), OperationFamily::ShapeAndIndexing);
    let sum = PrimitiveRecipe::Reduce {
        operator: ReduceOperator::Sum,
        result: ReduceResult::Value,
        axes: AxisRequirement::All,
    };
    assert_eq!(sum.operation_family(), OperationFamily::Reduction);
    assert_eq!(
        PrimitiveRecipe::Random(RandomRecipe::UniformF32).operation_family(),
        OperationFamily::Random
    );
    assert_eq!(
        PrimitiveRecipe::Contraction(ContractionClass::Batched).operation_family(),
        OperationFamily::Contraction
    );
}

#[test]
fn dtype_contracts_name_exact_payloads() {
    let argmax = PrimitiveRecipe::Reduce {
        operator: ReduceOperator::Maximum,
        result: ReduceResult::Index,
        axes: AxisRequirement::Last,
    };
    assert_eq!(
        argmax.dtype_contract(),
        CanonicalDTypeContract::Exact { inputs: vec![DType::F32], outputs: vec![DType::I32] }
    );
    let both = PrimitiveRecipe::Reduce {
        operator: ReduceOperator::Maximum,
        result: ReduceResult::ValueAndIndex,
        axes: AxisRequirement::Last,
    };
    assert_eq!(
        both.dtype_contract(),
        CanonicalDTypeContract::Exact { inputs: vec![DType::F32], outputs: vec![DType::F32, DType::I32] }
    );
    assert_eq!(
        PrimitiveRecipe::ScatterAdd { axis: AxisRequirement::First }.dtype_contract(),
        CanonicalDTypeContract::Exact {
            inputs: vec![DType::F32, DType::I32, DType::F32],
            outputs: vec![DType::F32],
        }
    );
    assert_eq!(
        PrimitiveRecipe::IndexMap.dtype_contract(),
        CanonicalDTypeContract::Exact { inputs: vec![], outputs: vec![DType::I32] }
    );
    assert_eq!(
        PrimitiveRecipe::Gather { axis: AxisRequirement::First }.dtype_contract(),
        CanonicalDTypeContract::Exact { inputs: vec![DType::F32, DType::I32], outputs: vec![DType::F32] }
    );
}

#[test]
fn definitions_describe_each_recipe() {
    let exclusive = PrimitiveRecipe::Scan { operator: ReduceOperator::Sum, exclusive: true, axis: AxisRequirement::Any };
    assert_eq!(exclusive.definition(), "fixed-tree exclusive binary32 prefix sum");
    let argmin = PrimitiveRecipe::Reduce {
        operator: ReduceOperator::Minimum,
        result: ReduceResult::Index,
        axes: AxisRequirement::Last,
    };
    assert_eq!(argmin.definition(), "fixed-tree binary32 argmin reduction yielding int32");
    let any = PrimitiveRecipe::Reduce { operator: ReduceOperator::Any, result: ReduceResult::Value, axes: AxisRequirement::All };
    assert_eq!(any.definition(), "typed fixed-tree reduction");
    let stable = PrimitiveRecipe::Sort { direction: SortDirection::Descending, stable: true, axis: AxisRequirement::Any };
    assert_eq!(stable.definition(), "stable descending binary32 sort");
    assert_eq!(
        PrimitiveRecipe::Random(RandomRecipe::UniformF32).definition(),
        "counter-based Philox4x32-10 uniform binary32 map"
    );
}

#[test]
fn reduction_axes_follow_the_requirement() {
    let all = PrimitiveRecipe::Reduce { operator: ReduceOperator::Sum, result: ReduceResult::Value, axes: AxisRequirement::All };
    assert!(all.matches(&kernel(reduce(ReduceOperator::Sum, ReduceResult::Value, vec![0, 1]), vec![Some(2)])));
    assert!(!all.matches(&kernel(reduce(ReduceOperator::Sum, ReduceResult::Value, vec![1, 0]), vec![Some(2)])));
    assert!(!all.matches(&kernel(reduce(ReduceOperator::Sum, ReduceResult::Value, vec![0]), vec![Some(2)])));
    assert!(!all.matches(&kernel(reduce(ReduceOperator::Sum, ReduceResult::Value, vec![0, 1]), vec![None])));
    assert!(!all.matches(&kernel(reduce(ReduceOperator::Maximum, ReduceResult::Value, vec![0, 1]), vec![Some(2)])));
    let last = PrimitiveRecipe::Reduce { operator: ReduceOperator::Sum, result: ReduceResult::Value, axes: AxisRequirement::Last };
    assert!(last.matches(&kernel(reduce(ReduceOperator::Sum, ReduceResult::Value, vec![2]), vec![Some(3)])));
    assert!(!last.matches(&kernel(reduce(ReduceOperator::Sum, ReduceResult::Value, vec![1]), vec![Some(3)])));
    assert!(last.matches(&kernel(reduce(ReduceOperator::Sum, ReduceResult::Value, vec![0]), vec![Some(0)])));
    assert!(!last.matches(&kernel(reduce(ReduceOperator::Sum, ReduceResult::Value, vec![0]), vec![])));
    let first = PrimitiveRecipe::Reduce { operator: ReduceOperator::Sum, result: ReduceResult::Value, axes: AxisRequirement::First };
    assert!(first.matches(&kernel(reduce(ReduceOperator::Sum, ReduceResult::Value, vec![0]), vec![])));
    let any = PrimitiveRecipe::Reduce { operator: ReduceOperator::Sum, result: ReduceResult::Value, axes: AxisRequirement::Any };
    assert!(any.matches(&kernel(reduce(ReduceOperator::Sum, ReduceResult::Value, vec![3, 1]), vec![])));
    assert!(!any.matches(&kernel(reduce(ReduceOperator::Sum, ReduceResult::Value, vec![]), vec![])));
    assert!(!any.matches(&kernel(PrimitiveKind::Histogram(HistogramSpec { bins: 4, weighted: false }), vec![])));
}

#[test]
fn scans_require_canonical_identities() {
    let exclusive_sum = PrimitiveRecipe::Scan { operator: ReduceOperator::Sum, exclusive: true, axis: AxisRequirement::Any };
    let zero = ScanMode::Exclusive { identity: ScalarLiteral::F32Bits(0) };
    let one = ScanMode::Exclusive { identity: ScalarLiteral::F32Bits(0x3f80_0000) };
    assert!(exclusive_sum.matches(&kernel(scan(ReduceOperator::Sum, zero, 4, false), vec![])));
    assert!(!exclusive_sum.matches(&kernel(scan(ReduceOperator::Sum, one, 4, false), vec![])));
    assert!(!exclusive_sum.matches(&kernel(scan(ReduceOperator::Sum, zero, 4, true), vec![])));
    assert!(!exclusive_sum.matches(&kernel(
        scan(ReduceOperator::Sum, ScanMode::Exclusive { identity: ScalarLiteral::I32(0) }, 4, false),
        vec![]
    )));
    assert!(!exclusive_sum.matches(&kernel(scan(ReduceOperator::Sum, ScanMode::Inclusive, 4, false), vec![])));
    let exclusive_product = PrimitiveRecipe::Scan { operator: ReduceOperator::Product, exclusive: true, axis: AxisRequirement::Any };
    assert!(exclusive_product.matches(&kernel(scan(ReduceOperator::Product, one, 0, false), vec![])));
    let cumulative_max = PrimitiveRecipe::Scan { operator: ReduceOperator::Maximum, exclusive: true, axis: AxisRequirement::Any };
    assert!(!cumulative_max.matches(&kernel(scan(ReduceOperator::Maximum, zero, 0, false), vec![])));
    let rows = PrimitiveRecipe::Scan { operator: ReduceOperator::Sum, exclusive: false, axis: AxisRequirement::Last };
    assert!(rows.matches(&kernel(scan(ReduceOperator::Sum, ScanMode::Inclusive, 1, false), vec![Some(2)])));
    assert!(!rows.matches(&kernel(scan(ReduceOperator::Sum, ScanMode::Inclusive, 0, false), vec![Some(2)])));
    let whole = PrimitiveRecipe::Scan { operator: ReduceOperator::Sum, exclusive: false, axis: AxisRequirement::All };
    assert!(whole.matches(&kernel(scan(ReduceOperator::Sum, ScanMode::Inclusive, 0, false), vec![Some(1)])));
    assert!(!whole.matches(&kernel(scan(ReduceOperator::Sum, ScanMode::Inclusive, 0, false), vec![Some(2)])));
}

#[test]
fn contractions_check_operand_ranks_and_axis_pairs() {
    let matrix = PrimitiveRecipe::Contraction(ContractionClass::Matrix);
    let spec = |batch: Vec<(usize, usize)>, contract: Vec<(usize, usize)>| {
        PrimitiveKind::Contraction(ContractionSpec { batch_axes: batch, contract_axes: contract })
    };
    assert!(matrix.matches(&kernel(spec(vec![], vec![(1, 0)]), vec![Some(2), Some(2)])));
    assert!(!matrix.matches(&kernel(spec(vec![], vec![(0, 0)]), vec![Some(2), Some(2)])));
    assert!(!matrix.matches(&kernel(spec(vec![], vec![(1, 0)]), vec![Some(2), None])));
    assert!(!matrix.matches(&kernel(spec(vec![], vec![(1, 0)]), vec![Some(2)])));
    assert!(!matrix.matches(&kernel(spec(vec![(0, 0)], vec![(1, 0)]), vec![Some(2), Some(2)])));
    let left = PrimitiveRecipe::Contraction(ContractionClass::LeftTransposedMatrix);
    assert!(left.matches(&kernel(spec(vec![], vec![(0, 0)]), vec![Some(2), Some(2)])));
    let vector = PrimitiveRecipe::Contraction(ContractionClass::Vector);
    assert!(vector.matches(&kernel(spec(vec![], vec![(0, 0)]), vec![Some(1), Some(1)])));
    assert!(!vector.matches(&kernel(spec(vec![], vec![(0, 0), (0, 0)]), vec![Some(1), Some(1)])));
    let batched = PrimitiveRecipe::Contraction(ContractionClass::Batched);
    assert!(batched.matches(&kernel(spec(vec![(0, 0)], vec![(2, 1)]), vec![Some(3), Some(4)])));
    assert!(!batched.matches(&kernel(spec(vec![], vec![(2, 1)]), vec![Some(3), Some(4)])));
    assert!(!batched.matches(&kernel(spec(vec![(0, 0)], vec![(2, 1)]), vec![Some(2), Some(4)])));
}

#[test]
fn gathers_scatters_sorts_and_random_maps() {
    let gather = PrimitiveRecipe::Gather { axis: AxisRequirement::First };
    assert!(gather.matches(&kernel(PrimitiveKind::Gather(GatherSpec { axis: 0, rejects_out_of_bounds: true }), vec![])));
    assert!(!gather.matches(&kernel(PrimitiveKind::Gather(GatherSpec { axis: 0, rejects_out_of_bounds: false }), vec![])));
    assert!(!gather.matches(&kernel(PrimitiveKind::Gather(GatherSpec { axis: 1, rejects_out_of_bounds: true }), vec![])));

    let scatter = PrimitiveRecipe::ScatterAdd { axis: AxisRequirement::First };
    let scatter_kind = PrimitiveKind::Scatter(ScatterSpec { axis: 0, rejects_out_of_bounds: true, atomic_add: true });
    let aliased = PrimitiveKernel {
        kind: scatter_kind.clone(),
        input_ranks: vec![],
        alias_rules: vec![
            AliasRule { input: 1, output: 0, permission: AliasPermission::MustAliasExact },
            AliasRule { input: 0, output: 0, permission: AliasPermission::MustAliasExact },
        ],
    };
    assert!(scatter.matches(&aliased));
    let unaliased = PrimitiveKernel {
        kind: scatter_kind,
        input_ranks: vec![],
        alias_rules: vec![AliasRule { input: 0, output: 0, permission: AliasPermission::Forbidden }],
    };
    assert!(!scatter.matches(&unaliased));

    let sort = PrimitiveRecipe::Sort { direction: SortDirection::Ascending, stable: false, axis: AxisRequirement::All };
    let sort_kind = |emit_indices: bool, axis: usize| {
        PrimitiveKind::Sort(SortSpec { direction: SortDirection::Ascending, stable: false, axis, emit_indices })
    };
    assert!(sort.matches(&kernel(sort_kind(false, 0), vec![Some(1)])));
    assert!(!sort.matches(&kernel(sort_kind(true, 0), vec![Some(1)])));
    assert!(!sort.matches(&kernel(sort_kind(false, 0), vec![Some(2)])));

    let uniform = PrimitiveRecipe::Random(RandomRecipe::UniformF32);
    assert!(uniform.matches(&kernel(PrimitiveKind::Random(RandomDistribution::UniformF32), vec![])));
    assert!(!uniform.matches(&kernel(PrimitiveKind::Random(RandomDistribution::NormalF32), vec![])));
    assert!(PrimitiveRecipe::IndexMap.matches(&kernel(PrimitiveKind::IndexMap(IndexMapSpec { start: 0, element_step: 1, iteration_step: 0, modulus: None }), vec![])));
    assert!(!PrimitiveRecipe::IndexMap.matches(&kernel(PrimitiveKind::Elementwise, vec![])));
}

#[test]
fn primitive_lowering_checks_descriptor_then_kernel() {
    let dot = PrimitiveRecipe::Contraction(ContractionClass::Vector);
    let good = kernel(
        PrimitiveKind::Contraction(ContractionSpec { batch_axes: vec![], contract_axes: vec![(0, 0)] }),
        vec![Some(1), Some(1)],
    );
    let bad = kernel(PrimitiveKind::IndexMap(IndexMapSpec { start: 0, element_step: 1, iteration_step: 0, modulus: None }), vec![]);
    assert_eq!(primitive_recipe_of(&descriptor(LoweringAvailability::Primitive(dot))), Ok(dot));
    assert_eq!(check_primitive_lowering(&descriptor(LoweringAvailability::Primitive(dot)), &good), Ok(dot));
    let mismatch = check_primitive_lowering(&descriptor(LoweringAvailability::Primitive(dot)), &bad).unwrap_err();
    assert_eq!(mismatch.kind, OperationErrorKind::PrimitiveRecipeMismatch);
    assert_eq!(mismatch.operation, Some(OperationId(7)));
    assert_eq!(mismatch.detail, "binary32 vector contraction");
    let unsupported = check_primitive_lowering(&descriptor(LoweringAvailability::Unsupported), &good).unwrap_err();
    assert_eq!(unsupported.kind, OperationErrorKind::UnsupportedLowering);
    assert_eq!(unsupported.operation, Some(OperationId(7)));
    let scalar = check_primitive_lowering(&descriptor(LoweringAvailability::Scalar), &good).unwrap_err();
    assert_eq!(scalar.kind, OperationErrorKind::WrongLoweringKind);
    assert_eq!(scalar.operation, Some(OperationId(7)));
    let unowned = check_primitive_recipe(dot, &bad).unwrap_err();
    assert_eq!(unowned.kind, OperationErrorKind::PrimitiveRecipeMismatch);
    assert_eq!(unowned.operation, None);
    assert_eq!(check_index_map_lowering(&bad), Ok(()));
    assert_eq!(check_index_map_lowering(&good).unwrap_err().kind, OperationErrorKind::PrimitiveRecipeMismatch);
}
