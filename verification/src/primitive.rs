//! Direct primitive recipes: the static shape of each legacy primitive
//! entrypoint and the check that a caller-supplied kernel satisfies it
//! before it is handed to the primitive lowering.
use vstd::prelude::*;

use crate::error::{OperationError, OperationErrorKind, OperationResult};
use crate::registry::{LoweringAvailability, OperationDescriptor};
use crate::text::text_eq;
use crate::types::{CanonicalDTypeContract, DType, OperationFamily, PrimitiveFamily};

verus! {

/// Static axis relationship retained from a legacy operation name.
#[derive(Clone, Copy, Debug, PartialEq, Eq, Structural)]
pub enum AxisRequirement {
    Any,
    First,
    Last,
    All,
}

/// Shape class required by a contraction entrypoint.
#[derive(Clone, Copy, Debug, PartialEq, Eq, Structural)]
pub enum ContractionClass {
    Vector,
    Matrix,
    LeftTransposedMatrix,
    RightTransposedMatrix,
    Batched,
}

/// Random distribution family whose concrete parameters are fixed in the
/// supplied primitive kernel.
#[derive(Clone, Copy, Debug, PartialEq, Eq, Structural)]
pub enum RandomRecipe {
    UniformF32,
    NormalF32,
}

/// Combining operator of a reduction or scan kernel.
#[derive(Clone, Copy, Debug, PartialEq, Eq, Structural)]
pub enum ReduceOperator {
    Sum,
    Product,
    Minimum,
    Maximum,
    Any,
    All,
}

/// What a reduction kernel yields.
#[derive(Clone, Copy, Debug, PartialEq, Eq, Structural)]
pub enum ReduceResult {
    Value,
    Index,
    ValueAndIndex,
}

/// Order of a sort kernel.
#[derive(Clone, Copy, Debug, PartialEq, Eq, Structural)]
pub enum SortDirection {
    Ascending,
    Descending,
}

/// An executable primitive recipe. Shape-dependent parameters such as axes,
/// extents, random keys and bounds policies remain explicit in the
/// caller-supplied kernel.
#[derive(Clone, Copy, Debug, PartialEq, Eq, Structural)]
pub enum PrimitiveRecipe {
    Reduce { operator: ReduceOperator, result: ReduceResult, axes: AxisRequirement },
    Scan { operator: ReduceOperator, exclusive: bool, axis: AxisRequirement },
    Contraction(ContractionClass),
    Gather { axis: AxisRequirement },
    ScatterAdd { axis: AxisRequirement },
    Sort { direction: SortDirection, stable: bool, axis: AxisRequirement },
    IndexMap,
    Random(RandomRecipe),
}

/// The primitive family a recipe lowers to.
pub open spec fn recipe_family(recipe: PrimitiveRecipe) -> PrimitiveFamily {
    match recipe {
        PrimitiveRecipe::Reduce { .. } => PrimitiveFamily::Reduce,
        PrimitiveRecipe::Scan { .. } => PrimitiveFamily::Scan,
        PrimitiveRecipe::Contraction(_) => PrimitiveFamily::Contraction,
        PrimitiveRecipe::Gather { .. } => PrimitiveFamily::Gather,
        PrimitiveRecipe::ScatterAdd { .. } => PrimitiveFamily::Scatter,
        PrimitiveRecipe::Sort { .. } => PrimitiveFamily::Sort,
        PrimitiveRecipe::IndexMap => PrimitiveFamily::IndexMap,
        PrimitiveRecipe::Random(_) => PrimitiveFamily::Random,
    }
}

/// The operation family a primitive family belongs to.
pub open spec fn primitive_operation_family(family: PrimitiveFamily) -> OperationFamily {
    match family {
        PrimitiveFamily::Elementwise => OperationFamily::Elementwise,
        PrimitiveFamily::Reduce => OperationFamily::Reduction,
        PrimitiveFamily::Scan => OperationFamily::Scan,
        PrimitiveFamily::Contraction => OperationFamily::Contraction,
        PrimitiveFamily::Gather
        | PrimitiveFamily::Scatter
        | PrimitiveFamily::Sort
        | PrimitiveFamily::IndexMap => OperationFamily::ShapeAndIndexing,
        PrimitiveFamily::Histogram => OperationFamily::Histogram,
        PrimitiveFamily::Random => OperationFamily::Random,
    }
}

/// The payload types a recipe consumes, in input order.
pub open spec fn recipe_inputs(recipe: PrimitiveRecipe) -> Seq<DType> {
    match recipe {
        PrimitiveRecipe::Reduce { .. } | PrimitiveRecipe::Scan { .. } | PrimitiveRecipe::Sort { .. } => seq![
            DType::F32,
        ],
        PrimitiveRecipe::Contraction(_) => seq![DType::F32, DType::F32],
        PrimitiveRecipe::Gather { .. } => seq![DType::F32, DType::I32],
        PrimitiveRecipe::ScatterAdd { .. } => seq![DType::F32, DType::I32, DType::F32],
        PrimitiveRecipe::IndexMap | PrimitiveRecipe::Random(_) => seq![],
    }
}

/// The payload types a recipe produces, in output order.
pub open spec fn recipe_outputs(recipe: PrimitiveRecipe) -> Seq<DType> {
    match recipe {
        PrimitiveRecipe::Reduce { result: ReduceResult::Index, .. } | PrimitiveRecipe::IndexMap => seq![
            DType::I32,
        ],
        PrimitiveRecipe::Reduce { result: ReduceResult::ValueAndIndex, .. } => seq![
            DType::F32,
            DType::I32,
        ],
        _ => seq![DType::F32],
    }
}

/// The human-readable definition of a recipe.
pub open spec fn recipe_definition(recipe: PrimitiveRecipe) -> Seq<char> {
    match recipe {
        PrimitiveRecipe::Reduce { operator: ReduceOperator::Sum, result: ReduceResult::Value, .. } =>
            "fixed-tree binary32 sum reduction"@,
        PrimitiveRecipe::Reduce {
            operator: ReduceOperator::Minimum,
            result: ReduceResult::Value,
            ..
        } => "fixed-tree binary32 minimum reduction"@,
        PrimitiveRecipe::Reduce {
            operator: ReduceOperator::Maximum,
            result: ReduceResult::Value,
            ..
        } => "fixed-tree binary32 maximum reduction"@,
        PrimitiveRecipe::Reduce {
            operator: ReduceOperator::Minimum,
            result: ReduceResult::Index,
            ..
        } => "fixed-tree binary32 argmin reduction yielding int32"@,
        PrimitiveRecipe::Reduce {
            operator: ReduceOperator::Maximum,
            result: ReduceResult::Index,
            ..
        } => "fixed-tree binary32 argmax reduction yielding int32"@,
        PrimitiveRecipe::Reduce { .. } => "typed fixed-tree reduction"@,
        PrimitiveRecipe::Scan { operator: ReduceOperator::Sum, exclusive: false, .. } =>
            "fixed-tree inclusive binary32 prefix sum"@,
        PrimitiveRecipe::Scan { operator: ReduceOperator::Sum, exclusive: true, .. } =>
            "fixed-tree exclusive binary32 prefix sum"@,
        PrimitiveRecipe::Scan { operator: ReduceOperator::Product, .. } =>
            "fixed-tree inclusive binary32 cumulative product"@,
        PrimitiveRecipe::Scan { operator: ReduceOperator::Maximum, .. } =>
            "fixed-tree inclusive binary32 cumulative maximum"@,
        PrimitiveRecipe::Scan { .. } => "typed fixed-tree scan"@,
        PrimitiveRecipe::Contraction(ContractionClass::Vector) => "binary32 vector contraction"@,
        PrimitiveRecipe::Contraction(ContractionClass::Matrix) => "binary32 matrix contraction"@,
        PrimitiveRecipe::Contraction(ContractionClass::LeftTransposedMatrix) =>
            "binary32 left-transposed matrix contraction"@,
        PrimitiveRecipe::Contraction(ContractionClass::RightTransposedMatrix) =>
            "binary32 right-transposed matrix contraction"@,
        PrimitiveRecipe::Contraction(ContractionClass::Batched) =>
            "binary32 batched matrix contraction"@,
        PrimitiveRecipe::Gather { .. } => "checked int32-indexed binary32 gather"@,
        PrimitiveRecipe::ScatterAdd { .. } => "checked int32-indexed binary32 atomic-add scatter"@,
        PrimitiveRecipe::Sort { direction: SortDirection::Ascending, stable: true, .. } =>
            "stable ascending binary32 sort"@,
        PrimitiveRecipe::Sort { direction: SortDirection::Ascending, stable: false, .. } =>
            "ascending binary32 sort"@,
        PrimitiveRecipe::Sort { direction: SortDirection::Descending, stable: true, .. } =>
            "stable descending binary32 sort"@,
        PrimitiveRecipe::Sort { direction: SortDirection::Descending, stable: false, .. } =>
            "descending binary32 sort"@,
        PrimitiveRecipe::IndexMap =>
            "checked iteration-aware affine int32 index map with optional positive Euclidean modulus"@,
        PrimitiveRecipe::Random(RandomRecipe::UniformF32) =>
            "counter-based Philox4x32-10 uniform binary32 map"@,
        PrimitiveRecipe::Random(RandomRecipe::NormalF32) =>
            "counter-based Philox4x32-10 normal binary32 map"@,
    }
}

impl PrimitiveRecipe {
    #[must_use]
    pub fn family(self) -> (family: PrimitiveFamily)
        ensures
            family == recipe_family(self),
    {
        match self {
            PrimitiveRecipe::Reduce { .. } => PrimitiveFamily::Reduce,
            PrimitiveRecipe::Scan { .. } => PrimitiveFamily::Scan,
            PrimitiveRecipe::Contraction(_) => PrimitiveFamily::Contraction,
            PrimitiveRecipe::Gather { .. } => PrimitiveFamily::Gather,
            PrimitiveRecipe::ScatterAdd { .. } => PrimitiveFamily::Scatter,
            PrimitiveRecipe::Sort { .. } => PrimitiveFamily::Sort,
            PrimitiveRecipe::IndexMap => PrimitiveFamily::IndexMap,
            PrimitiveRecipe::Random(_) => PrimitiveFamily::Random,
        }
    }

    #[must_use]
    pub fn operation_family(self) -> (family: OperationFamily)
        ensures
            family == primitive_operation_family(recipe_family(self)),
    {
        match self.family() {
            PrimitiveFamily::Elementwise => OperationFamily::Elementwise,
            PrimitiveFamily::Reduce => OperationFamily::Reduction,
            PrimitiveFamily::Scan => OperationFamily::Scan,
            PrimitiveFamily::Contraction => OperationFamily::Contraction,
            PrimitiveFamily::Gather
            | PrimitiveFamily::Scatter
            | PrimitiveFamily::Sort
            | PrimitiveFamily::IndexMap => OperationFamily::ShapeAndIndexing,
            PrimitiveFamily::Histogram => OperationFamily::Histogram,
            PrimitiveFamily::Random => OperationFamily::Random,
        }
    }

    /// The exact payload types the recipe consumes and produces.
    #[must_use]
    pub fn dtype_contract(self) -> (contract: CanonicalDTypeContract)
        ensures
            contract matches CanonicalDTypeContract::Exact { inputs, outputs } && inputs@
                == recipe_inputs(self) && outputs@ == recipe_outputs(self),
    {
        let inputs = match self {
            PrimitiveRecipe::Reduce { .. }
            | PrimitiveRecipe::Scan { .. }
            | PrimitiveRecipe::Sort { .. } => vec![DType::F32],
            PrimitiveRecipe::Contraction(_) => vec![DType::F32, DType::F32],
            PrimitiveRecipe::Gather { .. } => vec![DType::F32, DType::I32],
            PrimitiveRecipe::ScatterAdd { .. } => vec![DType::F32, DType::I32, DType::F32],
            PrimitiveRecipe::IndexMap | PrimitiveRecipe::Random(_) => Vec::new(),
        };
        let outputs = match self {
            PrimitiveRecipe::Reduce { result: ReduceResult::Index, .. }
            | PrimitiveRecipe::IndexMap => vec![DType::I32],
            PrimitiveRecipe::Reduce { result: ReduceResult::ValueAndIndex, .. } => vec![
                DType::F32,
                DType::I32,
            ],
            _ => vec![DType::F32],
        };
        proof {
            assert(inputs@ =~= recipe_inputs(self));
            assert(outputs@ =~= recipe_outputs(self));
        }
        CanonicalDTypeContract::Exact { inputs, outputs }
    }

    /// The human-readable definition of the recipe.
    #[must_use]
    pub fn definition(self) -> (definition: &'static str)
        ensures
            definition@ == recipe_definition(self),
    {
        match self {
            PrimitiveRecipe::Reduce {
                operator: ReduceOperator::Sum,
                result: ReduceResult::Value,
                ..
            } => "fixed-tree binary32 sum reduction",
            PrimitiveRecipe::Reduce {
                operator: ReduceOperator::Minimum,
                result: ReduceResult::Value,
                ..
            } => "fixed-tree binary32 minimum reduction",
            PrimitiveRecipe::Reduce {
                operator: ReduceOperator::Maximum,
                result: ReduceResult::Value,
                ..
            } => "fixed-tree binary32 maximum reduction",
            PrimitiveRecipe::Reduce {
                operator: ReduceOperator::Minimum,
                result: ReduceResult::Index,
                ..
            } => "fixed-tree binary32 argmin reduction yielding int32",
            PrimitiveRecipe::Reduce {
                operator: ReduceOperator::Maximum,
                result: ReduceResult::Index,
                ..
            } => "fixed-tree binary32 argmax reduction yielding int32",
            PrimitiveRecipe::Reduce { .. } => "typed fixed-tree reduction",
            PrimitiveRecipe::Scan { operator: ReduceOperator::Sum, exclusive: false, .. } =>
                "fixed-tree inclusive binary32 prefix sum",
            PrimitiveRecipe::Scan { operator: ReduceOperator::Sum, exclusive: true, .. } =>
                "fixed-tree exclusive binary32 prefix sum",
            PrimitiveRecipe::Scan { operator: ReduceOperator::Product, .. } =>
                "fixed-tree inclusive binary32 cumulative product",
            PrimitiveRecipe::Scan { operator: ReduceOperator::Maximum, .. } =>
                "fixed-tree inclusive binary32 cumulative maximum",
            PrimitiveRecipe::Scan { .. } => "typed fixed-tree scan",
            PrimitiveRecipe::Contraction(ContractionClass::Vector) => "binary32 vector contraction",
            PrimitiveRecipe::Contraction(ContractionClass::Matrix) => "binary32 matrix contraction",
            PrimitiveRecipe::Contraction(ContractionClass::LeftTransposedMatrix) =>
                "binary32 left-transposed matrix contraction",
            PrimitiveRecipe::Contraction(ContractionClass::RightTransposedMatrix) =>
                "binary32 right-transposed matrix contraction",
            PrimitiveRecipe::Contraction(ContractionClass::Batched) =>
                "binary32 batched matrix contraction",
            PrimitiveRecipe::Gather { .. } => "checked int32-indexed binary32 gather",
            PrimitiveRecipe::ScatterAdd { .. } => "checked int32-indexed binary32 atomic-add scatter",
            PrimitiveRecipe::Sort { direction: SortDirection::Ascending, stable: true, .. } =>
                "stable ascending binary32 sort",
            PrimitiveRecipe::Sort { direction: SortDirection::Ascending, stable: false, .. } =>
                "ascending binary32 sort",
            PrimitiveRecipe::Sort { direction: SortDirection::Descending, stable: true, .. } =>
                "stable descending binary32 sort",
            PrimitiveRecipe::Sort { direction: SortDirection::Descending, stable: false, .. } =>
                "descending binary32 sort",
            PrimitiveRecipe::IndexMap =>
                "checked iteration-aware affine int32 index map with optional positive Euclidean modulus",
            PrimitiveRecipe::Random(RandomRecipe::UniformF32) =>
                "counter-based Philox4x32-10 uniform binary32 map",
            PrimitiveRecipe::Random(RandomRecipe::NormalF32) =>
                "counter-based Philox4x32-10 normal binary32 map",
        }
    }
}

/// Scalar literal held by an exclusive scan's identity.
#[derive(Clone, Copy, Debug, PartialEq, Eq, Structural)]
pub enum ScalarLiteral {
    F32Bits(u32),
    I32(i32),
}

/// Whether a scan includes the current element, and the identity an
/// exclusive scan starts from.
#[derive(Clone, Copy, Debug, PartialEq, Eq, Structural)]
pub enum ScanMode {
    Inclusive,
    Exclusive { identity: ScalarLiteral },
}

/// Distribution drawn by a random kernel.
#[derive(Clone, Copy, Debug, PartialEq, Eq, Structural)]
pub enum RandomDistribution {
    UniformF32,
    NormalF32,
}

/// Parameters of a reduction kernel: the reduced axes, whether they are
/// kept with extent one, and the width of the fixed reduction tree.
#[derive(Clone, Debug)]
pub struct ReduceSpec {
    pub operator: ReduceOperator,
    pub result: ReduceResult,
    pub axes: Vec<usize>,
    pub keep_dimensions: bool,
    pub tree_lanes: u32,
}

/// Parameters of a scan kernel.
#[derive(Clone, Copy, Debug)]
pub struct ScanSpec {
    pub operator: ReduceOperator,
    pub mode: ScanMode,
    pub axis: usize,
    pub reverse: bool,
    pub tree_lanes: u32,
}

/// Axis pairing of a contraction kernel: the batch axis pairs and the
/// contracted axis pairs, each as (left axis, right axis).
#[derive(Clone, Debug)]
pub struct ContractionSpec {
    pub batch_axes: Vec<(usize, usize)>,
    pub contract_axes: Vec<(usize, usize)>,
}

/// Parameters of a gather kernel.
#[derive(Clone, Copy, Debug)]
pub struct GatherSpec {
    pub axis: usize,
    pub rejects_out_of_bounds: bool,
}

/// Parameters of a scatter kernel; `atomic_add` records a conflict policy of
/// sequentially consistent atomic addition.
#[derive(Clone, Copy, Debug)]
pub struct ScatterSpec {
    pub axis: usize,
    pub rejects_out_of_bounds: bool,
    pub atomic_add: bool,
}

/// Parameters of a sort kernel.
#[derive(Clone, Copy, Debug)]
pub struct SortSpec {
    pub direction: SortDirection,
    pub stable: bool,
    pub axis: usize,
    pub emit_indices: bool,
}

/// Parameters of a histogram kernel: the bin count and whether each entry
/// adds a weight or one.
#[derive(Clone, Copy, Debug)]
pub struct HistogramSpec {
    pub bins: u32,
    pub weighted: bool,
}

/// Parameters of an index-map kernel: element `e` of iteration `i` holds
/// `start + e * element_step + i * iteration_step`, reduced modulo
/// `modulus` when one is given.
#[derive(Clone, Copy, Debug)]
pub struct IndexMapSpec {
    pub start: i32,
    pub element_step: i32,
    pub iteration_step: i32,
    pub modulus: Option<i32>,
}

/// The kind of a caller-supplied primitive kernel with the parameters a
/// recipe check reads.
#[derive(Clone, Debug)]
pub enum PrimitiveKind {
    /// A map over the kernel's tensors. The scalar program it runs is
    /// floating-point arithmetic and is not held here: the kernel records
    /// only which tensors it reads and writes.
    Elementwise,
    Reduce(ReduceSpec),
    Scan(ScanSpec),
    Contraction(ContractionSpec),
    Gather(GatherSpec),
    Scatter(ScatterSpec),
    Histogram(HistogramSpec),
    Sort(SortSpec),
    IndexMap(IndexMapSpec),
    Random(RandomDistribution),
}

/// Whether a kernel output may share its buffer with a kernel input.
#[derive(Clone, Copy, Debug, PartialEq, Eq, Structural)]
pub enum AliasPermission {
    Forbidden,
    MustAliasExact,
}

/// An aliasing rule between a kernel input and a kernel output.
#[derive(Clone, Copy, Debug, PartialEq, Eq, Structural)]
pub struct AliasRule {
    pub input: usize,
    pub output: usize,
    pub permission: AliasPermission,
}

/// A caller-supplied primitive kernel as a recipe check sees it:
/// `input_ranks[i]` is the rank of the tensor bound to input `i`, or `None`
/// when no tensor is bound to it.
#[derive(Clone, Debug)]
pub struct PrimitiveKernel {
    pub kind: PrimitiveKind,
    pub input_ranks: Vec<Option<usize>>,
    pub alias_rules: Vec<AliasRule>,
}

/// The rank of the kernel's first input, when it is bound.
pub open spec fn first_input_rank(kernel: PrimitiveKernel) -> Option<usize> {
    if kernel.input_ranks@.len() > 0 {
        kernel.input_ranks@[0]
    } else {
        None
    }
}

/// The ranks of the kernel's first two inputs, when both are bound.
pub open spec fn operand_ranks(kernel: PrimitiveKernel) -> Option<(usize, usize)> {
    if kernel.input_ranks@.len() >= 2 && kernel.input_ranks@[0] is Some
        && kernel.input_ranks@[1] is Some {
        Some((kernel.input_ranks@[0]->Some_0, kernel.input_ranks@[1]->Some_0))
    } else {
        None
    }
}

/// The last axis of a tensor of rank `rank` (axis 0 for a scalar).
pub open spec fn last_axis(rank: usize) -> usize {
    if rank == 0 {
        0
    } else {
        (rank - 1) as usize
    }
}

/// A reduction's axis list satisfies the requirement.
pub open spec fn axes_satisfy(requirement: AxisRequirement, axes: Seq<usize>, rank: Option<usize>) -> bool {
    match requirement {
        AxisRequirement::Any => axes.len() > 0,
        AxisRequirement::First => axes == seq![0usize],
        AxisRequirement::Last => rank matches Some(r) && axes == seq![last_axis(r)],
        AxisRequirement::All => rank matches Some(r) && axes.len() == r && forall|i: int|
            0 <= i < r ==> #[trigger] axes[i] == i,
    }
}

/// A single axis satisfies the requirement.
pub open spec fn axis_satisfies(requirement: AxisRequirement, axis: usize, rank: Option<usize>) -> bool {
    match requirement {
        AxisRequirement::Any => true,
        AxisRequirement::First => axis == 0,
        AxisRequirement::Last => rank matches Some(r) && axis == last_axis(r),
        AxisRequirement::All => rank == Some(1usize) && axis == 0,
    }
}

/// The bit pattern of binary32 one.
pub const F32_ONE_BITS: u32 = 0x3f80_0000;

/// An exclusive scan starts from the operator's binary32 identity.
pub open spec fn scan_identity_ok(operator: ReduceOperator, mode: ScanMode) -> bool {
    match mode {
        ScanMode::Inclusive => true,
        ScanMode::Exclusive { identity } => match identity {
            ScalarLiteral::F32Bits(bits) => (operator == ReduceOperator::Sum && bits == 0)
                || (operator == ReduceOperator::Product && bits == F32_ONE_BITS),
            ScalarLiteral::I32(_) => false,
        },
    }
}

/// A contraction kernel has the shape class's operand ranks and axis pairing.
pub open spec fn contraction_satisfies(
    class: ContractionClass,
    spec: ContractionSpec,
    ranks: Option<(usize, usize)>,
) -> bool {
    let batch = spec.batch_axes@;
    let contract = spec.contract_axes@;
    match class {
        ContractionClass::Vector => ranks == Some((1usize, 1usize)) && batch.len() == 0 && contract
            == seq![(0usize, 0usize)],
        ContractionClass::Matrix => ranks == Some((2usize, 2usize)) && batch.len() == 0 && contract
            == seq![(1usize, 0usize)],
        ContractionClass::LeftTransposedMatrix => ranks == Some((2usize, 2usize)) && batch.len() == 0
            && contract == seq![(0usize, 0usize)],
        ContractionClass::RightTransposedMatrix => ranks == Some((2usize, 2usize)) && batch.len()
            == 0 && contract == seq![(1usize, 1usize)],
        ContractionClass::Batched => ranks matches Some((left, right)) && left >= 3 && right >= 3
            && batch.len() > 0 && contract.len() == 1,
    }
}

/// The rule list that forbids every output of a kernel from aliasing any of
/// its inputs, input-major.
pub open spec fn forbidden_alias_rules(inputs: nat, outputs: nat) -> Seq<AliasRule> {
    Seq::new(
        inputs * outputs,
        |k: int|
            AliasRule {
                input: (k / outputs as int) as usize,
                output: (k % outputs as int) as usize,
                permission: AliasPermission::Forbidden,
            },
    )
}

/// Forbid every output of a kernel from aliasing any of its inputs.
pub fn forbidden_aliases(inputs: usize, outputs: usize) -> (rules: Vec<AliasRule>)
    requires
        inputs * outputs <= usize::MAX,
    ensures
        rules@ == forbidden_alias_rules(inputs as nat, outputs as nat),
{
    let mut rules: Vec<AliasRule> = Vec::new();
    let mut input: usize = 0;
    while input < inputs
        invariant
            input <= inputs,
            inputs * outputs <= usize::MAX,
            rules@ == forbidden_alias_rules(input as nat, outputs as nat),
        decreases inputs - input,
    {
        let mut output: usize = 0;
        while output < outputs
            invariant
                input < inputs,
                output <= outputs,
                inputs * outputs <= usize::MAX,
                rules@.len() == input * outputs + output,
                forall|k: int|
                    0 <= k < rules@.len() ==> #[trigger] rules@[k] == (AliasRule {
                        input: (k / outputs as int) as usize,
                        output: (k % outputs as int) as usize,
                        permission: AliasPermission::Forbidden,
                    }),
            decreases outputs - output,
        {
            proof {
                let k = input * outputs + output;
                assert(k / outputs as int == input && k % outputs as int == output) by (nonlinear_arith)
                    requires
                        k == input * outputs + output,
                        output < outputs,
                ;
                assert(input * outputs + output < inputs * outputs) by (nonlinear_arith)
                    requires
                        input < inputs,
                        output < outputs,
                ;
            }
            rules.push(AliasRule { input, output, permission: AliasPermission::Forbidden });
            output = output + 1;
        }
        proof {
            assert((input + 1) * outputs == input * outputs + outputs) by (nonlinear_arith);
            assert(rules@ =~= forbidden_alias_rules((input + 1) as nat, outputs as nat));
        }
        input = input + 1;
    }
    rules
}

/// Some aliasing rule makes output 0 the exact buffer of input 0.
pub open spec fn first_output_aliases_first_input(rules: Seq<AliasRule>) -> bool {
    exists|i: int|
        0 <= i < rules.len() && (#[trigger] rules[i]).input == 0 && rules[i].output == 0
            && rules[i].permission == AliasPermission::MustAliasExact
}

/// The kernel satisfies every static requirement of the recipe.
pub open spec fn recipe_matches(recipe: PrimitiveRecipe, kernel: PrimitiveKernel) -> bool {
    let rank = first_input_rank(kernel);
    match recipe {
        PrimitiveRecipe::Reduce { operator, result, axes } => match kernel.kind {
            PrimitiveKind::Reduce(spec) => operator == spec.operator && result == spec.result
                && axes_satisfy(axes, spec.axes@, rank),
            _ => false,
        },
        PrimitiveRecipe::Scan { operator, exclusive, axis } => match kernel.kind {
            PrimitiveKind::Scan(spec) => operator == spec.operator && exclusive == (
            spec.mode is Exclusive) && axis_satisfies(axis, spec.axis, rank) && !spec.reverse
                && scan_identity_ok(spec.operator, spec.mode),
            _ => false,
        },
        PrimitiveRecipe::Contraction(class) => match kernel.kind {
            PrimitiveKind::Contraction(spec) => contraction_satisfies(
                class,
                spec,
                operand_ranks(kernel),
            ),
            _ => false,
        },
        PrimitiveRecipe::Gather { axis } => match kernel.kind {
            PrimitiveKind::Gather(spec) => axis_satisfies(axis, spec.axis, rank)
                && spec.rejects_out_of_bounds,
            _ => false,
        },
        PrimitiveRecipe::ScatterAdd { axis } => match kernel.kind {
            PrimitiveKind::Scatter(spec) => axis_satisfies(axis, spec.axis, rank)
                && spec.rejects_out_of_bounds && spec.atomic_add
                && first_output_aliases_first_input(kernel.alias_rules@),
            _ => false,
        },
        PrimitiveRecipe::Sort { direction, stable, axis } => match kernel.kind {
            PrimitiveKind::Sort(spec) => direction == spec.direction && stable == spec.stable
                && axis_satisfies(axis, spec.axis, rank) && !spec.emit_indices,
            _ => false,
        },
        PrimitiveRecipe::IndexMap => kernel.kind is IndexMap,
        PrimitiveRecipe::Random(random) => match kernel.kind {
            PrimitiveKind::Random(distribution) => match random {
                RandomRecipe::UniformF32 => distribution == RandomDistribution::UniformF32,
                RandomRecipe::NormalF32 => distribution == RandomDistribution::NormalF32,
            },
            _ => false,
        },
    }
}

/// The primitive family a kernel kind belongs to.
pub open spec fn kind_family(kind: PrimitiveKind) -> PrimitiveFamily {
    match kind {
        PrimitiveKind::Elementwise => PrimitiveFamily::Elementwise,
        PrimitiveKind::Reduce(_) => PrimitiveFamily::Reduce,
        PrimitiveKind::Scan(_) => PrimitiveFamily::Scan,
        PrimitiveKind::Contraction(_) => PrimitiveFamily::Contraction,
        PrimitiveKind::Gather(_) => PrimitiveFamily::Gather,
        PrimitiveKind::Scatter(_) => PrimitiveFamily::Scatter,
        PrimitiveKind::Histogram(_) => PrimitiveFamily::Histogram,
        PrimitiveKind::Sort(_) => PrimitiveFamily::Sort,
        PrimitiveKind::IndexMap(_) => PrimitiveFamily::IndexMap,
        PrimitiveKind::Random(_) => PrimitiveFamily::Random,
    }
}

/// The primitive family of a kernel kind.
pub fn primitive_family(kind: &PrimitiveKind) -> (family: PrimitiveFamily)
    ensures
        family == kind_family(*kind),
{
    match kind {
        PrimitiveKind::Elementwise => PrimitiveFamily::Elementwise,
        PrimitiveKind::Reduce(_) => PrimitiveFamily::Reduce,
        PrimitiveKind::Scan(_) => PrimitiveFamily::Scan,
        PrimitiveKind::Contraction(_) => PrimitiveFamily::Contraction,
        PrimitiveKind::Gather(_) => PrimitiveFamily::Gather,
        PrimitiveKind::Scatter(_) => PrimitiveFamily::Scatter,
        PrimitiveKind::Histogram(_) => PrimitiveFamily::Histogram,
        PrimitiveKind::Sort(_) => PrimitiveFamily::Sort,
        PrimitiveKind::IndexMap(_) => PrimitiveFamily::IndexMap,
        PrimitiveKind::Random(_) => PrimitiveFamily::Random,
    }
}

/// A kernel that satisfies a recipe belongs to the recipe's primitive
/// family.
pub proof fn lemma_matching_kernel_has_recipe_family(recipe: PrimitiveRecipe, kernel: PrimitiveKernel)
    requires
        recipe_matches(recipe, kernel),
    ensures
        kind_family(kernel.kind) == recipe_family(recipe),
{
}

fn input_rank(kernel: &PrimitiveKernel) -> (rank: Option<usize>)
    ensures
        rank == first_input_rank(*kernel),
{
    if kernel.input_ranks.len() > 0 {
        kernel.input_ranks[0]
    } else {
        None
    }
}

fn last_axis_of(rank: usize) -> (axis: usize)
    ensures
        axis == last_axis(rank),
{
    rank.saturating_sub(1)
}

fn axes_match(requirement: AxisRequirement, axes: &Vec<usize>, rank: Option<usize>) -> (ok: bool)
    ensures
        ok == axes_satisfy(requirement, axes@, rank),
{
    match requirement {
        AxisRequirement::Any => axes.len() > 0,
        AxisRequirement::First => {
            let ok = axes.len() == 1 && axes[0] == 0;
            proof {
                if ok {
                    assert(axes@ =~= seq![0usize]);
                }
            }
            ok
        },
        AxisRequirement::Last => match rank {
            Some(r) => {
                let last = last_axis_of(r);
                let ok = axes.len() == 1 && axes[0] == last;
                proof {
                    if ok {
                        assert(axes@ =~= seq![last]);
                    }
                }
                ok
            },
            None => false,
        },
        AxisRequirement::All => match rank {
            Some(r) => {
                if axes.len() != r {
                    return false;
                }
                let mut index: usize = 0;
                while index < axes.len()
                    invariant
                        index <= axes.len(),
                        axes.len() == r,
                        rank == Some(r),
                        requirement == AxisRequirement::All,
                        forall|i: int| 0 <= i < index ==> #[trigger] axes@[i] == i,
                    decreases axes.len() - index,
                {
                    if axes[index] != index {
                        assert(axes@[index as int] != index as int);
                        return false;
                    }
                    index = index + 1;
                }
                true
            },
            None => false,
        },
    }
}

fn axis_matches(requirement: AxisRequirement, axis: usize, rank: Option<usize>) -> (ok: bool)
    ensures
        ok == axis_satisfies(requirement, axis, rank),
{
    match requirement {
        AxisRequirement::Any => true,
        AxisRequirement::First => axis == 0,
        AxisRequirement::Last => match rank {
            Some(r) => axis == last_axis_of(r),
            None => false,
        },
        AxisRequirement::All => match rank {
            Some(r) => r == 1 && axis == 0,
            None => false,
        },
    }
}

fn scan_identity_matches(spec: &ScanSpec) -> (ok: bool)
    ensures
        ok == scan_identity_ok(spec.operator, spec.mode),
{
    match spec.mode {
        ScanMode::Inclusive => true,
        ScanMode::Exclusive { identity } => match identity {
            ScalarLiteral::F32Bits(bits) => match spec.operator {
                ReduceOperator::Sum => bits == 0,
                ReduceOperator::Product => bits == F32_ONE_BITS,
                _ => false,
            },
            ScalarLiteral::I32(_) => false,
        },
    }
}

fn operand_ranks_of(kernel: &PrimitiveKernel) -> (ranks: Option<(usize, usize)>)
    ensures
        ranks == operand_ranks(*kernel),
{
    if kernel.input_ranks.len() >= 2 {
        match (kernel.input_ranks[0], kernel.input_ranks[1]) {
            (Some(left), Some(right)) => Some((left, right)),
            _ => None,
        }
    } else {
        None
    }
}

fn single_pair(pairs: &Vec<(usize, usize)>, left: usize, right: usize) -> (ok: bool)
    ensures
        ok == (pairs@ == seq![(left, right)]),
{
    let ok = pairs.len() == 1 && pairs[0].0 == left && pairs[0].1 == right;
    proof {
        if ok {
            assert(pairs@ =~= seq![(left, right)]);
        } else if pairs@.len() == 1 {
            assert(pairs@[0] != (left, right));
        }
    }
    ok
}

fn contraction_matches(class: ContractionClass, spec: &ContractionSpec, ranks: Option<(usize, usize)>) -> (ok:
    bool)
    ensures
        ok == contraction_satisfies(class, *spec, ranks),
{
    let unbatched = spec.batch_axes.len() == 0;
    match class {
        ContractionClass::Vector => ranks == Some((1usize, 1usize)) && unbatched && single_pair(
            &spec.contract_axes,
            0,
            0,
        ),
        ContractionClass::Matrix => ranks == Some((2usize, 2usize)) && unbatched && single_pair(
            &spec.contract_axes,
            1,
            0,
        ),
        ContractionClass::LeftTransposedMatrix => ranks == Some((2usize, 2usize)) && unbatched
            && single_pair(&spec.contract_axes, 0, 0),
        ContractionClass::RightTransposedMatrix => ranks == Some((2usize, 2usize)) && unbatched
            && single_pair(&spec.contract_axes, 1, 1),
        ContractionClass::Batched => match ranks {
            Some((left, right)) => left >= 3 && right >= 3 && !unbatched && spec.contract_axes.len()
                == 1,
            None => false,
        },
    }
}

fn aliases_first_input(rules: &Vec<AliasRule>) -> (ok: bool)
    ensures
        ok == first_output_aliases_first_input(rules@),
{
    let mut index: usize = 0;
    while index < rules.len()
        invariant
            index <= rules.len(),
            forall|i: int|
                0 <= i < index ==> !((#[trigger] rules@[i]).input == 0 && rules@[i].output == 0
                    && rules@[i].permission == AliasPermission::MustAliasExact),
        decreases rules.len() - index,
    {
        let rule = rules[index];
        if rule.input == 0 && rule.output == 0 && rule.permission == AliasPermission::MustAliasExact {
            return true;
        }
        index = index + 1;
    }
    false
}

impl PrimitiveRecipe {
    /// Whether the kernel satisfies every static requirement of the recipe.
    pub fn matches(self, kernel: &PrimitiveKernel) -> (ok: bool)
        ensures
            ok == recipe_matches(self, *kernel),
    {
        let rank = input_rank(kernel);
        match self {
            PrimitiveRecipe::Reduce { operator, result, axes } => match &kernel.kind {
                PrimitiveKind::Reduce(spec) => operator == spec.operator && result == spec.result
                    && axes_match(axes, &spec.axes, rank),
                _ => false,
            },
            PrimitiveRecipe::Scan { operator, exclusive, axis } => match &kernel.kind {
                PrimitiveKind::Scan(spec) => {
                    let spec_exclusive = match spec.mode {
                        ScanMode::Exclusive { .. } => true,
                        ScanMode::Inclusive => false,
                    };
                    operator == spec.operator && exclusive == spec_exclusive && axis_matches(
                        axis,
                        spec.axis,
                        rank,
                    ) && !spec.reverse && scan_identity_matches(spec)
                },
                _ => false,
            },
            PrimitiveRecipe::Contraction(class) => match &kernel.kind {
                PrimitiveKind::Contraction(spec) => contraction_matches(
                    class,
                    spec,
                    operand_ranks_of(kernel),
                ),
                _ => false,
            },
            PrimitiveRecipe::Gather { axis } => match &kernel.kind {
                PrimitiveKind::Gather(spec) => axis_matches(axis, spec.axis, rank)
                    && spec.rejects_out_of_bounds,
                _ => false,
            },
            PrimitiveRecipe::ScatterAdd { axis } => match &kernel.kind {
                PrimitiveKind::Scatter(spec) => axis_matches(axis, spec.axis, rank)
                    && spec.rejects_out_of_bounds && spec.atomic_add && aliases_first_input(
                    &kernel.alias_rules,
                ),
                _ => false,
            },
            PrimitiveRecipe::Sort { direction, stable, axis } => match &kernel.kind {
                PrimitiveKind::Sort(spec) => direction == spec.direction && stable == spec.stable
                    && axis_matches(axis, spec.axis, rank) && !spec.emit_indices,
                _ => false,
            },
            PrimitiveRecipe::IndexMap => match &kernel.kind {
                PrimitiveKind::IndexMap(_) => true,
                _ => false,
            },
            PrimitiveRecipe::Random(random) => match &kernel.kind {
                PrimitiveKind::Random(distribution) => match random {
                    RandomRecipe::UniformF32 => *distribution == RandomDistribution::UniformF32,
                    RandomRecipe::NormalF32 => *distribution == RandomDistribution::NormalF32,
                },
                _ => false,
            },
        }
    }
}

/// The primitive recipe a descriptor lowers through: descriptors lowered
/// another way are refused, and so are unsupported ones.
pub fn primitive_recipe_of(descriptor: &OperationDescriptor) -> (result: OperationResult<PrimitiveRecipe>)
    ensures
        match descriptor.lowering {
            LoweringAvailability::Primitive(recipe) => result == Ok::<
                PrimitiveRecipe,
                OperationError,
            >(recipe),
            LoweringAvailability::Unsupported => result matches Err(error) && error.kind
                == OperationErrorKind::UnsupportedLowering && error.operation == Some(descriptor.id),
            _ => result matches Err(error) && error.kind == OperationErrorKind::WrongLoweringKind
                && error.operation == Some(descriptor.id),
        },
{
    match &descriptor.lowering {
        LoweringAvailability::Primitive(recipe) => Ok(*recipe),
        LoweringAvailability::Unsupported => Err(
            OperationError::new(
                OperationErrorKind::UnsupportedLowering,
                "operation has no supported lowering",
            ).for_operation(descriptor.id),
        ),
        _ => Err(
            OperationError::new(
                OperationErrorKind::WrongLoweringKind,
                "operation does not have a direct primitive recipe",
            ).for_operation(descriptor.id),
        ),
    }
}

/// Check that a kernel satisfies a recipe before it is lowered; a mismatch
/// is refused with the recipe's definition as its detail.
pub fn check_primitive_recipe(recipe: PrimitiveRecipe, kernel: &PrimitiveKernel) -> (result:
    OperationResult<()>)
    ensures
        result is Ok <==> recipe_matches(recipe, *kernel),
        result matches Err(error) ==> error.kind == OperationErrorKind::PrimitiveRecipeMismatch
            && error.detail@ == recipe_definition(recipe) && error.operation is None,
{
    if recipe.matches(kernel) {
        Ok(())
    } else {
        Err(OperationError::new(OperationErrorKind::PrimitiveRecipeMismatch, recipe.definition()))
    }
}

/// The recipe a descriptor's kernel is lowered through, once the descriptor
/// is known to own a direct primitive recipe that the kernel satisfies.
/// Every refusal names the descriptor's operation.
pub fn check_primitive_lowering(descriptor: &OperationDescriptor, kernel: &PrimitiveKernel) -> (result:
    OperationResult<PrimitiveRecipe>)
    ensures
        result is Ok <==> (descriptor.lowering matches LoweringAvailability::Primitive(recipe)
            && recipe_matches(recipe, *kernel)),
        result matches Ok(recipe) ==> descriptor.lowering == LoweringAvailability::Primitive(recipe),
        result matches Err(error) ==> error.operation == Some(descriptor.id) && error.kind == (
        match descriptor.lowering {
            LoweringAvailability::Primitive(_) => OperationErrorKind::PrimitiveRecipeMismatch,
            LoweringAvailability::Unsupported => OperationErrorKind::UnsupportedLowering,
            _ => OperationErrorKind::WrongLoweringKind,
        }),
{
    let recipe = match primitive_recipe_of(descriptor) {
        Ok(recipe) => recipe,
        Err(error) => return Err(error),
    };
    match check_primitive_recipe(recipe, kernel) {
        Ok(()) => Ok(recipe),
        Err(error) => Err(error.for_operation(descriptor.id)),
    }
}

/// Check a kernel against the iteration-aware affine int32 index map, which
/// is lowered without an operation-registry symbol.
pub fn check_index_map_lowering(kernel: &PrimitiveKernel) -> (result: OperationResult<()>)
    ensures
        result is Ok <==> kernel.kind is IndexMap,
        result matches Err(error) ==> error.kind == OperationErrorKind::PrimitiveRecipeMismatch
            && error.operation is None,
{
    check_primitive_recipe(PrimitiveRecipe::IndexMap, kernel)
}

/// The legacy primitive entrypoints and the recipe each lowers through.
pub open spec fn primitive_symbol_rows() -> Seq<(Seq<char>, PrimitiveRecipe)> {
    seq![
        ("gpu_argmax_f32"@, PrimitiveRecipe::Reduce { operator: ReduceOperator::Maximum, result: ReduceResult::Index, axes: AxisRequirement::All }),
        ("gpu_argmax_rows"@, PrimitiveRecipe::Reduce { operator: ReduceOperator::Maximum, result: ReduceResult::Index, axes: AxisRequirement::Last }),
        ("gpu_argmin_rows"@, PrimitiveRecipe::Reduce { operator: ReduceOperator::Minimum, result: ReduceResult::Index, axes: AxisRequirement::Last }),
        ("gpu_bmm_into"@, PrimitiveRecipe::Contraction(ContractionClass::Batched)),
        ("gpu_cummax"@, PrimitiveRecipe::Scan { operator: ReduceOperator::Maximum, exclusive: false, axis: AxisRequirement::Any }),
        ("gpu_cumprod"@, PrimitiveRecipe::Scan { operator: ReduceOperator::Product, exclusive: false, axis: AxisRequirement::Any }),
        ("gpu_cumsum_cols"@, PrimitiveRecipe::Scan { operator: ReduceOperator::Sum, exclusive: false, axis: AxisRequirement::First }),
        ("gpu_cumsum_rows"@, PrimitiveRecipe::Scan { operator: ReduceOperator::Sum, exclusive: false, axis: AxisRequirement::Last }),
        ("gpu_dot"@, PrimitiveRecipe::Contraction(ContractionClass::Vector)),
        ("gpu_gather_rows_into"@, PrimitiveRecipe::Gather { axis: AxisRequirement::First }),
        ("gpu_gemm"@, PrimitiveRecipe::Contraction(ContractionClass::Matrix)),
        ("gpu_gemm_at"@, PrimitiveRecipe::Contraction(ContractionClass::LeftTransposedMatrix)),
        ("gpu_gemm_bt"@, PrimitiveRecipe::Contraction(ContractionClass::RightTransposedMatrix)),
        ("gpu_gemm_bt_into"@, PrimitiveRecipe::Contraction(ContractionClass::RightTransposedMatrix)),
        ("gpu_max_all"@, PrimitiveRecipe::Reduce { operator: ReduceOperator::Maximum, result: ReduceResult::Value, axes: AxisRequirement::All }),
        ("gpu_min_all"@, PrimitiveRecipe::Reduce { operator: ReduceOperator::Minimum, result: ReduceResult::Value, axes: AxisRequirement::All }),
        ("gpu_prefix_sum_exclusive"@, PrimitiveRecipe::Scan { operator: ReduceOperator::Sum, exclusive: true, axis: AxisRequirement::Any }),
        ("gpu_prefix_sum_inclusive"@, PrimitiveRecipe::Scan { operator: ReduceOperator::Sum, exclusive: false, axis: AxisRequirement::Any }),
        ("gpu_rand_uniform_into"@, PrimitiveRecipe::Random(RandomRecipe::UniformF32)),
        ("gpu_randn"@, PrimitiveRecipe::Random(RandomRecipe::NormalF32)),
        ("gpu_reduce_max_cols"@, PrimitiveRecipe::Reduce { operator: ReduceOperator::Maximum, result: ReduceResult::Value, axes: AxisRequirement::First }),
        ("gpu_reduce_max_rows"@, PrimitiveRecipe::Reduce { operator: ReduceOperator::Maximum, result: ReduceResult::Value, axes: AxisRequirement::Last }),
        ("gpu_reduce_min_cols"@, PrimitiveRecipe::Reduce { operator: ReduceOperator::Minimum, result: ReduceResult::Value, axes: AxisRequirement::First }),
        ("gpu_reduce_min_rows"@, PrimitiveRecipe::Reduce { operator: ReduceOperator::Minimum, result: ReduceResult::Value, axes: AxisRequirement::Last }),
        ("gpu_reduce_sum_cols_into"@, PrimitiveRecipe::Reduce { operator: ReduceOperator::Sum, result: ReduceResult::Value, axes: AxisRequirement::First }),
        ("gpu_reduce_sum_rows"@, PrimitiveRecipe::Reduce { operator: ReduceOperator::Sum, result: ReduceResult::Value, axes: AxisRequirement::Last }),
        ("gpu_scatter_add"@, PrimitiveRecipe::ScatterAdd { axis: AxisRequirement::First }),
        ("gpu_sort"@, PrimitiveRecipe::Sort { direction: SortDirection::Ascending, stable: false, axis: AxisRequirement::All }),
        ("gpu_sum_all"@, PrimitiveRecipe::Reduce { operator: ReduceOperator::Sum, result: ReduceResult::Value, axes: AxisRequirement::All }),
    ]
}

/// The recipe of the first row named `symbol`.
pub open spec fn recipe_for_symbol(rows: Seq<(Seq<char>, PrimitiveRecipe)>, symbol: Seq<char>) -> Option<
    PrimitiveRecipe,
>
    decreases rows.len(),
{
    if rows.len() == 0 {
        None
    } else if rows[0].0 == symbol {
        Some(rows[0].1)
    } else {
        recipe_for_symbol(rows.drop_first(), symbol)
    }
}

fn primitive_symbol_table() -> (rows: Vec<(&'static str, PrimitiveRecipe)>)
    ensures
        rows@.map_values(|row: (&'static str, PrimitiveRecipe)| (row.0@, row.1))
            == primitive_symbol_rows(),
{
    let rows = vec![
        ("gpu_argmax_f32", PrimitiveRecipe::Reduce { operator: ReduceOperator::Maximum, result: ReduceResult::Index, axes: AxisRequirement::All }),
        ("gpu_argmax_rows", PrimitiveRecipe::Reduce { operator: ReduceOperator::Maximum, result: ReduceResult::Index, axes: AxisRequirement::Last }),
        ("gpu_argmin_rows", PrimitiveRecipe::Reduce { operator: ReduceOperator::Minimum, result: ReduceResult::Index, axes: AxisRequirement::Last }),
        ("gpu_bmm_into", PrimitiveRecipe::Contraction(ContractionClass::Batched)),
        ("gpu_cummax", PrimitiveRecipe::Scan { operator: ReduceOperator::Maximum, exclusive: false, axis: AxisRequirement::Any }),
        ("gpu_cumprod", PrimitiveRecipe::Scan { operator: ReduceOperator::Product, exclusive: false, axis: AxisRequirement::Any }),
        ("gpu_cumsum_cols", PrimitiveRecipe::Scan { operator: ReduceOperator::Sum, exclusive: false, axis: AxisRequirement::First }),
        ("gpu_cumsum_rows", PrimitiveRecipe::Scan { operator: ReduceOperator::Sum, exclusive: false, axis: AxisRequirement::Last }),
        ("gpu_dot", PrimitiveRecipe::Contraction(ContractionClass::Vector)),
        ("gpu_gather_rows_into", PrimitiveRecipe::Gather { axis: AxisRequirement::First }),
        ("gpu_gemm", PrimitiveRecipe::Contraction(ContractionClass::Matrix)),
        ("gpu_gemm_at", PrimitiveRecipe::Contraction(ContractionClass::LeftTransposedMatrix)),
        ("gpu_gemm_bt", PrimitiveRecipe::Contraction(ContractionClass::RightTransposedMatrix)),
        ("gpu_gemm_bt_into", PrimitiveRecipe::Contraction(ContractionClass::RightTransposedMatrix)),
        ("gpu_max_all", PrimitiveRecipe::Reduce { operator: ReduceOperator::Maximum, result: ReduceResult::Value, axes: AxisRequirement::All }),
        ("gpu_min_all", PrimitiveRecipe::Reduce { operator: ReduceOperator::Minimum, result: ReduceResult::Value, axes: AxisRequirement::All }),
        ("gpu_prefix_sum_exclusive", PrimitiveRecipe::Scan { operator: ReduceOperator::Sum, exclusive: true, axis: AxisRequirement::Any }),
        ("gpu_prefix_sum_inclusive", PrimitiveRecipe::Scan { operator: ReduceOperator::Sum, exclusive: false, axis: AxisRequirement::Any }),
        ("gpu_rand_uniform_into", PrimitiveRecipe::Random(RandomRecipe::UniformF32)),
        ("gpu_randn", PrimitiveRecipe::Random(RandomRecipe::NormalF32)),
        ("gpu_reduce_max_cols", PrimitiveRecipe::Reduce { operator: ReduceOperator::Maximum, result: ReduceResult::Value, axes: AxisRequirement::First }),
        ("gpu_reduce_max_rows", PrimitiveRecipe::Reduce { operator: ReduceOperator::Maximum, result: ReduceResult::Value, axes: AxisRequirement::Last }),
        ("gpu_reduce_min_cols", PrimitiveRecipe::Reduce { operator: ReduceOperator::Minimum, result: ReduceResult::Value, axes: AxisRequirement::First }),
        ("gpu_reduce_min_rows", PrimitiveRecipe::Reduce { operator: ReduceOperator::Minimum, result: ReduceResult::Value, axes: AxisRequirement::Last }),
        ("gpu_reduce_sum_cols_into", PrimitiveRecipe::Reduce { operator: ReduceOperator::Sum, result: ReduceResult::Value, axes: AxisRequirement::First }),
        ("gpu_reduce_sum_rows", PrimitiveRecipe::Reduce { operator: ReduceOperator::Sum, result: ReduceResult::Value, axes: AxisRequirement::Last }),
        ("gpu_scatter_add", PrimitiveRecipe::ScatterAdd { axis: AxisRequirement::First }),
        ("gpu_sort", PrimitiveRecipe::Sort { direction: SortDirection::Ascending, stable: false, axis: AxisRequirement::All }),
        ("gpu_sum_all", PrimitiveRecipe::Reduce { operator: ReduceOperator::Sum, result: ReduceResult::Value, axes: AxisRequirement::All }),
    ];
    assert(rows@.map_values(|row: (&'static str, PrimitiveRecipe)| (row.0@, row.1))
        =~= primitive_symbol_rows());
    rows
}

impl PrimitiveRecipe {
    /// The recipe of a legacy primitive entrypoint.
    pub fn for_symbol(symbol: &str) -> (recipe: Option<Self>)
        ensures
            recipe == recipe_for_symbol(primitive_symbol_rows(), symbol@),
    {
        let rows = primitive_symbol_table();
        let ghost view = rows@.map_values(|row: (&'static str, PrimitiveRecipe)| (row.0@, row.1));
        assert(view.subrange(0, view.len() as int) =~= view);
        let mut index: usize = 0;
        while index < rows.len()
            invariant
                index <= rows.len(),
                view == rows@.map_values(|row: (&'static str, PrimitiveRecipe)| (row.0@, row.1)),
                recipe_for_symbol(view.subrange(index as int, view.len() as int), symbol@)
                    == recipe_for_symbol(primitive_symbol_rows(), symbol@),
            decreases rows.len() - index,
        {
            let (candidate, recipe) = rows[index];
            let ghost rest = view.subrange(index as int, view.len() as int);
            assert(rest[0] == (candidate@, recipe));
            if text_eq(candidate, symbol) {
                return Some(recipe);
            }
            assert(rest.drop_first() =~= view.subrange(index + 1, view.len() as int));
            index = index + 1;
        }
        None
    }
}

} // verus!
