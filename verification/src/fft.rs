//! The radix-two fast Fourier transform as a chain of caller-tabled
//! butterfly stages: each stage gathers its left and right operands, mixes
//! them with the stage's coefficient tensors, and scatters the results into
//! the next real and imaginary images.
use vstd::prelude::*;

use crate::error::{OperationError, OperationErrorKind, OperationResult};
use crate::expansion::{
    ceiling_log_two, ceiling_log_two_spec, lemma_ceiling_log_two_bounded, lemma_ceiling_log_two_positive,
};
use crate::fragment::{NodeModel, StageEmitter, plan_room, plan_view};
use crate::names::indexed_name;
use crate::primitive::{GatherSpec, ScatterSpec};
use crate::request::{MAX_I32_INDEX, MaterializationRequest, TensorDecl, contract_differs, fact_fault, first_named};
use crate::staging::{
    elementwise, elementwise_node, four, fresh_values, gather, gather_node, lemma_small_plan_bounded, lemma_staged_start,
    one, planned_outcome, scatter, scatter_node, stage_kernels, stage_of, stage_of_four, stage_of_two, stage_values,
    staged, two, values_room,
};
use crate::types::{DType, ValueId};

verus! {

/// `n` is a power of two.
pub open spec fn power_of_two(n: nat) -> bool
    decreases n,
{
    if n <= 1 {
        n == 1
    } else if n % 2 == 1 {
        false
    } else {
        power_of_two(n / 2)
    }
}

/// What the checks before the first stage fix: the input real image, the
/// other boundary tensors, the transform length and the stage count.
pub struct FftHeader {
    pub real_part: TensorDecl,
    pub imaginary: ValueId,
    pub transformed_real: ValueId,
    pub transformed_imaginary: ValueId,
    pub elements: u64,
    pub stages: nat,
}

/// The header of a transform request, or why it is refused, in the order
/// the checks run.
pub open spec fn fft_header(request: MaterializationRequest) -> Result<FftHeader, OperationErrorKind> {
    match (
        first_named(request.inputs@, "real"@),
        first_named(request.inputs@, "imaginary"@),
        first_named(request.outputs@, "transformed_real"@),
        first_named(request.outputs@, "transformed_imaginary"@),
    ) {
        (Some(real_part), Some(imaginary), Some(transformed_real), Some(transformed_imaginary)) => {
            let elements = real_part.extents@[0];
            if real_part.dtype != DType::F32 || imaginary.dtype != DType::F32 || transformed_real.dtype != DType::F32
                || transformed_imaginary.dtype != DType::F32 {
                Err(OperationErrorKind::InvalidMaterializationRequest)
            } else if real_part.extents@.len() != 1 {
                Err(OperationErrorKind::UnsupportedConcreteShape)
            } else if contract_differs(real_part, imaginary) || contract_differs(real_part, transformed_real)
                || contract_differs(real_part, transformed_imaginary) {
                Err(OperationErrorKind::InvalidMaterializationRequest)
            } else if elements < 2 || !power_of_two(elements as nat) {
                Err(OperationErrorKind::UnsupportedConcreteShape)
            } else if elements > MAX_I32_INDEX {
                Err(OperationErrorKind::UnsupportedConcreteShape)
            } else if fact_fault(request, "fft_stage_tables_verified"@) is Some {
                Err(fact_fault(request, "fft_stage_tables_verified"@)->Some_0)
            } else if fact_fault(request, "fft_destination_indices_unique"@) is Some {
                Err(fact_fault(request, "fft_destination_indices_unique"@)->Some_0)
            } else {
                Ok(
                    FftHeader {
                        real_part,
                        imaginary: imaginary.id,
                        transformed_real: transformed_real.id,
                        transformed_imaginary: transformed_imaginary.id,
                        elements,
                        stages: ceiling_log_two_spec(elements) as nat,
                    },
                )
            }
        },
        _ => Err(OperationErrorKind::InvalidMaterializationRequest),
    }
}

/// The input of stage `stage` named `stage_<stage><suffix>`.
pub open spec fn stage_tensor(request: MaterializationRequest, stage: nat, suffix: Seq<char>) -> Option<TensorDecl> {
    first_named(request.inputs@, indexed_name("stage_"@, stage, suffix))
}

/// Why a tensor differs from the given payload type, then extents.
pub open spec fn typed_fault(tensor: TensorDecl, dtype: DType, extents: Seq<u64>) -> Option<OperationErrorKind> {
    if tensor.dtype != dtype {
        Some(OperationErrorKind::InvalidMaterializationRequest)
    } else if tensor.extents@ != extents {
        Some(OperationErrorKind::UnsupportedConcreteShape)
    } else {
        None
    }
}

/// The name suffix of the `k`-th butterfly coefficient of a stage.
pub open spec fn coefficient_suffix(k: int) -> Seq<char> {
    if k == 0 {
        "_real_from_left_real"@
    } else if k == 1 {
        "_real_from_left_imaginary"@
    } else if k == 2 {
        "_real_from_right_real"@
    } else if k == 3 {
        "_real_from_right_imaginary"@
    } else if k == 4 {
        "_imaginary_from_left_real"@
    } else if k == 5 {
        "_imaginary_from_left_imaginary"@
    } else if k == 6 {
        "_imaginary_from_right_real"@
    } else {
        "_imaginary_from_right_imaginary"@
    }
}

/// Why the operand index tables of a stage are refused.
pub open spec fn gather_fault(request: MaterializationRequest, elements: u64, stage: nat) -> Option<OperationErrorKind> {
    match (stage_tensor(request, stage, "_left_indices"@), stage_tensor(request, stage, "_right_indices"@)) {
        (Some(left), Some(right)) => if typed_fault(left, DType::I32, seq![elements]) is Some {
            typed_fault(left, DType::I32, seq![elements])
        } else {
            typed_fault(right, DType::I32, seq![elements])
        },
        _ => Some(OperationErrorKind::InvalidMaterializationRequest),
    }
}

/// Why the first `count` coefficients of a stage are refused.
pub open spec fn coefficients_fault(request: MaterializationRequest, elements: u64, stage: nat, count: nat) -> Option<
    OperationErrorKind,
>
    decreases count,
{
    if count == 0 {
        None
    } else if coefficients_fault(request, elements, stage, (count - 1) as nat) is Some {
        coefficients_fault(request, elements, stage, (count - 1) as nat)
    } else {
        typed_fault(
            stage_tensor(request, stage, coefficient_suffix(count - 1))->Some_0,
            DType::F32,
            seq![elements],
        )
    }
}

/// Why the coefficients of a stage are refused: one is missing, or the
/// first mistyped one.
pub open spec fn combine_fault(request: MaterializationRequest, elements: u64, stage: nat) -> Option<OperationErrorKind> {
    if exists|k: int| 0 <= k < 8 && stage_tensor(request, stage, #[trigger] coefficient_suffix(k)) is None {
        Some(OperationErrorKind::InvalidMaterializationRequest)
    } else {
        coefficients_fault(request, elements, stage, 8)
    }
}

/// Why the scatter tensors of a stage are refused.
pub open spec fn scatter_fault(request: MaterializationRequest, header: FftHeader, stage: nat) -> Option<
    OperationErrorKind,
> {
    match (
        stage_tensor(request, stage, "_real_base"@),
        stage_tensor(request, stage, "_imaginary_base"@),
        stage_tensor(request, stage, "_destination_indices"@),
    ) {
        (Some(real_base), Some(imaginary_base), Some(destinations)) => if contract_differs(header.real_part, real_base)
            || contract_differs(header.real_part, imaginary_base) {
            Some(OperationErrorKind::InvalidMaterializationRequest)
        } else {
            typed_fault(destinations, DType::I32, seq![header.elements])
        },
        _ => Some(OperationErrorKind::InvalidMaterializationRequest),
    }
}

/// Why step `step` cannot be emitted: each stage takes three steps, its
/// gather, its combination and its scatter.
pub open spec fn step_fault(request: MaterializationRequest, header: FftHeader, step: nat) -> Option<OperationErrorKind> {
    let stage = step / 3;
    if step % 3 == 0 {
        gather_fault(request, header.elements, stage)
    } else if step % 3 == 1 {
        combine_fault(request, header.elements, stage)
    } else {
        scatter_fault(request, header, stage)
    }
}

/// The first of the first `count` steps that cannot be emitted.
pub open spec fn first_step_fault(request: MaterializationRequest, header: FftHeader, count: nat) -> Option<nat>
    decreases count,
{
    if count == 0 {
        None
    } else {
        match first_step_fault(request, header, (count - 1) as nat) {
            Some(step) => Some(step),
            None => if step_fault(request, header, (count - 1) as nat) is Some {
                Some((count - 1) as nat)
            } else {
                None
            },
        }
    }
}

/// Storage bytes of the intermediates of a step: four gathered operands,
/// two combined images, and, but for the last stage, the next images.
pub open spec fn step_sizes(header: FftHeader, step: nat) -> Seq<u64> {
    let image = (header.elements * 4) as u64;
    if step % 3 == 0 {
        seq![image, image, image, image]
    } else if step % 3 == 1 {
        seq![image, image]
    } else if step / 3 + 1 < header.stages {
        seq![image, image]
    } else {
        Seq::empty()
    }
}

/// Storage bytes of the intermediates of the first `count` steps.
pub open spec fn fft_sizes(header: FftHeader, count: nat) -> Seq<u64>
    decreases count,
{
    if count == 0 {
        Seq::empty()
    } else {
        fft_sizes(header, (count - 1) as nat) + step_sizes(header, (count - 1) as nat)
    }
}

/// The coefficient tensors of a stage, in butterfly order.
pub open spec fn coefficient_ids(request: MaterializationRequest, stage: nat) -> Seq<ValueId> {
    Seq::new(8, |k: int| stage_tensor(request, stage, coefficient_suffix(k))->Some_0.id)
}

/// The stage of kernels of step `step` over intermediates `v`; stage `s`
/// starts at `v[8 * s]`.
pub open spec fn step_stage(request: MaterializationRequest, header: FftHeader, v: Seq<ValueId>, step: nat) -> Seq<
    NodeModel,
> {
    let stage = step / 3;
    let at = 8 * (stage as int);
    let real_part = if stage == 0 {
        header.real_part.id
    } else {
        v[at - 2]
    };
    let imaginary = if stage == 0 {
        header.imaginary
    } else {
        v[at - 1]
    };
    let checked = GatherSpec { axis: 0, rejects_out_of_bounds: true };
    if step % 3 == 0 {
        let left = stage_tensor(request, stage, "_left_indices"@)->Some_0.id;
        let right = stage_tensor(request, stage, "_right_indices"@)->Some_0.id;
        seq![
            gather_node(real_part, left, v[at], checked),
            gather_node(imaginary, left, v[at + 1], checked),
            gather_node(real_part, right, v[at + 2], checked),
            gather_node(imaginary, right, v[at + 3], checked),
        ]
    } else if step % 3 == 1 {
        seq![
            elementwise_node(
                seq![v[at], v[at + 1], v[at + 2], v[at + 3]] + coefficient_ids(request, stage),
                seq![v[at + 4], v[at + 5]],
            ),
        ]
    } else {
        let unique = ScatterSpec { axis: 0, rejects_out_of_bounds: true, atomic_add: false };
        let destinations = stage_tensor(request, stage, "_destination_indices"@)->Some_0.id;
        let next_real = if stage + 1 < header.stages {
            v[at + 6]
        } else {
            header.transformed_real
        };
        let next_imaginary = if stage + 1 < header.stages {
            v[at + 7]
        } else {
            header.transformed_imaginary
        };
        seq![
            scatter_node(
                stage_tensor(request, stage, "_real_base"@)->Some_0.id,
                destinations,
                v[at + 4],
                next_real,
                unique,
            ),
            scatter_node(
                stage_tensor(request, stage, "_imaginary_base"@)->Some_0.id,
                destinations,
                v[at + 5],
                next_imaginary,
                unique,
            ),
        ]
    }
}

/// The stages of the first `count` steps.
pub open spec fn fft_plan(request: MaterializationRequest, header: FftHeader, v: Seq<ValueId>, count: nat) -> Seq<
    Seq<NodeModel>,
>
    decreases count,
{
    if count == 0 {
        Seq::empty()
    } else {
        fft_plan(request, header, v, (count - 1) as nat).push(step_stage(request, header, v, (count - 1) as nat))
    }
}

/// The steps a transform emits before it stops: all of them, or those
/// before the first step that cannot be emitted.
pub open spec fn steps_reached(request: MaterializationRequest, header: FftHeader) -> nat {
    match first_step_fault(request, header, 3 * header.stages) {
        Some(step) => step,
        None => 3 * header.stages,
    }
}

/// What emitting a transform does to the emitter: a request refused
/// before the first stage leaves it unchanged; otherwise the steps are
/// emitted in order, and a step that cannot be emitted ends the emission
/// with its fault once every earlier step fitted.
pub open spec fn fft_outcome(
    request: MaterializationRequest,
    before: StageEmitter,
    after: StageEmitter,
    result: OperationResult<()>,
) -> bool {
    match fft_header(request) {
        Err(kind) => result matches Err(error) && error.kind == kind && after == before,
        Ok(header) => {
            let reached = steps_reached(request, header);
            let sizes = fft_sizes(header, reached);
            let plan = fft_plan(request, header, fresh_values(before, sizes.len()), reached);
            match first_step_fault(request, header, 3 * header.stages) {
                None => planned_outcome(sizes, plan, before, after, result),
                Some(step) => {
                    &&& after.families() == before.families()
                    &&& result is Err
                    &&& (values_room(before, sizes) && plan_room(before, plan) ==> (result matches Err(error)
                        && Some(error.kind) == step_fault(request, header, step)))
                },
            }
        },
    }
}

/// Index of the first intermediate of step `step`.
pub open spec fn step_base(step: nat) -> int {
    8 * ((step / 3) as int) + if step % 3 == 0 {
        0int
    } else if step % 3 == 1 {
        4int
    } else {
        6int
    }
}

/// Every stage but the last draws eight intermediates and the last draws
/// six.
proof fn lemma_fft_sizes_len(header: FftHeader, count: nat)
    requires
        count <= 3 * header.stages,
    ensures
        count < 3 * header.stages ==> fft_sizes(header, count).len() == step_base(count),
        count == 3 * header.stages && header.stages > 0 ==> fft_sizes(header, count).len() == 8 * header.stages
            - 2,
    decreases count,
{
    if count > 0 {
        let previous = (count - 1) as nat;
        lemma_fft_sizes_len(header, previous);
        assert(previous / 3 == count / 3 || (previous % 3 == 2 && count / 3 == previous / 3 + 1 && count % 3 == 0));
        assert(previous % 3 == 0 ==> count % 3 == 1 && count / 3 == previous / 3);
        assert(previous % 3 == 1 ==> count % 3 == 2 && count / 3 == previous / 3);
        assert(previous % 3 == 2 ==> count % 3 == 0 && count / 3 == previous / 3 + 1);
        assert(count == 3 * header.stages ==> previous % 3 == 2 && previous / 3 + 1 == header.stages);
    }
}

/// The sizes of the first steps are a prefix of the sizes of more steps.
proof fn lemma_fft_sizes_prefix(header: FftHeader, count: nat, goal: nat)
    requires
        count <= goal,
    ensures
        fft_sizes(header, count).len() <= fft_sizes(header, goal).len(),
        fft_sizes(header, goal).subrange(0, fft_sizes(header, count).len() as int) == fft_sizes(header, count),
    decreases goal,
{
    if count == goal {
        assert(fft_sizes(header, goal).subrange(0, fft_sizes(header, count).len() as int) =~= fft_sizes(
            header,
            count,
        ));
    } else {
        lemma_fft_sizes_prefix(header, count, (goal - 1) as nat);
        let shorter = fft_sizes(header, (goal - 1) as nat);
        assert(fft_sizes(header, goal).subrange(0, fft_sizes(header, count).len() as int) =~= shorter.subrange(
            0,
            fft_sizes(header, count).len() as int,
        ));
    }
}

/// The stages of the first steps are a prefix of the stages of more steps.
proof fn lemma_fft_plan_prefix(
    request: MaterializationRequest,
    header: FftHeader,
    v: Seq<ValueId>,
    count: nat,
    goal: nat,
)
    requires
        count <= goal,
    ensures
        fft_plan(request, header, v, count).len() == count,
        fft_plan(request, header, v, goal).len() == goal,
        fft_plan(request, header, v, goal).subrange(0, count as int) == fft_plan(request, header, v, count),
    decreases goal,
{
    if count == goal {
        if goal > 0 {
            lemma_fft_plan_prefix(request, header, v, (goal - 1) as nat, (goal - 1) as nat);
        }
        assert(fft_plan(request, header, v, goal).subrange(0, count as int) =~= fft_plan(request, header, v, count));
    } else {
        lemma_fft_plan_prefix(request, header, v, count, (goal - 1) as nat);
        let shorter = fft_plan(request, header, v, (goal - 1) as nat);
        assert(fft_plan(request, header, v, goal).subrange(0, count as int) =~= shorter.subrange(0, count as int));
    }
}

/// A faulty step after fault-free steps is the first faulty step of any
/// longer run of steps.
proof fn lemma_first_step_fault_at(request: MaterializationRequest, header: FftHeader, step: nat, count: nat)
    requires
        step < count,
        first_step_fault(request, header, step) is None,
        step_fault(request, header, step) is Some,
    ensures
        first_step_fault(request, header, count) == Some(step),
    decreases count,
{
    if count > step + 1 {
        lemma_first_step_fault_at(request, header, step, (count - 1) as nat);
    }
}

/// The first faulty step is faulty and comes after fault-free steps.
proof fn lemma_first_step_fault_is_fault(request: MaterializationRequest, header: FftHeader, count: nat)
    requires
        first_step_fault(request, header, count) is Some,
    ensures
        first_step_fault(request, header, count)->Some_0 < count,
        step_fault(request, header, first_step_fault(request, header, count)->Some_0) is Some,
        first_step_fault(request, header, first_step_fault(request, header, count)->Some_0) is None,
    decreases count,
{
    if first_step_fault(request, header, (count - 1) as nat) is Some {
        lemma_first_step_fault_is_fault(request, header, (count - 1) as nat);
    }
}

/// Once some coefficient is refused, the first refused coefficient stays
/// the fault of every longer run.
proof fn lemma_coefficients_fault_stays(
    request: MaterializationRequest,
    elements: u64,
    stage: nat,
    count: nat,
    goal: nat,
)
    requires
        count <= goal,
        coefficients_fault(request, elements, stage, count) is Some,
    ensures
        coefficients_fault(request, elements, stage, goal) == coefficients_fault(request, elements, stage, count),
    decreases goal,
{
    if goal > count {
        lemma_coefficients_fault_stays(request, elements, stage, count, (goal - 1) as nat);
    }
}

/// Whether `n` is a power of two.
fn is_power_of_two(n: u64) -> (answer: bool)
    ensures
        answer == power_of_two(n as nat),
{
    let mut m = n;
    while m > 1 && m % 2 == 0
        invariant
            power_of_two(m as nat) == power_of_two(n as nat),
        decreases m,
    {
        m = m / 2;
    }
    m == 1
}

/// Check a tensor's payload type, then its extents against `[elements]`.
fn require_typed_vector(request: &MaterializationRequest, tensor: &TensorDecl, dtype: DType, elements: u64) -> (result:
    OperationResult<()>)
    ensures
        match typed_fault(*tensor, dtype, seq![elements]) {
            Some(kind) => result matches Err(error) && error.kind == kind,
            None => result is Ok,
        },
{
    request.require_dtype(tensor, dtype)?;
    if tensor.extents.len() == 1 && tensor.extents[0] == elements {
        assert(tensor.extents@ =~= seq![elements]);
        Ok(())
    } else {
        Err(
            OperationError::new(
                OperationErrorKind::UnsupportedConcreteShape,
                "a transform table must have the transform length",
            ).for_operation(request.descriptor.id),
        )
    }
}

/// The operand index tables of stage `stage`, checked.
fn stage_indices<'a>(request: &'a MaterializationRequest, elements: u64, stage: u64) -> (result: OperationResult<
    (&'a TensorDecl, &'a TensorDecl),
>)
    ensures
        match gather_fault(*request, elements, stage as nat) {
            Some(kind) => result matches Err(error) && error.kind == kind,
            None => result matches Ok((left, right)) && Some(*left) == stage_tensor(
                *request,
                stage as nat,
                "_left_indices"@,
            ) && Some(*right) == stage_tensor(*request, stage as nat, "_right_indices"@),
        },
{
    let left = request.indexed_input("stage_", stage, "_left_indices")?;
    let right = request.indexed_input("stage_", stage, "_right_indices")?;
    require_typed_vector(request, left, DType::I32, elements)?;
    require_typed_vector(request, right, DType::I32, elements)?;
    Ok((left, right))
}

/// The coefficient tensors of stage `stage`, checked, in butterfly order.
fn stage_coefficients(request: &MaterializationRequest, elements: u64, stage: u64) -> (result: OperationResult<
    Vec<ValueId>,
>)
    ensures
        match combine_fault(*request, elements, stage as nat) {
            Some(kind) => result matches Err(error) && error.kind == kind,
            None => result matches Ok(ids) && ids@ == coefficient_ids(*request, stage as nat),
        },
{
    let suffixes: [&str; 8] = [
        "_real_from_left_real",
        "_real_from_left_imaginary",
        "_real_from_right_real",
        "_real_from_right_imaginary",
        "_imaginary_from_left_real",
        "_imaginary_from_left_imaginary",
        "_imaginary_from_right_real",
        "_imaginary_from_right_imaginary",
    ];
    assert forall|k: int| 0 <= k < 8 implies suffixes@[k]@ == coefficient_suffix(k) by {
        assert(suffixes@ == seq![
            "_real_from_left_real",
            "_real_from_left_imaginary",
            "_real_from_right_real",
            "_real_from_right_imaginary",
            "_imaginary_from_left_real",
            "_imaginary_from_left_imaginary",
            "_imaginary_from_right_real",
            "_imaginary_from_right_imaginary",
        ]);
    }
    let mut found: Vec<&TensorDecl> = Vec::new();
    let mut index: usize = 0;
    while index < 8
        invariant
            index <= 8,
            suffixes@.len() == 8,
            forall|k: int| 0 <= k < 8 ==> suffixes@[k]@ == coefficient_suffix(k),
            found@.len() == index,
            forall|k: int|
                0 <= k < index ==> stage_tensor(*request, stage as nat, coefficient_suffix(k)) == Some(
                    *found@[k],
                ),
        decreases 8 - index,
    {
        let tensor = match request.indexed_input("stage_", stage, suffixes[index]) {
            Ok(tensor) => tensor,
            Err(error) => {
                assert(stage_tensor(*request, stage as nat, coefficient_suffix(index as int)) is None);
                return Err(error);
            },
        };
        found.push(tensor);
        index = index + 1;
    }
    assert(!exists|k: int| 0 <= k < 8 && stage_tensor(*request, stage as nat, #[trigger] coefficient_suffix(k)) is None);
    let mut ids: Vec<ValueId> = Vec::new();
    let mut index: usize = 0;
    while index < 8
        invariant
            index <= 8,
            found@.len() == 8,
            forall|k: int|
                0 <= k < 8 ==> stage_tensor(*request, stage as nat, coefficient_suffix(k)) == Some(*found@[k]),
            coefficients_fault(*request, elements, stage as nat, index as nat) is None,
            ids@ == coefficient_ids(*request, stage as nat).subrange(0, index as int),
        decreases 8 - index,
    {
        match require_typed_vector(request, found[index], DType::F32, elements) {
            Ok(()) => {},
            Err(error) => {
                proof {
                    lemma_coefficients_fault_stays(*request, elements, stage as nat, (index + 1) as nat, 8);
                }
                return Err(error);
            },
        }
        ids.push(found[index].id);
        index = index + 1;
        assert(ids@ =~= coefficient_ids(*request, stage as nat).subrange(0, index as int));
    }
    assert(ids@ =~= coefficient_ids(*request, stage as nat));
    Ok(ids)
}

/// The scatter tensors of stage `stage`, checked.
fn stage_bases<'a>(
    request: &'a MaterializationRequest,
    real_part: &TensorDecl,
    elements: u64,
    stage: u64,
) -> (result: OperationResult<(&'a TensorDecl, &'a TensorDecl, &'a TensorDecl)>)
    requires
        real_part.extents@ == seq![elements],
    ensures
        forall|header: FftHeader|
            header.real_part == *real_part && header.elements == elements ==> match scatter_fault(
                *request,
                header,
                stage as nat,
            ) {
                Some(kind) => result matches Err(error) && error.kind == kind,
                None => result matches Ok((real_base, imaginary_base, destinations)) && Some(*real_base)
                    == stage_tensor(*request, stage as nat, "_real_base"@) && Some(*imaginary_base)
                    == stage_tensor(*request, stage as nat, "_imaginary_base"@) && Some(*destinations)
                    == stage_tensor(*request, stage as nat, "_destination_indices"@),
            },
{
    let real_base = request.indexed_input("stage_", stage, "_real_base")?;
    let imaginary_base = request.indexed_input("stage_", stage, "_imaginary_base")?;
    let destinations = request.indexed_input("stage_", stage, "_destination_indices")?;
    request.require_same_tensor_contract(real_part, real_base)?;
    request.require_same_tensor_contract(real_part, imaginary_base)?;
    require_typed_vector(request, destinations, DType::I32, elements)?;
    Ok((real_base, imaginary_base, destinations))
}

/// Emit the radix-two transform, stage by stage.
#[verifier::rlimit(100)]
pub fn emit_radix_two_fft(request: &MaterializationRequest, emitter: &mut StageEmitter) -> (result: OperationResult<
    (),
>)
    requires
        old(emitter).wf(),
    ensures
        final(emitter).wf(),
        fft_outcome(*request, *old(emitter), *final(emitter), result),
{
    let real_part = request.input("real")?;
    let imaginary = request.input("imaginary")?;
    let transformed_real = request.output("transformed_real")?;
    let transformed_imaginary = request.output("transformed_imaginary")?;
    request.require_dtype(real_part, DType::F32)?;
    request.require_dtype(imaginary, DType::F32)?;
    request.require_dtype(transformed_real, DType::F32)?;
    request.require_dtype(transformed_imaginary, DType::F32)?;
    if real_part.extents.len() != 1 {
        return Err(
            OperationError::new(
                OperationErrorKind::UnsupportedConcreteShape,
                "FFT real and imaginary payloads must be rank-one",
            ).for_operation(request.descriptor.id),
        );
    }
    request.require_same_tensor_contract(real_part, imaginary)?;
    request.require_same_tensor_contract(real_part, transformed_real)?;
    request.require_same_tensor_contract(real_part, transformed_imaginary)?;
    let elements = real_part.extents[0];
    if elements < 2 || !is_power_of_two(elements) {
        return Err(
            OperationError::new(
                OperationErrorKind::UnsupportedConcreteShape,
                "FFT length must be a power of two of at least two",
            ).for_operation(request.descriptor.id),
        );
    }
    if elements > MAX_I32_INDEX {
        return Err(
            OperationError::new(
                OperationErrorKind::UnsupportedConcreteShape,
                "FFT length must fit checked int32 indexes",
            ).for_operation(request.descriptor.id),
        );
    }
    request.require_true("fft_stage_tables_verified")?;
    request.require_true("fft_destination_indices_unique")?;
    let stages = ceiling_log_two(elements);
    let image = elements * 4;
    assert(real_part.extents@ =~= seq![elements]);
    let ghost header = fft_header(*request)->Ok_0;
    let ghost base = *emitter;
    let ghost reached = steps_reached(*request, header);
    let ghost goal_sizes = fft_sizes(header, reached);
    let ghost values = fresh_values(base, goal_sizes.len());
    let ghost goal_plan = fft_plan(*request, header, values, reached);
    proof {
        lemma_staged_start(base);
        lemma_ceiling_log_two_positive(elements);
        lemma_ceiling_log_two_bounded(elements);
        if first_step_fault(*request, header, 3 * header.stages) is Some {
            lemma_first_step_fault_is_fault(*request, header, 3 * header.stages);
        }
        assert(fft_sizes(header, 0) =~= Seq::<u64>::empty());
        assert(fft_plan(*request, header, values, 0) =~= Seq::<Seq<NodeModel>>::empty());
    }
    let mut current_real = real_part.id;
    let mut current_imaginary = imaginary.id;
    let mut stage: u64 = 0;
    while stage < stages
        invariant
            base.wf(),
            base == *old(emitter),
            header == fft_header(*request)->Ok_0,
            fft_header(*request) is Ok,
            header.real_part == *real_part,
            real_part.extents@ == seq![elements],
            elements == header.elements,
            stages == header.stages,
            1 <= stages <= 64,
            image == elements * 4,
            elements <= MAX_I32_INDEX,
            transformed_real.id == header.transformed_real,
            transformed_imaginary.id == header.transformed_imaginary,
            3 * stage <= reached,
            reached <= 3 * stages,
            reached == steps_reached(*request, header),
            goal_sizes == fft_sizes(header, reached),
            values == fresh_values(base, goal_sizes.len()),
            goal_plan == fft_plan(*request, header, values, reached),
            first_step_fault(*request, header, 3 * header.stages) is Some ==> first_step_fault(
                *request,
                header,
                reached,
            ) is None && step_fault(*request, header, reached) is Some && reached < 3 * stages,
            first_step_fault(*request, header, 3 * header.stages) is None ==> reached == 3 * stages,
            first_step_fault(*request, header, (3 * stage) as nat) is None,
            staged(
                base,
                *emitter,
                fft_sizes(header, (3 * stage) as nat),
                fft_plan(*request, header, values, (3 * stage) as nat),
            ),
            stage == 0 ==> current_real == header.real_part.id && current_imaginary == header.imaginary,
            0 < stage < stages ==> current_real == values[8 * stage - 2] && current_imaginary == values[8 * stage
                - 1],
        decreases stages - stage,
    {
        let first = 3 * stage;
        assert(first / 3 == stage && first % 3 == 0);
        assert((first + 1) / 3 == stage && (first + 1) % 3 == 1);
        assert((first + 2) / 3 == stage && (first + 2) % 3 == 2);
        assert((first + 3) / 3 == stage + 1 && (first + 3) % 3 == 0);
        // The gather step.
        let (left, right) = match stage_indices(request, elements, stage) {
            Ok(tables) => tables,
            Err(error) => {
                proof {
                    lemma_first_step_fault_at(*request, header, first as nat, 3 * header.stages);
                }
                return Err(error);
            },
        };
        assert(step_fault(*request, header, first as nat) is None);
        assert(first_step_fault(*request, header, (first + 1) as nat) is None);
        proof {
            if first == reached {
                assert(first_step_fault(*request, header, 3 * header.stages) is Some);
            }
            lemma_fft_sizes_len(header, first as nat);
            lemma_fft_sizes_len(header, (first + 1) as nat);
            lemma_fft_sizes_prefix(header, (first + 1) as nat, reached);
            lemma_fft_sizes_prefix(header, first as nat, reached);
            lemma_fft_plan_prefix(*request, header, values, first as nat, reached);
            lemma_fft_plan_prefix(*request, header, values, (first + 1) as nat, reached);
        }
        let sizes = four(image, image, image, image);
        let gathered = stage_values(
            emitter,
            Ghost(base),
            Ghost(goal_sizes),
            Ghost(goal_plan),
            Ghost(fft_sizes(header, first as nat)),
            Ghost(fft_plan(*request, header, values, first as nat)),
            &sizes,
        )?;
        proof {
            assert forall|k: int| 0 <= k < 4 implies gathered@[k] == values[8 * stage + k] by {
                assert(gathered@[k] == fresh_values(base, fft_sizes(header, (first + 1) as nat).len())[8 * stage + k]);
            }
        }
        let checked = GatherSpec { axis: 0, rejects_out_of_bounds: true };
        let stages_now = one(
            stage_of_four(
                gather(current_real, left.id, gathered[0], checked),
                gather(current_imaginary, left.id, gathered[1], checked),
                gather(current_real, right.id, gathered[2], checked),
                gather(current_imaginary, right.id, gathered[3], checked),
            ),
        );
        proof {
            assert(plan_view(stages_now@) =~= seq![step_stage(*request, header, values, first as nat)]);
            assert(fft_plan(*request, header, values, (first + 1) as nat) =~= fft_plan(
                *request,
                header,
                values,
                first as nat,
            ) + plan_view(stages_now@));
            lemma_small_plan_bounded(plan_view(stages_now@));
        }
        stage_kernels(
            emitter,
            Ghost(base),
            Ghost(goal_sizes),
            Ghost(goal_plan),
            Ghost(fft_sizes(header, (first + 1) as nat)),
            Ghost(fft_plan(*request, header, values, first as nat)),
            stages_now,
        )?;
        // The combination step.
        let coefficients = match stage_coefficients(request, elements, stage) {
            Ok(ids) => ids,
            Err(error) => {
                proof {
                    lemma_first_step_fault_at(*request, header, (first + 1) as nat, 3 * header.stages);
                }
                return Err(error);
            },
        };
        assert(step_fault(*request, header, (first + 1) as nat) is None);
        assert(first_step_fault(*request, header, (first + 2) as nat) is None);
        proof {
            if first + 1 == reached {
                assert(first_step_fault(*request, header, 3 * header.stages) is Some);
            }
            lemma_fft_sizes_len(header, (first + 2) as nat);
            lemma_fft_sizes_prefix(header, (first + 2) as nat, reached);
            lemma_fft_plan_prefix(*request, header, values, (first + 2) as nat, reached);
        }
        let sizes = two(image, image);
        let combined = stage_values(
            emitter,
            Ghost(base),
            Ghost(goal_sizes),
            Ghost(goal_plan),
            Ghost(fft_sizes(header, (first + 1) as nat)),
            Ghost(fft_plan(*request, header, values, (first + 1) as nat)),
            &sizes,
        )?;
        proof {
            assert forall|k: int| 0 <= k < 2 implies combined@[k] == values[8 * stage + 4 + k] by {
                assert(combined@[k] == fresh_values(base, fft_sizes(header, (first + 2) as nat).len())[8 * stage + 4
                    + k]);
            }
        }
        let mut inputs = four(gathered[0], gathered[1], gathered[2], gathered[3]);
        let mut index: usize = 0;
        while index < 8
            invariant
                index <= 8,
                coefficients@.len() == 8,
                gathered@.len() == 4,
                inputs@ == gathered@.subrange(0, 4) + coefficients@.subrange(0, index as int),
            decreases 8 - index,
        {
            inputs.push(coefficients[index]);
            index = index + 1;
            assert(inputs@ =~= gathered@.subrange(0, 4) + coefficients@.subrange(0, index as int));
        }
        let stages_now = one(stage_of(elementwise(inputs, two(combined[0], combined[1]))));
        proof {
            assert(coefficients@.subrange(0, 8) =~= coefficients@);
            let at = 8 * stage;
            assert(gathered@.subrange(0, 4) =~= seq![values[at as int], values[at + 1], values[at + 2], values[at + 3]]);
            assert(inputs@ =~= seq![values[at as int], values[at + 1], values[at + 2], values[at + 3]]
                + coefficient_ids(*request, stage as nat));
            assert(plan_view(stages_now@) =~= seq![step_stage(*request, header, values, (first + 1) as nat)]);
            assert(fft_plan(*request, header, values, (first + 2) as nat) =~= fft_plan(
                *request,
                header,
                values,
                (first + 1) as nat,
            ) + plan_view(stages_now@));
            lemma_small_plan_bounded(plan_view(stages_now@));
        }
        stage_kernels(
            emitter,
            Ghost(base),
            Ghost(goal_sizes),
            Ghost(goal_plan),
            Ghost(fft_sizes(header, (first + 2) as nat)),
            Ghost(fft_plan(*request, header, values, (first + 1) as nat)),
            stages_now,
        )?;
        // The scatter step.
        let (real_base, imaginary_base, destinations) = match stage_bases(request, real_part, elements, stage) {
            Ok(tensors) => tensors,
            Err(error) => {
                proof {
                    lemma_first_step_fault_at(*request, header, (first + 2) as nat, 3 * header.stages);
                }
                return Err(error);
            },
        };
        assert(step_fault(*request, header, (first + 2) as nat) is None);
        assert(first_step_fault(*request, header, (first + 3) as nat) is None);
        proof {
            if first + 2 == reached {
                assert(first_step_fault(*request, header, 3 * header.stages) is Some);
            }
            lemma_fft_sizes_len(header, (first + 3) as nat);
            lemma_fft_sizes_prefix(header, (first + 3) as nat, reached);
            lemma_fft_plan_prefix(*request, header, values, (first + 3) as nat, reached);
        }
        let last = stage + 1 == stages;
        let sizes: Vec<u64> = if last {
            Vec::new()
        } else {
            two(image, image)
        };
        proof {
            assert(sizes@ =~= step_sizes(header, (first + 2) as nat));
        }
        let next = stage_values(
            emitter,
            Ghost(base),
            Ghost(goal_sizes),
            Ghost(goal_plan),
            Ghost(fft_sizes(header, (first + 2) as nat)),
            Ghost(fft_plan(*request, header, values, (first + 2) as nat)),
            &sizes,
        )?;
        proof {
            assert forall|k: int| 0 <= k < sizes@.len() implies next@[k] == values[8 * stage + 6 + k] by {
                assert(next@[k] == fresh_values(base, fft_sizes(header, (first + 3) as nat).len())[8 * stage + 6
                    + k]);
            }
        }
        let next_real = if last {
            transformed_real.id
        } else {
            next[0]
        };
        let next_imaginary = if last {
            transformed_imaginary.id
        } else {
            next[1]
        };
        let unique = ScatterSpec { axis: 0, rejects_out_of_bounds: true, atomic_add: false };
        let stages_now = one(
            stage_of_two(
                scatter(real_base.id, destinations.id, combined[0], next_real, unique),
                scatter(imaginary_base.id, destinations.id, combined[1], next_imaginary, unique),
            ),
        );
        proof {
            assert(plan_view(stages_now@) =~= seq![step_stage(*request, header, values, (first + 2) as nat)]);
            assert(fft_plan(*request, header, values, (first + 3) as nat) =~= fft_plan(
                *request,
                header,
                values,
                (first + 2) as nat,
            ) + plan_view(stages_now@));
            lemma_small_plan_bounded(plan_view(stages_now@));
        }
        stage_kernels(
            emitter,
            Ghost(base),
            Ghost(goal_sizes),
            Ghost(goal_plan),
            Ghost(fft_sizes(header, (first + 3) as nat)),
            Ghost(fft_plan(*request, header, values, (first + 2) as nat)),
            stages_now,
        )?;
        current_real = next_real;
        current_imaginary = next_imaginary;
        stage = stage + 1;
    }
    Ok(())
}

} // verus!
