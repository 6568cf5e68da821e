//! Forward substitution of a triangular system, one row at a time: the dot
//! product of the row's strict prefix with the current solution, the solved
//! entry, and its scatter into the next solution image.
use vstd::prelude::*;

use crate::error::{OperationError, OperationErrorKind, OperationResult};
use crate::fragment::{NodeModel, StageEmitter, plan_room, plan_view};
use crate::names::indexed_name;
use crate::primitive::ScatterSpec;
use crate::request::{MaterializationRequest, TensorDecl, fact_fault, first_named, lanes_verdict};
use crate::staging::{
    axis_list, elementwise, elementwise_node, four, fresh_values, lemma_small_plan_bounded,
    lemma_staged_start, one, planned_outcome, scatter, scatter_node, stage_kernels, stage_of, stage_of_two,
    stage_values, staged, sum, sum_node, three, two, values_room,
};
use crate::types::{DType, ValueId};

verus! {

/// What the checks before the first row fix: the solution image the rows
/// start from, the solution, the row count and the reduction tree width.
pub struct SolveHeader {
    pub base: ValueId,
    pub solution: ValueId,
    pub rows: u64,
    pub lanes: u32,
}

/// The header of a solve request, or why it is refused, in the order the
/// checks run.
pub open spec fn solve_header(request: MaterializationRequest) -> Result<SolveHeader, OperationErrorKind> {
    match (first_named(request.inputs@, "solution_base"@), first_named(request.outputs@, "solution"@)) {
        (Some(base), Some(solution)) => if base.dtype != DType::F32 {
            Err(OperationErrorKind::InvalidMaterializationRequest)
        } else if solution.dtype != base.dtype || solution.extents@ != base.extents@ {
            Err(OperationErrorKind::InvalidMaterializationRequest)
        } else if base.extents@.len() != 1 || base.extents@[0] == 0 {
            Err(OperationErrorKind::UnsupportedConcreteShape)
        } else if fact_fault(request, "solution_base_zero"@) is Some {
            Err(fact_fault(request, "solution_base_zero"@)->Some_0)
        } else if fact_fault(request, "triangular_rows_verified"@) is Some {
            Err(fact_fault(request, "triangular_rows_verified"@)->Some_0)
        } else if fact_fault(request, "destination_indices_unique"@) is Some {
            Err(fact_fault(request, "destination_indices_unique"@)->Some_0)
        } else if lanes_verdict(request) is Err {
            Err(lanes_verdict(request)->Err_0)
        } else {
            Ok(
                SolveHeader {
                    base: base.id,
                    solution: solution.id,
                    rows: base.extents@[0],
                    lanes: lanes_verdict(request)->Ok_0,
                },
            )
        },
        _ => Err(OperationErrorKind::InvalidMaterializationRequest),
    }
}

/// The input of row `row` named `row_<row><suffix>`.
pub open spec fn row_tensor(request: MaterializationRequest, row: nat, suffix: Seq<char>) -> Option<TensorDecl> {
    first_named(request.inputs@, indexed_name("row_"@, row, suffix))
}

/// Why a tensor is not a `[1]` tensor of the given payload type.
pub open spec fn scalar_fault(tensor: TensorDecl, dtype: DType) -> Option<OperationErrorKind> {
    if tensor.dtype != dtype {
        Some(OperationErrorKind::InvalidMaterializationRequest)
    } else if tensor.extents@ != seq![1u64] {
        Some(OperationErrorKind::UnsupportedConcreteShape)
    } else {
        None
    }
}

/// Why row `row` cannot be emitted: a missing or mistyped row tensor, or a
/// solution image whose storage bytes leave `u64`.
pub open spec fn row_fault(request: MaterializationRequest, rows: u64, row: nat) -> Option<OperationErrorKind> {
    match (
        row_tensor(request, row, "_strict_prefix"@),
        row_tensor(request, row, "_rhs"@),
        row_tensor(request, row, "_diagonal"@),
        row_tensor(request, row, "_destination"@),
    ) {
        (Some(coefficients), Some(rhs), Some(diagonal), Some(destination)) => if coefficients.dtype
            != DType::F32 {
            Some(OperationErrorKind::InvalidMaterializationRequest)
        } else if coefficients.extents@ != seq![rows] {
            Some(OperationErrorKind::UnsupportedConcreteShape)
        } else if scalar_fault(rhs, DType::F32) is Some {
            scalar_fault(rhs, DType::F32)
        } else if scalar_fault(diagonal, DType::F32) is Some {
            scalar_fault(diagonal, DType::F32)
        } else if scalar_fault(destination, DType::I32) is Some {
            scalar_fault(destination, DType::I32)
        } else if rows * 4 > u64::MAX {
            Some(OperationErrorKind::GraphMaterializationFailed)
        } else {
            None
        },
        _ => Some(OperationErrorKind::InvalidMaterializationRequest),
    }
}

/// The first of the first `count` rows that cannot be emitted.
pub open spec fn first_row_fault(request: MaterializationRequest, rows: u64, count: nat) -> Option<nat>
    decreases count,
{
    if count == 0 {
        None
    } else {
        match first_row_fault(request, rows, (count - 1) as nat) {
            Some(row) => Some(row),
            None => if row_fault(request, rows, (count - 1) as nat) is Some {
                Some((count - 1) as nat)
            } else {
                None
            },
        }
    }
}

/// Storage bytes of the intermediates of row `row`: the products, their
/// sum, the solved entry and, but for the last row, the next solution.
pub open spec fn row_sizes(rows: u64, row: nat) -> Seq<u64> {
    let image = (rows * 4) as u64;
    if row + 1 < rows {
        seq![image, 4u64, 4u64, image]
    } else {
        seq![image, 4u64, 4u64]
    }
}

/// Storage bytes of the intermediates of the first `count` rows.
pub open spec fn solve_sizes(rows: u64, count: nat) -> Seq<u64>
    decreases count,
{
    if count == 0 {
        Seq::empty()
    } else {
        solve_sizes(rows, (count - 1) as nat) + row_sizes(rows, (count - 1) as nat)
    }
}

/// The stages of row `row` over intermediates `v`, whose row starts at
/// `v[4 * row]`.
pub open spec fn row_stages(request: MaterializationRequest, header: SolveHeader, v: Seq<ValueId>, row: nat) -> Seq<
    Seq<NodeModel>,
> {
    let coefficients = row_tensor(request, row, "_strict_prefix"@)->Some_0.id;
    let rhs = row_tensor(request, row, "_rhs"@)->Some_0.id;
    let diagonal = row_tensor(request, row, "_diagonal"@)->Some_0.id;
    let destination = row_tensor(request, row, "_destination"@)->Some_0.id;
    let at = 4 * (row as int);
    let current = if row == 0 {
        header.base
    } else {
        v[at - 1]
    };
    let next = if row + 1 < header.rows {
        v[at + 3]
    } else {
        header.solution
    };
    seq![
        seq![
            elementwise_node(seq![coefficients, current], seq![v[at]]),
            sum_node(v[at], v[at + 1], seq![0usize], false, header.lanes),
        ],
        seq![elementwise_node(seq![rhs, v[at + 1], diagonal], seq![v[at + 2]])],
        seq![
            scatter_node(
                current,
                destination,
                v[at + 2],
                next,
                ScatterSpec { axis: 0, rejects_out_of_bounds: true, atomic_add: false },
            ),
        ],
    ]
}

/// The stages of the first `count` rows.
pub open spec fn solve_plan(request: MaterializationRequest, header: SolveHeader, v: Seq<ValueId>, count: nat) -> Seq<
    Seq<NodeModel>,
>
    decreases count,
{
    if count == 0 {
        Seq::empty()
    } else {
        solve_plan(request, header, v, (count - 1) as nat) + row_stages(request, header, v, (count - 1) as nat)
    }
}

/// The rows a solve emits before it stops: all of them, or those before
/// the first row that cannot be emitted.
pub open spec fn rows_reached(request: MaterializationRequest, rows: u64) -> nat {
    match first_row_fault(request, rows, rows as nat) {
        Some(row) => row,
        None => rows as nat,
    }
}

/// What emitting a solve does to the emitter: a request refused before
/// the first row leaves it unchanged; otherwise the rows are emitted in
/// order, and a row that cannot be emitted ends the emission with its
/// fault once every earlier row fitted.
pub open spec fn solve_outcome(
    request: MaterializationRequest,
    before: StageEmitter,
    after: StageEmitter,
    result: OperationResult<()>,
) -> bool {
    match solve_header(request) {
        Err(kind) => result matches Err(error) && error.kind == kind && after == before,
        Ok(header) => {
            let reached = rows_reached(request, header.rows);
            let sizes = solve_sizes(header.rows, reached);
            let plan = solve_plan(request, header, fresh_values(before, sizes.len()), reached);
            match first_row_fault(request, header.rows, header.rows as nat) {
                None => planned_outcome(sizes, plan, before, after, result),
                Some(row) => {
                    &&& after.families() == before.families()
                    &&& result is Err
                    &&& (values_room(before, sizes) && plan_room(before, plan) ==> (result matches Err(error)
                        && Some(error.kind) == row_fault(request, header.rows, row)))
                },
            }
        },
    }
}

/// Every row but the last draws four intermediates and the last draws
/// three.
proof fn lemma_solve_sizes_len(rows: u64, count: nat)
    requires
        count <= rows,
    ensures
        count < rows ==> solve_sizes(rows, count).len() == 4 * count,
        count == rows && rows > 0 ==> solve_sizes(rows, count).len() == 4 * count - 1,
    decreases count,
{
    if count > 0 {
        lemma_solve_sizes_len(rows, (count - 1) as nat);
    }
}

/// The sizes of the first rows are a prefix of the sizes of more rows.
proof fn lemma_solve_sizes_prefix(rows: u64, count: nat, goal: nat)
    requires
        count <= goal,
    ensures
        solve_sizes(rows, count).len() <= solve_sizes(rows, goal).len(),
        solve_sizes(rows, goal).subrange(0, solve_sizes(rows, count).len() as int) == solve_sizes(rows, count),
    decreases goal,
{
    if count == goal {
        assert(solve_sizes(rows, goal).subrange(0, solve_sizes(rows, count).len() as int) =~= solve_sizes(
            rows,
            count,
        ));
    } else {
        lemma_solve_sizes_prefix(rows, count, (goal - 1) as nat);
        let shorter = solve_sizes(rows, (goal - 1) as nat);
        assert(solve_sizes(rows, goal).subrange(0, solve_sizes(rows, count).len() as int) =~= shorter.subrange(
            0,
            solve_sizes(rows, count).len() as int,
        ));
    }
}

/// The stages of the first rows are a prefix of the stages of more rows.
proof fn lemma_solve_plan_prefix(
    request: MaterializationRequest,
    header: SolveHeader,
    v: Seq<ValueId>,
    count: nat,
    goal: nat,
)
    requires
        count <= goal,
    ensures
        solve_plan(request, header, v, count).len() == 3 * count,
        solve_plan(request, header, v, goal).len() == 3 * goal,
        solve_plan(request, header, v, goal).subrange(0, 3 * (count as int)) == solve_plan(request, header, v, count),
    decreases goal,
{
    if count == goal {
        if goal > 0 {
            lemma_solve_plan_prefix(request, header, v, (goal - 1) as nat, (goal - 1) as nat);
        }
        assert(solve_plan(request, header, v, goal).subrange(0, 3 * (count as int)) =~= solve_plan(request, header, v, count));
    } else {
        lemma_solve_plan_prefix(request, header, v, count, (goal - 1) as nat);
        let shorter = solve_plan(request, header, v, (goal - 1) as nat);
        assert(solve_plan(request, header, v, goal).subrange(0, 3 * (count as int)) =~= shorter.subrange(0, 3 * (count as int)));
    }
}

/// A faulty row after fault-free rows is the first faulty row of any
/// longer run of rows.
proof fn lemma_first_fault_at(request: MaterializationRequest, rows: u64, row: nat, count: nat)
    requires
        row < count,
        first_row_fault(request, rows, row) is None,
        row_fault(request, rows, row) is Some,
    ensures
        first_row_fault(request, rows, count) == Some(row),
    decreases count,
{
    if count > row + 1 {
        lemma_first_fault_at(request, rows, row, (count - 1) as nat);
    }
}

/// The first faulty row is faulty and comes after fault-free rows.
proof fn lemma_first_fault_is_fault(request: MaterializationRequest, rows: u64, count: nat)
    requires
        first_row_fault(request, rows, count) is Some,
    ensures
        first_row_fault(request, rows, count)->Some_0 < count,
        row_fault(request, rows, first_row_fault(request, rows, count)->Some_0) is Some,
        first_row_fault(request, rows, first_row_fault(request, rows, count)->Some_0) is None,
    decreases count,
{
    if first_row_fault(request, rows, (count - 1) as nat) is Some {
        lemma_first_fault_is_fault(request, rows, (count - 1) as nat);
    }
}

/// Check that a row tensor is a `[1]` tensor of the given payload type.
fn require_scalar(request: &MaterializationRequest, tensor: &TensorDecl, dtype: DType) -> (result: OperationResult<()>)
    ensures
        match scalar_fault(*tensor, dtype) {
            Some(kind) => result matches Err(error) && error.kind == kind,
            None => result is Ok,
        },
{
    request.require_dtype(tensor, dtype)?;
    if tensor.extents.len() == 1 && tensor.extents[0] == 1 {
        assert(tensor.extents@ =~= seq![1u64]);
        Ok(())
    } else {
        Err(
            OperationError::new(
                OperationErrorKind::UnsupportedConcreteShape,
                "a triangular-solve row scalar must have shape [1]",
            ).for_operation(request.descriptor.id),
        )
    }
}

/// The row tensors of row `row`: its strict prefix, right-hand side,
/// diagonal and destination, checked.
fn row_tensors<'a>(request: &'a MaterializationRequest, rows: u64, row: u64) -> (result: OperationResult<
    (&'a TensorDecl, &'a TensorDecl, &'a TensorDecl, &'a TensorDecl, u64),
>)
    ensures
        match row_fault(*request, rows, row as nat) {
            Some(kind) => result matches Err(error) && error.kind == kind,
            None => result matches Ok((coefficients, rhs, diagonal, destination, image)) && {
                &&& Some(*coefficients) == row_tensor(*request, row as nat, "_strict_prefix"@)
                &&& Some(*rhs) == row_tensor(*request, row as nat, "_rhs"@)
                &&& Some(*diagonal) == row_tensor(*request, row as nat, "_diagonal"@)
                &&& Some(*destination) == row_tensor(*request, row as nat, "_destination"@)
                &&& image == rows * 4
            },
        },
{
    let coefficients = request.indexed_input("row_", row, "_strict_prefix")?;
    let rhs = request.indexed_input("row_", row, "_rhs")?;
    let diagonal = request.indexed_input("row_", row, "_diagonal")?;
    let destination = request.indexed_input("row_", row, "_destination")?;
    request.require_dtype(coefficients, DType::F32)?;
    if !(coefficients.extents.len() == 1 && coefficients.extents[0] == rows) {
        assert(coefficients.extents@ != seq![rows]);
        return Err(
            OperationError::new(
                OperationErrorKind::UnsupportedConcreteShape,
                "a triangular-solve row prefix must match the solution shape",
            ).for_operation(request.descriptor.id),
        );
    }
    assert(coefficients.extents@ =~= seq![rows]);
    require_scalar(request, rhs, DType::F32)?;
    require_scalar(request, diagonal, DType::F32)?;
    require_scalar(request, destination, DType::I32)?;
    let image = match rows.checked_mul(4) {
        Some(bytes) => bytes,
        None => {
            return Err(
                OperationError::new(
                    OperationErrorKind::GraphMaterializationFailed,
                    "solution image storage bytes overflow u64",
                ).for_operation(request.descriptor.id),
            );
        },
    };
    Ok((coefficients, rhs, diagonal, destination, image))
}

/// Emit the forward substitution of a triangular system, row by row.
#[verifier::rlimit(80)]
pub fn emit_triangular_solve(request: &MaterializationRequest, emitter: &mut StageEmitter) -> (result: OperationResult<
    (),
>)
    requires
        old(emitter).wf(),
    ensures
        final(emitter).wf(),
        solve_outcome(*request, *old(emitter), *final(emitter), result),
{
    let base_tensor = request.input("solution_base")?;
    let solution = request.output("solution")?;
    request.require_dtype(base_tensor, DType::F32)?;
    request.require_same_tensor_contract(base_tensor, solution)?;
    if base_tensor.extents.len() != 1 || base_tensor.extents[0] == 0 {
        return Err(
            OperationError::new(
                OperationErrorKind::UnsupportedConcreteShape,
                "triangular solve requires a nonempty rank-one solution shape",
            ).for_operation(request.descriptor.id),
        );
    }
    request.require_true("solution_base_zero")?;
    request.require_true("triangular_rows_verified")?;
    request.require_true("destination_indices_unique")?;
    let lanes = request.prepared_tree_lanes()?;
    let rows = base_tensor.extents[0];
    let ghost header = solve_header(*request)->Ok_0;
    let ghost base = *emitter;
    let ghost reached = rows_reached(*request, rows);
    let ghost goal_sizes = solve_sizes(rows, reached);
    let ghost values = fresh_values(base, goal_sizes.len());
    let ghost goal_plan = solve_plan(*request, header, values, reached);
    proof {
        lemma_staged_start(base);
        if first_row_fault(*request, rows, rows as nat) is Some {
            lemma_first_fault_is_fault(*request, rows, rows as nat);
        }
        assert(solve_sizes(rows, 0) =~= Seq::<u64>::empty());
        assert(solve_plan(*request, header, values, 0) =~= Seq::<Seq<NodeModel>>::empty());
    }
    let mut current = base_tensor.id;
    let mut row: u64 = 0;
    while row < rows
        invariant
            base.wf(),
            base == *old(emitter),
            header == solve_header(*request)->Ok_0,
            solve_header(*request) is Ok,
            rows == header.rows,
            lanes == header.lanes,
            solution.id == header.solution,
            rows > 0,
            row <= reached,
            reached <= rows,
            reached == rows_reached(*request, rows),
            goal_sizes == solve_sizes(rows, reached),
            values == fresh_values(base, goal_sizes.len()),
            goal_plan == solve_plan(*request, header, values, reached),
            first_row_fault(*request, rows, rows as nat) is Some ==> first_row_fault(*request, rows, reached)
                is None && row_fault(*request, rows, reached) is Some && reached < rows,
            first_row_fault(*request, rows, rows as nat) is None ==> reached == rows,
            first_row_fault(*request, rows, row as nat) is None,
            staged(base, *emitter, solve_sizes(rows, row as nat), solve_plan(*request, header, values, row as nat)),
            row == 0 ==> current == header.base,
            0 < row < rows ==> current == values[4 * row - 1],
        decreases rows - row,
    {
        let (coefficients, rhs, diagonal, destination, image) = match row_tensors(request, rows, row) {
            Ok(tensors) => tensors,
            Err(error) => {
                proof {
                    lemma_first_fault_at(*request, rows, row as nat, rows as nat);
                }
                return Err(error);
            },
        };
        proof {
            if row == reached {
                assert(first_row_fault(*request, rows, rows as nat) is Some);
            }
            lemma_solve_sizes_len(rows, row as nat);
            lemma_solve_sizes_len(rows, (row + 1) as nat);
            lemma_solve_sizes_prefix(rows, (row + 1) as nat, reached);
            lemma_solve_sizes_prefix(rows, row as nat, reached);
            lemma_solve_plan_prefix(*request, header, values, row as nat, reached);
            lemma_solve_plan_prefix(*request, header, values, (row + 1) as nat, reached);
        }
        let last = row + 1 == rows;
        let sizes = if last {
            three(image, 4, 4)
        } else {
            four(image, 4, 4, image)
        };
        assert(sizes@ == row_sizes(rows, row as nat));
        let v = stage_values(
            emitter,
            Ghost(base),
            Ghost(goal_sizes),
            Ghost(goal_plan),
            Ghost(solve_sizes(rows, row as nat)),
            Ghost(solve_plan(*request, header, values, row as nat)),
            &sizes,
        )?;
        proof {
            assert forall|k: int| 0 <= k < sizes@.len() implies v@[k] == values[4 * row + k] by {
                assert(v@[k] == fresh_values(base, solve_sizes(rows, (row + 1) as nat).len())[4 * row + k]);
            }
        }
        let next = if last {
            solution.id
        } else {
            v[3]
        };
        let scatter_spec = ScatterSpec { axis: 0, rejects_out_of_bounds: true, atomic_add: false };
        let stages = three(
            stage_of_two(
                elementwise(two(coefficients.id, current), one(v[0])),
                sum(v[0], v[1], axis_list(0), false, lanes),
            ),
            stage_of(elementwise(three(rhs.id, v[1], diagonal.id), one(v[2]))),
            stage_of(scatter(current, destination.id, v[2], next, scatter_spec)),
        );
        proof {
            assert(plan_view(stages@) =~= row_stages(*request, header, values, row as nat));
            assert(solve_plan(*request, header, values, (row + 1) as nat) =~= solve_plan(
                *request,
                header,
                values,
                row as nat,
            ) + plan_view(stages@));
            lemma_small_plan_bounded(plan_view(stages@));
        }
        stage_kernels(
            emitter,
            Ghost(base),
            Ghost(goal_sizes),
            Ghost(goal_plan),
            Ghost(solve_sizes(rows, (row + 1) as nat)),
            Ghost(solve_plan(*request, header, values, row as nat)),
            stages,
        )?;
        current = next;
        row = row + 1;
    }
    Ok(())
}

} // verus!
