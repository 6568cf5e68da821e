//! One level of a decision-tree split: gather each row's selected feature,
//! branch on its threshold, and scatter the next leaf assignments.
use vstd::prelude::*;

use crate::error::{OperationErrorKind, OperationResult};
use crate::checked::lemma_product_nonnegative;
use crate::fragment::{NodeModel, StageEmitter, plan_view};
use crate::optimizer::image_bytes;
use crate::primitive::{GatherSpec, ScatterSpec};
use crate::request::{MaterializationRequest, element_count, fact_fault, first_named};
use crate::staging::{
    elementwise, elementwise_node, fresh_values, gather, gather_node, lemma_goal_start, lemma_small_plan_bounded,
    lemma_staged_start, one, planned_outcome, scatter, scatter_node, stage_kernels, stage_of, stage_values, three,
    two,
};
use crate::text::text_eq;
use crate::training::FamilyDispatch;
use crate::types::{DType, ValueId};

verus! {

/// What a checked split request fixes: the boundary tensors (features,
/// feature indices, thresholds, assignments, destination indices and
/// updated assignments) and the number of split rows.
pub struct TreeSplitLayout {
    pub boundary: Seq<ValueId>,
    pub rows: u64,
}

/// The layout of a split request, or why it is refused, in the order the
/// checks run.
pub open spec fn tree_split_verdict(request: MaterializationRequest) -> Result<TreeSplitLayout, OperationErrorKind> {
    match (
        first_named(request.inputs@, "features"@),
        first_named(request.inputs@, "feature_indices"@),
        first_named(request.inputs@, "thresholds"@),
        first_named(request.inputs@, "assignments"@),
        first_named(request.inputs@, "destination_indices"@),
        first_named(request.outputs@, "updated_assignments"@),
    ) {
        (Some(features), Some(indices), Some(thresholds), Some(assignments), Some(destinations), Some(updated)) => {
            let rows = indices.extents@;
            if features.dtype != DType::F32 || indices.dtype != DType::I32 || thresholds.dtype != DType::F32
                || assignments.dtype != DType::I32 || destinations.dtype != DType::I32 || updated.dtype
                != DType::I32 {
                Err(OperationErrorKind::InvalidMaterializationRequest)
            } else if features.extents@.len() != 1 {
                Err(OperationErrorKind::InvalidMaterializationRequest)
            } else if thresholds.extents@ != rows || assignments.extents@ != rows || destinations.extents@ != rows
                || updated.extents@ != rows {
                Err(OperationErrorKind::UnsupportedConcreteShape)
            } else if fact_fault(request, "destination_indices_unique"@) is Some {
                Err(fact_fault(request, "destination_indices_unique"@)->Some_0)
            } else if element_count(rows) * 4 > u64::MAX {
                Err(OperationErrorKind::GraphMaterializationFailed)
            } else {
                Ok(
                    TreeSplitLayout {
                        boundary: seq![
                            features.id,
                            indices.id,
                            thresholds.id,
                            assignments.id,
                            destinations.id,
                            updated.id,
                        ],
                        rows: element_count(rows) as u64,
                    },
                )
            }
        },
        _ => Err(OperationErrorKind::InvalidMaterializationRequest),
    }
}

/// The split's stages over boundary tensors `b` and intermediates `v`: a
/// checked gather of each row's feature, the branch, and a scatter of the
/// next assignments over a copy of the current ones.
pub open spec fn tree_split_plan(b: Seq<ValueId>, v: Seq<ValueId>) -> Seq<Seq<NodeModel>> {
    seq![
        seq![gather_node(b[0], b[1], v[0], GatherSpec { axis: 0, rejects_out_of_bounds: true })],
        seq![elementwise_node(seq![v[0], b[2], b[3]], seq![v[1]])],
        seq![
            scatter_node(
                b[3],
                b[4],
                v[1],
                b[5],
                ScatterSpec { axis: 0, rejects_out_of_bounds: true, atomic_add: false },
            ),
        ],
    ]
}

/// What emitting a split does to the emitter: a refused request leaves it
/// unchanged; an accepted one draws the selected features and the next
/// assignments and emits the planned stages when they fit.
pub open spec fn tree_split_outcome(
    request: MaterializationRequest,
    before: StageEmitter,
    after: StageEmitter,
    result: OperationResult<()>,
) -> bool {
    match tree_split_verdict(request) {
        Err(kind) => result matches Err(error) && error.kind == kind && after == before,
        Ok(layout) => {
            let image = (layout.rows * 4) as u64;
            planned_outcome(
                seq![image, image],
                tree_split_plan(layout.boundary, fresh_values(before, 2)),
                before,
                after,
                result,
            )
        },
    }
}

/// Emit one tree-level split.
pub fn emit_tree_leaf_split(request: &MaterializationRequest, emitter: &mut StageEmitter) -> (result: OperationResult<
    (),
>)
    requires
        old(emitter).wf(),
    ensures
        final(emitter).wf(),
        tree_split_outcome(*request, *old(emitter), *final(emitter), result),
{
    let features = request.input("features")?;
    let indices = request.input("feature_indices")?;
    let thresholds = request.input("thresholds")?;
    let assignments = request.input("assignments")?;
    let destinations = request.input("destination_indices")?;
    let updated = request.output("updated_assignments")?;
    request.require_dtype(features, DType::F32)?;
    request.require_dtype(indices, DType::I32)?;
    request.require_dtype(thresholds, DType::F32)?;
    request.require_dtype(assignments, DType::I32)?;
    request.require_dtype(destinations, DType::I32)?;
    request.require_dtype(updated, DType::I32)?;
    if features.extents.len() != 1 {
        return Err(request.request_error("features must be a flattened rank-one prepared feature image"));
    }
    let rows = indices.extents.as_slice();
    request.require_shape(thresholds, rows)?;
    request.require_shape(assignments, rows)?;
    request.require_shape(destinations, rows)?;
    request.require_shape(updated, rows)?;
    request.require_true("destination_indices_unique")?;
    let image = image_bytes(request, indices)?;
    proof {
        lemma_product_nonnegative(indices.extents@);
    }
    let sizes = two(image, image);
    let ghost base = *emitter;
    let ghost plan = tree_split_plan(
        seq![features.id, indices.id, thresholds.id, assignments.id, destinations.id, updated.id],
        fresh_values(base, 2),
    );
    proof {
        lemma_staged_start(base);
        lemma_goal_start(sizes@, plan);
    }
    let v = stage_values(
        emitter,
        Ghost(base),
        Ghost(sizes@),
        Ghost(plan),
        Ghost(Seq::empty()),
        Ghost(Seq::empty()),
        &sizes,
    )?;
    let stages = three(
        stage_of(gather(features.id, indices.id, v[0], GatherSpec { axis: 0, rejects_out_of_bounds: true })),
        stage_of(elementwise(three(v[0], thresholds.id, assignments.id), one(v[1]))),
        stage_of(
            scatter(
                assignments.id,
                destinations.id,
                v[1],
                updated.id,
                ScatterSpec { axis: 0, rejects_out_of_bounds: true, atomic_add: false },
            ),
        ),
    );
    proof {
        assert(Seq::<Seq<NodeModel>>::empty() + plan_view(stages@) =~= plan);
        lemma_small_plan_bounded(plan_view(stages@));
    }
    stage_kernels(emitter, Ghost(base), Ghost(sizes@), Ghost(plan), Ghost(sizes@), Ghost(Seq::empty()), stages)?;
    Ok(())
}

/// The source-qualified rows owned by the tree split materializer.
pub open spec fn tree_split_rows() -> Seq<(Seq<char>, Seq<char>)> {
    seq![("gpu_leaf_split_apply"@, "gpu-core/src/kernels.rs:7173"@)]
}

/// Hand a request to the tree split materializer when it owns the
/// request's source-qualified row.
pub fn dispatch(request: &MaterializationRequest, emitter: &mut StageEmitter) -> (dispatched: FamilyDispatch)
    requires
        old(emitter).wf(),
    ensures
        final(emitter).wf(),
        !tree_split_rows().contains((request.descriptor.symbol@, request.descriptor.source@)) ==> (
        dispatched is NotOwned && *final(emitter) == *old(emitter)),
        tree_split_rows().contains((request.descriptor.symbol@, request.descriptor.source@)) ==> (
        dispatched matches FamilyDispatch::Owned(result) && tree_split_outcome(
            *request,
            *old(emitter),
            *final(emitter),
            result,
        )),
{
    let owned = text_eq(request.descriptor.symbol, "gpu_leaf_split_apply") && text_eq(
        request.descriptor.source,
        "gpu-core/src/kernels.rs:7173",
    );
    proof {
        let row = (request.descriptor.symbol@, request.descriptor.source@);
        if tree_split_rows().contains(row) {
            let k = choose|k: int| 0 <= k < tree_split_rows().len() && tree_split_rows()[k] == row;
            assert(k == 0);
        }
        if owned {
            assert(tree_split_rows()[0] == row);
        }
    }
    if !owned {
        return FamilyDispatch::NotOwned;
    }
    FamilyDispatch::Owned(emit_tree_leaf_split(request, emitter))
}

} // verus!
