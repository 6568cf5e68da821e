//! The optimizer materializers: state recurrences and parameter updates as
//! elementwise kernels, with the fixed-order norms of LAMB and of global
//! gradient clipping.
use vstd::prelude::*;

use crate::error::{OperationError, OperationErrorKind, OperationResult};
use crate::checked::lemma_product_nonnegative;
use crate::fragment::{NodeModel, StageEmitter, plan_room, plan_view};
use crate::parameters::prepared_u64_spec;
use crate::request::{
    F32Range, MaterializationRequest, TensorDecl, checked_element_count, contract_differs, either, element_count, equal_f32_fault,
    f32_extents_fault, f32_parameter_verdict, first_named, in_f32_range, lanes_verdict, range_fault,
    reduction_fault,
};
use crate::staging::{
    axis_list, elementwise, elementwise_node, emit_planned_stages, every_axis, every_axis_list, five, four,
    fresh_values, lemma_goal_start, lemma_small_plan_bounded, lemma_staged_start, one, planned_outcome, six,
    stage_kernels, stage_of, stage_of_three, stage_values, sum, sum_node, three, two, values_room,
};
use crate::types::{DType, ValueId};

verus! {

/// The optimizer operations with a concrete materializer.
#[derive(Clone, Copy, Debug, PartialEq, Eq, Structural)]
pub enum OptimizerOp {
    Momentum,
    Adagrad,
    Rmsprop,
    Adam,
    AdamW,
    Nadam,
    Lion,
    LambMoments,
    LambTrust,
    GradientClip,
}

/// What a checked request fixes for emission: the boundary tensors in the
/// operation's order, the element count and rank of the updated tensor,
/// and the tree lane count.
pub struct OptimizerLayout {
    pub boundary: Seq<ValueId>,
    pub elements: u64,
    pub rank: nat,
    pub tree_lanes: u32,
}

/// The storage bytes of each intermediate, in allocation order.
pub open spec fn optimizer_sizes(op: OptimizerOp, layout: OptimizerLayout) -> Seq<u64> {
    let image = (layout.elements * 4) as u64;
    match op {
        OptimizerOp::Lion => seq![image],
        OptimizerOp::LambMoments => seq![image, image, image],
        OptimizerOp::LambTrust => seq![4u64, 4u64, 4u64, 4u64],
        OptimizerOp::GradientClip => seq![image, 4u64],
        _ => Seq::empty(),
    }
}

/// The kernel stages of an operation over boundary tensors `b` and
/// intermediates `v`.
pub open spec fn optimizer_plan(op: OptimizerOp, b: Seq<ValueId>, v: Seq<ValueId>, rank: nat, lanes: u32) -> Seq<
    Seq<NodeModel>,
> {
    match op {
        OptimizerOp::Momentum => seq![
            seq![elementwise_node(seq![b[1], b[2]], seq![b[3]])],
            seq![elementwise_node(seq![b[0], b[3]], seq![b[4]])],
        ],
        OptimizerOp::Adagrad | OptimizerOp::Rmsprop => seq![
            seq![elementwise_node(seq![b[2], b[0]], seq![b[3]])],
            seq![elementwise_node(seq![b[1], b[0], b[3]], seq![b[4]])],
        ],
        OptimizerOp::Adam | OptimizerOp::AdamW => seq![
            seq![elementwise_node(seq![b[2], b[3], b[0]], seq![b[4], b[5]])],
            seq![elementwise_node(seq![b[1], b[4], b[5]], seq![b[6]])],
        ],
        OptimizerOp::Nadam => seq![
            seq![elementwise_node(seq![b[2], b[3], b[0]], seq![b[4], b[5]])],
            seq![elementwise_node(seq![b[1], b[0], b[4], b[5]], seq![b[6]])],
        ],
        OptimizerOp::Lion => seq![
            seq![elementwise_node(seq![b[2], b[0]], seq![b[3], v[0]])],
            seq![elementwise_node(seq![b[1], v[0]], seq![b[4]])],
        ],
        OptimizerOp::LambMoments => seq![
            seq![elementwise_node(seq![b[1], b[2], b[3], b[0]], seq![b[4], b[5], v[0], v[1], v[2]])],
            seq![
                sum_node(v[1], b[7], every_axis(rank), false, lanes),
                sum_node(v[2], b[8], every_axis(rank), false, lanes),
                elementwise_node(seq![v[0]], seq![b[6]]),
            ],
        ],
        OptimizerOp::LambTrust => seq![
            seq![elementwise_node(seq![b[1], b[2]], seq![v[0], v[1]])],
            seq![sum_node(v[0], v[2], seq![0usize], false, lanes)],
            seq![sum_node(v[1], v[3], seq![0usize], false, lanes)],
            seq![elementwise_node(seq![b[3], b[0], v[2], v[3]], seq![b[4]])],
        ],
        OptimizerOp::GradientClip => seq![
            seq![elementwise_node(seq![b[0]], seq![v[0]])],
            seq![sum_node(v[0], v[1], every_axis(rank), false, lanes)],
            seq![elementwise_node(seq![b[0], v[1]], seq![b[1]])],
        ],
    }
}

/// Why the operation's fixed-order reductions are refused, if they are:
/// the LAMB moments and the clip norm fold every axis of the updated
/// tensor, the LAMB trust ratio folds axis zero.
pub open spec fn optimizer_axis_fault(op: OptimizerOp, request: MaterializationRequest, rank: nat) -> Option<
    OperationErrorKind,
> {
    match op {
        OptimizerOp::LambMoments | OptimizerOp::GradientClip => reduction_fault(request, every_axis(rank)),
        OptimizerOp::LambTrust => reduction_fault(request, seq![0usize]),
        _ => None,
    }
}

/// What a materializer does with a request: a refused request is answered
/// with the refusal and leaves the emitter as it was; a checked one is
/// emitted as planned, unless its reductions are refused.
pub open spec fn optimizer_outcome(
    op: OptimizerOp,
    request: MaterializationRequest,
    before: StageEmitter,
    after: StageEmitter,
    result: OperationResult<()>,
) -> bool {
    match optimizer_verdict(op, request) {
        Err(kind) => result matches Err(error) && error.kind == kind && after == before,
        Ok(layout) => {
            let sizes = optimizer_sizes(op, layout);
            let plan = optimizer_plan(
                op,
                layout.boundary,
                fresh_values(before, sizes.len()),
                layout.rank,
                layout.tree_lanes,
            );
            match optimizer_axis_fault(op, request, layout.rank) {
                None => planned_outcome(sizes, plan, before, after, result),
                Some(kind) => {
                    &&& after.families() == before.families()
                    &&& result is Err
                    &&& (values_room(before, sizes) && plan_room(before, plan) ==> (result matches Err(error)
                        && error.kind == kind))
                },
            }
        },
    }
}

/// Why the Adam moment parameters are refused, if they are: both betas in
/// the half-open unit interval, a positive epsilon, and a step in
/// `1..2147483647` so that it and its successor fit int32.
pub open spec fn moment_fault(request: MaterializationRequest) -> Option<OperationErrorKind> {
    either(
        range_fault(request, "beta_one"@, F32Range::OpenUnit),
        either(
            range_fault(request, "beta_two"@, F32Range::OpenUnit),
            either(
                range_fault(request, "epsilon"@, F32Range::Positive),
                match prepared_u64_spec(request.parameters, "step"@) {
                    Err(kind) => Some(kind),
                    Ok(step) => if 1 <= step < 2_147_483_647 {
                        None
                    } else {
                        Some(OperationErrorKind::InvalidMaterializationRequest)
                    },
                },
            ),
        ),
    )
}

/// The layout once the boundary and parameters fit: the tree lanes where
/// they are read, then the byte size of an image of the updated tensor.
pub open spec fn settled_optimizer(
    request: MaterializationRequest,
    fault: Option<OperationErrorKind>,
    lanes: bool,
    image: bool,
    boundary: Seq<ValueId>,
    reference: TensorDecl,
) -> Result<OptimizerLayout, OperationErrorKind> {
    let elements = element_count(reference.extents@);
    if fault is Some {
        Err(fault->Some_0)
    } else if lanes && lanes_verdict(request) is Err {
        Err(lanes_verdict(request)->Err_0)
    } else if image && elements * 4 > u64::MAX {
        Err(OperationErrorKind::GraphMaterializationFailed)
    } else {
        Ok(
            OptimizerLayout {
                boundary,
                elements: if image {
                    elements as u64
                } else {
                    0
                },
                rank: reference.extents@.len(),
                tree_lanes: if lanes {
                    lanes_verdict(request)->Ok_0
                } else {
                    0
                },
            },
        )
    }
}

/// The momentum update's layout, or why the request is refused.
pub open spec fn momentum_verdict(request: MaterializationRequest) -> Result<OptimizerLayout, OperationErrorKind> {
    if !request.abi_matches(seq!["parameters", "velocity", "gradient"], seq!["updated_velocity", "updated_parameters"], seq!["momentum", "learning_rate"]) {
        Err(OperationErrorKind::InvalidMaterializationRequest)
    } else {
        match (
            first_named(request.inputs@, "parameters"@),
            first_named(request.inputs@, "velocity"@),
            first_named(request.inputs@, "gradient"@),
            first_named(request.outputs@, "updated_velocity"@),
            first_named(request.outputs@, "updated_parameters"@),
        ) {
            (Some(p), Some(m), Some(g), Some(um), Some(up)) => if p.dtype != DType::F32 || contract_differs(p, m) || contract_differs(p, g) || contract_differs(p, um)
                || contract_differs(p, up) {
                Err(OperationErrorKind::InvalidMaterializationRequest)
            } else {
                match (
                    f32_parameter_verdict(request.parameters, "momentum"@, F32Range::Any),
                    f32_parameter_verdict(request.parameters, "learning_rate"@, F32Range::Any),
                ) {
                    (Err(kind), _) => Err(kind),
                    (Ok(_), Err(kind)) => Err(kind),
                    (Ok(momentum), Ok(rate)) => if in_f32_range(momentum, F32Range::Finite) && in_f32_range(
                        rate,
                        F32Range::Nonnegative,
                    ) {
                        settled_optimizer(request, None, false, false, seq![p.id, m.id, g.id, um.id, up.id], p)
                    } else {
                        Err(OperationErrorKind::InvalidMaterializationRequest)
                    },
                }
            },
            _ => Err(OperationErrorKind::InvalidMaterializationRequest),
        }
    }
}

/// The Adagrad update's layout, or why the request is refused.
pub open spec fn adagrad_verdict(request: MaterializationRequest) -> Result<OptimizerLayout, OperationErrorKind> {
    if !request.abi_matches(seq!["gradient", "weight", "accumulator"], seq!["updated_accumulator", "updated_weight"], seq!["learning_rate", "epsilon"]) {
        Err(OperationErrorKind::InvalidMaterializationRequest)
    } else {
        match (
            first_named(request.inputs@, "gradient"@),
            first_named(request.inputs@, "weight"@),
            first_named(request.inputs@, "accumulator"@),
            first_named(request.outputs@, "updated_accumulator"@),
            first_named(request.outputs@, "updated_weight"@),
        ) {
            (Some(g), Some(w), Some(a), Some(ua), Some(uw)) => settled_optimizer(
                request,
                either(
                    equal_f32_fault(w, seq![g, a, ua, uw]),
                    either(
                        range_fault(request, "learning_rate"@, F32Range::Nonnegative),
                        range_fault(request, "epsilon"@, F32Range::Positive),
                    ),
                ),
                false,
                false,
                seq![g.id, w.id, a.id, ua.id, uw.id],
                w,
            ),
            _ => Err(OperationErrorKind::InvalidMaterializationRequest),
        }
    }
}

/// The RMSprop update's layout, or why the request is refused.
pub open spec fn rmsprop_verdict(request: MaterializationRequest) -> Result<OptimizerLayout, OperationErrorKind> {
    if !request.abi_matches(seq!["gradient", "weight", "cache"], seq!["updated_cache", "updated_weight"], seq!["learning_rate", "decay", "epsilon"]) {
        Err(OperationErrorKind::InvalidMaterializationRequest)
    } else {
        match (
            first_named(request.inputs@, "gradient"@),
            first_named(request.inputs@, "weight"@),
            first_named(request.inputs@, "cache"@),
            first_named(request.outputs@, "updated_cache"@),
            first_named(request.outputs@, "updated_weight"@),
        ) {
            (Some(g), Some(w), Some(c), Some(uc), Some(uw)) => settled_optimizer(
                request,
                either(
                    equal_f32_fault(w, seq![g, c, uc, uw]),
                    either(
                        range_fault(request, "learning_rate"@, F32Range::Nonnegative),
                        either(
                            range_fault(request, "decay"@, F32Range::ClosedUnit),
                            range_fault(request, "epsilon"@, F32Range::Positive),
                        ),
                    ),
                ),
                false,
                false,
                seq![g.id, w.id, c.id, uc.id, uw.id],
                w,
            ),
            _ => Err(OperationErrorKind::InvalidMaterializationRequest),
        }
    }
}

/// The parameters an Adam update reads, with the decoupled weight decay
/// where it applies.
pub open spec fn adam_parameters(decoupled: bool) -> Seq<&'static str> {
    if decoupled {
        seq!["learning_rate", "beta_one", "beta_two", "epsilon", "weight_decay", "step"]
    } else {
        seq!["learning_rate", "beta_one", "beta_two", "epsilon", "step"]
    }
}

/// An Adam update's layout, or why the request is refused.
pub open spec fn adam_layout(request: MaterializationRequest, decoupled: bool) -> Result<OptimizerLayout, OperationErrorKind> {
    if !request.abi_matches(seq!["gradient", "weight", "first_moment", "second_moment"], seq!["updated_first_moment", "updated_second_moment", "updated_weight"], adam_parameters(decoupled)) {
        Err(OperationErrorKind::InvalidMaterializationRequest)
    } else {
        match (
            first_named(request.inputs@, "gradient"@),
            first_named(request.inputs@, "weight"@),
            first_named(request.inputs@, "first_moment"@),
            first_named(request.inputs@, "second_moment"@),
            first_named(request.outputs@, "updated_first_moment"@),
            first_named(request.outputs@, "updated_second_moment"@),
            first_named(request.outputs@, "updated_weight"@),
        ) {
            (Some(g), Some(w), Some(f), Some(s), Some(uf), Some(us), Some(uw)) => settled_optimizer(
                request,
                either(
                    equal_f32_fault(w, seq![g, f, s, uf, us, uw]),
                    either(
                        moment_fault(request),
                        either(
                            range_fault(request, "learning_rate"@, F32Range::Nonnegative),
                            if decoupled {
                                range_fault(request, "weight_decay"@, F32Range::Nonnegative)
                            } else {
                                None
                            },
                        ),
                    ),
                ),
                false,
                false,
                seq![g.id, w.id, f.id, s.id, uf.id, us.id, uw.id],
                w,
            ),
            _ => Err(OperationErrorKind::InvalidMaterializationRequest),
        }
    }
}

/// The Nadam update's layout, or why the request is refused.
pub open spec fn nadam_verdict(request: MaterializationRequest) -> Result<OptimizerLayout, OperationErrorKind> {
    if !request.abi_matches(seq!["gradient", "weight", "first_moment", "second_moment"], seq!["updated_first_moment", "updated_second_moment", "updated_weight"], seq!["learning_rate", "beta_one", "beta_two", "epsilon", "step"]) {
        Err(OperationErrorKind::InvalidMaterializationRequest)
    } else {
        match (
            first_named(request.inputs@, "gradient"@),
            first_named(request.inputs@, "weight"@),
            first_named(request.inputs@, "first_moment"@),
            first_named(request.inputs@, "second_moment"@),
            first_named(request.outputs@, "updated_first_moment"@),
            first_named(request.outputs@, "updated_second_moment"@),
            first_named(request.outputs@, "updated_weight"@),
        ) {
            (Some(g), Some(w), Some(f), Some(s), Some(uf), Some(us), Some(uw)) => settled_optimizer(
                request,
                either(
                    equal_f32_fault(w, seq![g, f, s, uf, us, uw]),
                    either(moment_fault(request), range_fault(request, "learning_rate"@, F32Range::Nonnegative)),
                ),
                false,
                false,
                seq![g.id, w.id, f.id, s.id, uf.id, us.id, uw.id],
                w,
            ),
            _ => Err(OperationErrorKind::InvalidMaterializationRequest),
        }
    }
}

/// The Lion update's layout, or why the request is refused.
pub open spec fn lion_verdict(request: MaterializationRequest) -> Result<OptimizerLayout, OperationErrorKind> {
    if !request.abi_matches(seq!["gradient", "weight", "moment"], seq!["updated_moment", "updated_weight"], seq!["learning_rate", "beta_one", "beta_two", "weight_decay"]) {
        Err(OperationErrorKind::InvalidMaterializationRequest)
    } else {
        match (
            first_named(request.inputs@, "gradient"@),
            first_named(request.inputs@, "weight"@),
            first_named(request.inputs@, "moment"@),
            first_named(request.outputs@, "updated_moment"@),
            first_named(request.outputs@, "updated_weight"@),
        ) {
            (Some(g), Some(w), Some(m), Some(um), Some(uw)) => settled_optimizer(
                request,
                either(
                    equal_f32_fault(w, seq![g, m, um, uw]),
                    either(
                        range_fault(request, "learning_rate"@, F32Range::Nonnegative),
                        either(
                            range_fault(request, "beta_one"@, F32Range::ClosedUnit),
                            either(
                                range_fault(request, "beta_two"@, F32Range::ClosedUnit),
                                range_fault(request, "weight_decay"@, F32Range::Nonnegative),
                            ),
                        ),
                    ),
                ),
                false,
                true,
                seq![g.id, w.id, m.id, um.id, uw.id],
                w,
            ),
            _ => Err(OperationErrorKind::InvalidMaterializationRequest),
        }
    }
}

/// The LAMB moment phase's layout, or why the request is refused.
pub open spec fn lamb_moments_verdict(request: MaterializationRequest) -> Result<OptimizerLayout, OperationErrorKind> {
    if !request.abi_matches(seq!["gradient", "weight", "moment", "velocity"], seq!["updated_moment", "updated_velocity", "update", "weight_norm_squared", "update_norm_squared"], seq!["beta_one", "beta_two", "epsilon", "weight_decay", "step", "tree_lanes"]) {
        Err(OperationErrorKind::InvalidMaterializationRequest)
    } else {
        match (
            first_named(request.inputs@, "gradient"@),
            first_named(request.inputs@, "weight"@),
            first_named(request.inputs@, "moment"@),
            first_named(request.inputs@, "velocity"@),
            first_named(request.outputs@, "updated_moment"@),
            first_named(request.outputs@, "updated_velocity"@),
            first_named(request.outputs@, "update"@),
            first_named(request.outputs@, "weight_norm_squared"@),
            first_named(request.outputs@, "update_norm_squared"@),
        ) {
            (Some(g), Some(w), Some(m), Some(v), Some(um), Some(uv), Some(u), Some(wn), Some(un)) => settled_optimizer(
                request,
                either(
                    equal_f32_fault(w, seq![g, m, v, um, uv, u]),
                    either(
                        f32_extents_fault(wn, seq![1u64]),
                        either(
                            f32_extents_fault(un, seq![1u64]),
                            either(
                                moment_fault(request),
                                range_fault(request, "weight_decay"@, F32Range::Nonnegative),
                            ),
                        ),
                    ),
                ),
                true,
                true,
                seq![g.id, w.id, m.id, v.id, um.id, uv.id, u.id, wn.id, un.id],
                w,
            ),
            _ => Err(OperationErrorKind::InvalidMaterializationRequest),
        }
    }
}

/// The LAMB trust-ratio phase's layout, or why the request is refused.
pub open spec fn lamb_trust_verdict(request: MaterializationRequest) -> Result<OptimizerLayout, OperationErrorKind> {
    if !request.abi_matches(seq!["update", "weight_norm_squared", "update_norm_squared", "weight"], seq!["updated_weight"], seq!["learning_rate", "tree_lanes"]) {
        Err(OperationErrorKind::InvalidMaterializationRequest)
    } else {
        match (
            first_named(request.inputs@, "update"@),
            first_named(request.inputs@, "weight_norm_squared"@),
            first_named(request.inputs@, "update_norm_squared"@),
            first_named(request.inputs@, "weight"@),
            first_named(request.outputs@, "updated_weight"@),
        ) {
            (Some(u), Some(wn), Some(un), Some(w), Some(uw)) => settled_optimizer(
                request,
                either(
                    equal_f32_fault(w, seq![u, uw]),
                    either(
                        f32_extents_fault(wn, seq![1u64]),
                        either(
                            f32_extents_fault(un, seq![1u64]),
                            range_fault(request, "learning_rate"@, F32Range::Nonnegative),
                        ),
                    ),
                ),
                true,
                false,
                seq![u.id, wn.id, un.id, w.id, uw.id],
                w,
            ),
            _ => Err(OperationErrorKind::InvalidMaterializationRequest),
        }
    }
}

/// The global gradient clip's layout, or why the request is refused.
pub open spec fn gradient_clip_verdict(request: MaterializationRequest) -> Result<OptimizerLayout, OperationErrorKind> {
    if !request.abi_matches(seq!["values"], seq!["clipped"], seq!["maximum_norm", "tree_lanes"]) {
        Err(OperationErrorKind::InvalidMaterializationRequest)
    } else {
        match (
            first_named(request.inputs@, "values"@),
            first_named(request.outputs@, "clipped"@),
        ) {
            (Some(x), Some(y)) => settled_optimizer(
                request,
                if x.dtype != DType::F32 || contract_differs(x, y) {
                    Some(OperationErrorKind::InvalidMaterializationRequest)
                } else {
                    range_fault(request, "maximum_norm"@, F32Range::Nonnegative)
                },
                true,
                true,
                seq![x.id, y.id],
                x,
            ),
            _ => Err(OperationErrorKind::InvalidMaterializationRequest),
        }
    }
}

/// An operation's layout, or why the request is refused.
pub open spec fn optimizer_verdict(op: OptimizerOp, request: MaterializationRequest) -> Result<
    OptimizerLayout,
    OperationErrorKind,
> {
    match op {
        OptimizerOp::Momentum => momentum_verdict(request),
        OptimizerOp::Adagrad => adagrad_verdict(request),
        OptimizerOp::Rmsprop => rmsprop_verdict(request),
        OptimizerOp::Adam => adam_layout(request, false),
        OptimizerOp::AdamW => adam_layout(request, true),
        OptimizerOp::Nadam => nadam_verdict(request),
        OptimizerOp::Lion => lion_verdict(request),
        OptimizerOp::LambMoments => lamb_moments_verdict(request),
        OptimizerOp::LambTrust => lamb_trust_verdict(request),
        OptimizerOp::GradientClip => gradient_clip_verdict(request),
    }
}

/// Check the Adam moment parameters: both betas in the half-open unit
/// interval, a positive epsilon, and a positive step whose successor fits
/// int32.
fn require_moments(request: &MaterializationRequest) -> (result: OperationResult<()>)
    ensures
        match moment_fault(*request) {
            Some(kind) => result matches Err(error) && error.kind == kind,
            None => result is Ok,
        },
{
    request.prepared_f32_in("beta_one", F32Range::OpenUnit)?;
    request.prepared_f32_in("beta_two", F32Range::OpenUnit)?;
    request.prepared_f32_in("epsilon", F32Range::Positive)?;
    let step = request.prepared_u64("step")?;
    if step == 0 {
        return Err(optimizer_error(request, "step must be positive"));
    }
    if step >= 2_147_483_647 {
        return Err(optimizer_error(request, "step and its successor must fit int32"));
    }
    Ok(())
}

fn optimizer_error(request: &MaterializationRequest, detail: &'static str) -> (error: OperationError)
    ensures
        error.kind == OperationErrorKind::InvalidMaterializationRequest,
        error.operation == Some(request.descriptor.id),
{
    OperationError::new(OperationErrorKind::InvalidMaterializationRequest, detail).for_operation(
        request.descriptor.id,
    )
}

/// The storage bytes of a binary32 image of `reference`, refused when they
/// leave `u64`.
pub(crate) fn image_bytes(request: &MaterializationRequest, reference: &TensorDecl) -> (result: OperationResult<u64>)
    ensures
        element_count(reference.extents@) * 4 > u64::MAX ==> (result matches Err(error) && error.kind
            == OperationErrorKind::GraphMaterializationFailed),
        element_count(reference.extents@) * 4 <= u64::MAX ==> result == Ok::<u64, OperationError>(
            (element_count(reference.extents@) * 4) as u64,
        ),
{
    match checked_element_count(reference.extents.as_slice()) {
        Some(count) => match count.checked_mul(4) {
            Some(bytes) => Ok(bytes),
            None => Err(
                OperationError::new(
                    OperationErrorKind::GraphMaterializationFailed,
                    "intermediate storage bytes overflow u64",
                ).for_operation(request.descriptor.id),
            ),
        },
        None => Err(
            OperationError::new(
                OperationErrorKind::GraphMaterializationFailed,
                "intermediate storage bytes overflow u64",
            ).for_operation(request.descriptor.id),
        ),
    }
}

/// Emit the momentum update: the velocity recurrence, then the parameter
/// step.
pub fn emit_momentum_update(request: &MaterializationRequest, emitter: &mut StageEmitter) -> (result: OperationResult<()>)
    requires
        old(emitter).wf(),
    ensures
        final(emitter).wf(),
        optimizer_outcome(OptimizerOp::Momentum, *request, *old(emitter), *final(emitter), result),
{
    let inputs: [&str; 3] = ["parameters", "velocity", "gradient"];
    let outputs: [&str; 2] = ["updated_velocity", "updated_parameters"];
    let parameters: [&str; 2] = ["momentum", "learning_rate"];
    assert(inputs@ =~= seq!["parameters", "velocity", "gradient"]);
    assert(outputs@ =~= seq!["updated_velocity", "updated_parameters"]);
    assert(parameters@ =~= seq!["momentum", "learning_rate"]);
    request.require_exact_abi(&inputs, &outputs, &parameters)?;
    let weights = request.input("parameters")?;
    let velocity = request.input("velocity")?;
    let gradient = request.input("gradient")?;
    let updated_velocity = request.output("updated_velocity")?;
    let updated_weights = request.output("updated_parameters")?;
    request.require_dtype(weights, DType::F32)?;
    request.require_same_tensor_contract(weights, velocity)?;
    request.require_same_tensor_contract(weights, gradient)?;
    request.require_same_tensor_contract(weights, updated_velocity)?;
    request.require_same_tensor_contract(weights, updated_weights)?;
    let momentum = request.prepared_f32_in("momentum", F32Range::Any)?;
    let rate = request.prepared_f32_in("learning_rate", F32Range::Any)?;
    if !(momentum & 0x7f80_0000u32 != 0x7f80_0000u32 && (rate < 0x7f80_0000u32 || rate == 0x8000_0000u32)) {
        return Err(optimizer_error(request, "momentum must be finite and learning_rate finite and nonnegative"));
    }
    let ghost plan = optimizer_plan(
        OptimizerOp::Momentum,
        seq![weights.id, velocity.id, gradient.id, updated_velocity.id, updated_weights.id],
        Seq::empty(),
        weights.extents@.len(),
        0,
    );
    let stages = two(
        stage_of(elementwise(two(velocity.id, gradient.id), one(updated_velocity.id))),
        stage_of(elementwise(two(weights.id, updated_velocity.id), one(updated_weights.id))),
    );
    proof {
        assert(plan_view(stages@) =~= plan);
        lemma_small_plan_bounded(plan);
        assert(fresh_values(*old(emitter), 0) =~= Seq::<ValueId>::empty());
    }
    emit_planned_stages(emitter, Ghost(plan), stages)
}

/// Emit an adaptive-rate update (Adagrad or RMSprop): the state
/// recurrence, then the parameter step.
fn emit_adaptive_update(
    request: &MaterializationRequest,
    emitter: &mut StageEmitter,
    op: OptimizerOp,
    state_name: &'static str,
    updated_state_name: &'static str,
) -> (result: OperationResult<()>)
    requires
        old(emitter).wf(),
        op == OptimizerOp::Adagrad && state_name == "accumulator" && updated_state_name == "updated_accumulator"
            || op == OptimizerOp::Rmsprop && state_name == "cache" && updated_state_name == "updated_cache",
    ensures
        final(emitter).wf(),
        optimizer_outcome(op, *request, *old(emitter), *final(emitter), result),
{
    let inputs: [&str; 3] = ["gradient", "weight", state_name];
    let outputs: [&str; 2] = [updated_state_name, "updated_weight"];
    assert(inputs@ =~= seq!["gradient", "weight", state_name]);
    assert(outputs@ =~= seq![updated_state_name, "updated_weight"]);
    if op == OptimizerOp::Adagrad {
        let parameters: [&str; 2] = ["learning_rate", "epsilon"];
        assert(parameters@ =~= seq!["learning_rate", "epsilon"]);
        request.require_exact_abi(&inputs, &outputs, &parameters)?;
    } else {
        let parameters: [&str; 3] = ["learning_rate", "decay", "epsilon"];
        assert(parameters@ =~= seq!["learning_rate", "decay", "epsilon"]);
        request.require_exact_abi(&inputs, &outputs, &parameters)?;
    }
    let gradient = request.input("gradient")?;
    let weight = request.input("weight")?;
    let state = request.input(state_name)?;
    let updated_state = request.output(updated_state_name)?;
    let updated_weight = request.output("updated_weight")?;
    let others = four(gradient, state, updated_state, updated_weight);
    assert(others@.map_values(|tensor: &TensorDecl| *tensor) =~= seq![
        *gradient,
        *state,
        *updated_state,
        *updated_weight,
    ]);
    request.require_equal_f32_tensors(weight, others.as_slice())?;
    request.prepared_f32_in("learning_rate", F32Range::Nonnegative)?;
    if op == OptimizerOp::Rmsprop {
        request.prepared_f32_in("decay", F32Range::ClosedUnit)?;
    }
    request.prepared_f32_in("epsilon", F32Range::Positive)?;
    let ghost plan = optimizer_plan(
        op,
        seq![gradient.id, weight.id, state.id, updated_state.id, updated_weight.id],
        Seq::empty(),
        weight.extents@.len(),
        0,
    );
    let stages = two(
        stage_of(elementwise(two(state.id, gradient.id), one(updated_state.id))),
        stage_of(elementwise(three(weight.id, gradient.id, updated_state.id), one(updated_weight.id))),
    );
    proof {
        assert(plan_view(stages@) =~= plan);
        lemma_small_plan_bounded(plan);
        assert(fresh_values(*old(emitter), 0) =~= Seq::<ValueId>::empty());
    }
    emit_planned_stages(emitter, Ghost(plan), stages)
}

/// Emit the Adagrad update.
pub fn emit_adagrad_update(request: &MaterializationRequest, emitter: &mut StageEmitter) -> (result: OperationResult<()>)
    requires
        old(emitter).wf(),
    ensures
        final(emitter).wf(),
        optimizer_outcome(OptimizerOp::Adagrad, *request, *old(emitter), *final(emitter), result),
{
    emit_adaptive_update(request, emitter, OptimizerOp::Adagrad, "accumulator", "updated_accumulator")
}

/// Emit the RMSprop update.
pub fn emit_rmsprop_update(request: &MaterializationRequest, emitter: &mut StageEmitter) -> (result: OperationResult<()>)
    requires
        old(emitter).wf(),
    ensures
        final(emitter).wf(),
        optimizer_outcome(OptimizerOp::Rmsprop, *request, *old(emitter), *final(emitter), result),
{
    emit_adaptive_update(request, emitter, OptimizerOp::Rmsprop, "cache", "updated_cache")
}

/// Emit an Adam-family update: the moment recurrences, then the parameter
/// step (Nadam's also reads the gradient).
fn emit_moment_update(request: &MaterializationRequest, emitter: &mut StageEmitter, op: OptimizerOp) -> (result:
    OperationResult<()>)
    requires
        old(emitter).wf(),
        op == OptimizerOp::Adam || op == OptimizerOp::AdamW || op == OptimizerOp::Nadam,
    ensures
        final(emitter).wf(),
        optimizer_outcome(op, *request, *old(emitter), *final(emitter), result),
{
    let inputs: [&str; 4] = ["gradient", "weight", "first_moment", "second_moment"];
    let outputs: [&str; 3] = ["updated_first_moment", "updated_second_moment", "updated_weight"];
    assert(inputs@ =~= seq!["gradient", "weight", "first_moment", "second_moment"]);
    assert(outputs@ =~= seq!["updated_first_moment", "updated_second_moment", "updated_weight"]);
    if op == OptimizerOp::AdamW {
        let parameters: [&str; 6] = ["learning_rate", "beta_one", "beta_two", "epsilon", "weight_decay", "step"];
        assert(parameters@ =~= adam_parameters(true));
        request.require_exact_abi(&inputs, &outputs, &parameters)?;
    } else {
        let parameters: [&str; 5] = ["learning_rate", "beta_one", "beta_two", "epsilon", "step"];
        assert(parameters@ =~= adam_parameters(false));
        request.require_exact_abi(&inputs, &outputs, &parameters)?;
    }
    let gradient = request.input("gradient")?;
    let weight = request.input("weight")?;
    let first = request.input("first_moment")?;
    let second = request.input("second_moment")?;
    let updated_first = request.output("updated_first_moment")?;
    let updated_second = request.output("updated_second_moment")?;
    let updated_weight = request.output("updated_weight")?;
    let others = six(gradient, first, second, updated_first, updated_second, updated_weight);
    assert(others@.map_values(|tensor: &TensorDecl| *tensor) =~= seq![
        *gradient,
        *first,
        *second,
        *updated_first,
        *updated_second,
        *updated_weight,
    ]);
    request.require_equal_f32_tensors(weight, others.as_slice())?;
    require_moments(request)?;
    request.prepared_f32_in("learning_rate", F32Range::Nonnegative)?;
    if op == OptimizerOp::AdamW {
        request.prepared_f32_in("weight_decay", F32Range::Nonnegative)?;
    }
    let ghost plan = optimizer_plan(
        op,
        seq![gradient.id, weight.id, first.id, second.id, updated_first.id, updated_second.id, updated_weight.id],
        Seq::empty(),
        weight.extents@.len(),
        0,
    );
    let step_inputs = if op == OptimizerOp::Nadam {
        four(weight.id, gradient.id, updated_first.id, updated_second.id)
    } else {
        three(weight.id, updated_first.id, updated_second.id)
    };
    let stages = two(
        stage_of(elementwise(three(first.id, second.id, gradient.id), two(updated_first.id, updated_second.id))),
        stage_of(elementwise(step_inputs, one(updated_weight.id))),
    );
    proof {
        assert(plan_view(stages@) =~= plan);
        lemma_small_plan_bounded(plan);
        assert(fresh_values(*old(emitter), 0) =~= Seq::<ValueId>::empty());
    }
    emit_planned_stages(emitter, Ghost(plan), stages)
}

/// Emit the Adam update, with decoupled weight decay (AdamW) when asked.
pub fn emit_adam_update(request: &MaterializationRequest, emitter: &mut StageEmitter, decoupled_weight_decay: bool) -> (result:
    OperationResult<()>)
    requires
        old(emitter).wf(),
    ensures
        final(emitter).wf(),
        optimizer_outcome(
            if decoupled_weight_decay {
                OptimizerOp::AdamW
            } else {
                OptimizerOp::Adam
            },
            *request,
            *old(emitter),
            *final(emitter),
            result,
        ),
{
    if decoupled_weight_decay {
        emit_moment_update(request, emitter, OptimizerOp::AdamW)
    } else {
        emit_moment_update(request, emitter, OptimizerOp::Adam)
    }
}

/// Emit the Nadam update.
pub fn emit_nadam_update(request: &MaterializationRequest, emitter: &mut StageEmitter) -> (result: OperationResult<()>)
    requires
        old(emitter).wf(),
    ensures
        final(emitter).wf(),
        optimizer_outcome(OptimizerOp::Nadam, *request, *old(emitter), *final(emitter), result),
{
    emit_moment_update(request, emitter, OptimizerOp::Nadam)
}

/// Emit the Lion update: the moment recurrence with a sign direction
/// image, then the parameter step with decoupled weight decay.
pub fn emit_lion_update(request: &MaterializationRequest, emitter: &mut StageEmitter) -> (result: OperationResult<()>)
    requires
        old(emitter).wf(),
    ensures
        final(emitter).wf(),
        optimizer_outcome(OptimizerOp::Lion, *request, *old(emitter), *final(emitter), result),
{
    let inputs: [&str; 3] = ["gradient", "weight", "moment"];
    let outputs: [&str; 2] = ["updated_moment", "updated_weight"];
    let parameters: [&str; 4] = ["learning_rate", "beta_one", "beta_two", "weight_decay"];
    assert(inputs@ =~= seq!["gradient", "weight", "moment"]);
    assert(outputs@ =~= seq!["updated_moment", "updated_weight"]);
    assert(parameters@ =~= seq!["learning_rate", "beta_one", "beta_two", "weight_decay"]);
    request.require_exact_abi(&inputs, &outputs, &parameters)?;
    let gradient = request.input("gradient")?;
    let weight = request.input("weight")?;
    let moment = request.input("moment")?;
    let updated_moment = request.output("updated_moment")?;
    let updated_weight = request.output("updated_weight")?;
    let others = four(gradient, moment, updated_moment, updated_weight);
    assert(others@.map_values(|tensor: &TensorDecl| *tensor) =~= seq![
        *gradient,
        *moment,
        *updated_moment,
        *updated_weight,
    ]);
    request.require_equal_f32_tensors(weight, others.as_slice())?;
    request.prepared_f32_in("learning_rate", F32Range::Nonnegative)?;
    request.prepared_f32_in("beta_one", F32Range::ClosedUnit)?;
    request.prepared_f32_in("beta_two", F32Range::ClosedUnit)?;
    request.prepared_f32_in("weight_decay", F32Range::Nonnegative)?;
    let image = image_bytes(request, weight)?;
    proof {
        lemma_product_nonnegative(weight.extents@);
    }
    let sizes = one(image);
    let ghost base = *emitter;
    let ghost plan = optimizer_plan(
        OptimizerOp::Lion,
        seq![gradient.id, weight.id, moment.id, updated_moment.id, updated_weight.id],
        fresh_values(base, 1),
        weight.extents@.len(),
        0,
    );
    proof {
        lemma_staged_start(base);
        lemma_goal_start(sizes@, plan);
    }
    let v = stage_values(
        emitter,
        Ghost(base),
        Ghost(sizes@),
        Ghost(plan),
        Ghost(Seq::empty()),
        Ghost(Seq::empty()),
        &sizes,
    )?;
    let stages = two(
        stage_of(elementwise(two(moment.id, gradient.id), two(updated_moment.id, v[0]))),
        stage_of(elementwise(two(weight.id, v[0]), one(updated_weight.id))),
    );
    proof {
        assert(Seq::<Seq<NodeModel>>::empty() + plan_view(stages@) =~= plan);
        lemma_small_plan_bounded(plan_view(stages@));
    }
    stage_kernels(emitter, Ghost(base), Ghost(sizes@), Ghost(plan), Ghost(sizes@), Ghost(Seq::empty()), stages)?;
    Ok(())
}

/// Emit the LAMB moment phase: the moment recurrences with the direction,
/// parameter-square and direction-square images, then their fixed-order
/// norms and the direction.
pub fn emit_lamb_phase_one(request: &MaterializationRequest, emitter: &mut StageEmitter) -> (result: OperationResult<()>)
    requires
        old(emitter).wf(),
    ensures
        final(emitter).wf(),
        optimizer_outcome(OptimizerOp::LambMoments, *request, *old(emitter), *final(emitter), result),
{
    let inputs: [&str; 4] = ["gradient", "weight", "moment", "velocity"];
    let outputs: [&str; 5] = [
        "updated_moment",
        "updated_velocity",
        "update",
        "weight_norm_squared",
        "update_norm_squared",
    ];
    let parameters: [&str; 6] = ["beta_one", "beta_two", "epsilon", "weight_decay", "step", "tree_lanes"];
    assert(inputs@ =~= seq!["gradient", "weight", "moment", "velocity"]);
    assert(outputs@ =~= seq![
        "updated_moment",
        "updated_velocity",
        "update",
        "weight_norm_squared",
        "update_norm_squared",
    ]);
    assert(parameters@ =~= seq!["beta_one", "beta_two", "epsilon", "weight_decay", "step", "tree_lanes"]);
    request.require_exact_abi(&inputs, &outputs, &parameters)?;
    let gradient = request.input("gradient")?;
    let weight = request.input("weight")?;
    let moment = request.input("moment")?;
    let velocity = request.input("velocity")?;
    let updated_moment = request.output("updated_moment")?;
    let updated_velocity = request.output("updated_velocity")?;
    let update = request.output("update")?;
    let weight_norm = request.output("weight_norm_squared")?;
    let update_norm = request.output("update_norm_squared")?;
    let others = six(gradient, moment, velocity, updated_moment, updated_velocity, update);
    assert(others@.map_values(|tensor: &TensorDecl| *tensor) =~= seq![
        *gradient,
        *moment,
        *velocity,
        *updated_moment,
        *updated_velocity,
        *update,
    ]);
    request.require_equal_f32_tensors(weight, others.as_slice())?;
    request.require_f32_shape(weight_norm, one(1u64).as_slice())?;
    request.require_f32_shape(update_norm, one(1u64).as_slice())?;
    require_moments(request)?;
    request.prepared_f32_in("weight_decay", F32Range::Nonnegative)?;
    let tree_lanes = request.prepared_tree_lanes()?;
    let image = image_bytes(request, weight)?;
    proof {
        lemma_product_nonnegative(weight.extents@);
    }
    let sizes = three(image, image, image);
    let rank = weight.extents.len();
    let ghost base = *emitter;
    let ghost plan = optimizer_plan(
        OptimizerOp::LambMoments,
        seq![
            gradient.id,
            weight.id,
            moment.id,
            velocity.id,
            updated_moment.id,
            updated_velocity.id,
            update.id,
            weight_norm.id,
            update_norm.id,
        ],
        fresh_values(base, 3),
        rank as nat,
        tree_lanes,
    );
    proof {
        lemma_staged_start(base);
        lemma_goal_start(sizes@, plan);
    }
    let v = stage_values(
        emitter,
        Ghost(base),
        Ghost(sizes@),
        Ghost(plan),
        Ghost(Seq::empty()),
        Ghost(Seq::empty()),
        &sizes,
    )?;
    let head = one(
        stage_of(
            elementwise(
                four(weight.id, moment.id, velocity.id, gradient.id),
                five(updated_moment.id, updated_velocity.id, v[0], v[1], v[2]),
            ),
        ),
    );
    proof {
        assert(Seq::<Seq<NodeModel>>::empty() + plan_view(head@) =~= plan.subrange(0, 1));
        lemma_small_plan_bounded(plan_view(head@));
    }
    stage_kernels(emitter, Ghost(base), Ghost(sizes@), Ghost(plan), Ghost(sizes@), Ghost(Seq::empty()), head)?;
    request.require_reduction_axes(every_axis_list(rank).as_slice())?;
    let tail = one(
        stage_of_three(
            sum(v[1], weight_norm.id, every_axis_list(rank), false, tree_lanes),
            sum(v[2], update_norm.id, every_axis_list(rank), false, tree_lanes),
            elementwise(one(v[0]), one(update.id)),
        ),
    );
    proof {
        assert(plan.subrange(0, 1) + plan_view(tail@) =~= plan);
        lemma_small_plan_bounded(plan_view(tail@));
    }
    stage_kernels(emitter, Ghost(base), Ghost(sizes@), Ghost(plan), Ghost(sizes@), Ghost(plan.subrange(0, 1)), tail)?;
    Ok(())
}

/// Emit the LAMB trust-ratio phase: images of both squared norms, their
/// fixed-order folds, and the parameter step.
pub fn emit_lamb_phase_two(request: &MaterializationRequest, emitter: &mut StageEmitter) -> (result: OperationResult<()>)
    requires
        old(emitter).wf(),
    ensures
        final(emitter).wf(),
        optimizer_outcome(OptimizerOp::LambTrust, *request, *old(emitter), *final(emitter), result),
{
    let inputs: [&str; 4] = ["update", "weight_norm_squared", "update_norm_squared", "weight"];
    let outputs: [&str; 1] = ["updated_weight"];
    let parameters: [&str; 2] = ["learning_rate", "tree_lanes"];
    assert(inputs@ =~= seq!["update", "weight_norm_squared", "update_norm_squared", "weight"]);
    assert(outputs@ =~= seq!["updated_weight"]);
    assert(parameters@ =~= seq!["learning_rate", "tree_lanes"]);
    request.require_exact_abi(&inputs, &outputs, &parameters)?;
    let update = request.input("update")?;
    let weight_norm = request.input("weight_norm_squared")?;
    let update_norm = request.input("update_norm_squared")?;
    let weight = request.input("weight")?;
    let updated_weight = request.output("updated_weight")?;
    let others = two(update, updated_weight);
    assert(others@.map_values(|tensor: &TensorDecl| *tensor) =~= seq![*update, *updated_weight]);
    request.require_equal_f32_tensors(weight, others.as_slice())?;
    request.require_f32_shape(weight_norm, one(1u64).as_slice())?;
    request.require_f32_shape(update_norm, one(1u64).as_slice())?;
    request.prepared_f32_in("learning_rate", F32Range::Nonnegative)?;
    let tree_lanes = request.prepared_tree_lanes()?;
    let sizes = four(4u64, 4u64, 4u64, 4u64);
    let ghost base = *emitter;
    let ghost plan = optimizer_plan(
        OptimizerOp::LambTrust,
        seq![update.id, weight_norm.id, update_norm.id, weight.id, updated_weight.id],
        fresh_values(base, 4),
        weight.extents@.len(),
        tree_lanes,
    );
    proof {
        lemma_staged_start(base);
        lemma_goal_start(sizes@, plan);
    }
    let v = stage_values(
        emitter,
        Ghost(base),
        Ghost(sizes@),
        Ghost(plan),
        Ghost(Seq::empty()),
        Ghost(Seq::empty()),
        &sizes,
    )?;
    let head = one(stage_of(elementwise(two(weight_norm.id, update_norm.id), two(v[0], v[1]))));
    proof {
        assert(Seq::<Seq<NodeModel>>::empty() + plan_view(head@) =~= plan.subrange(0, 1));
        lemma_small_plan_bounded(plan_view(head@));
    }
    stage_kernels(emitter, Ghost(base), Ghost(sizes@), Ghost(plan), Ghost(sizes@), Ghost(Seq::empty()), head)?;
    request.require_reduction_axes(axis_list(0).as_slice())?;
    let tail = three(
        stage_of(sum(v[0], v[2], axis_list(0), false, tree_lanes)),
        stage_of(sum(v[1], v[3], axis_list(0), false, tree_lanes)),
        stage_of(elementwise(four(weight.id, update.id, v[2], v[3]), one(updated_weight.id))),
    );
    proof {
        assert(plan.subrange(0, 1) + plan_view(tail@) =~= plan);
        lemma_small_plan_bounded(plan_view(tail@));
    }
    stage_kernels(emitter, Ghost(base), Ghost(sizes@), Ghost(plan), Ghost(sizes@), Ghost(plan.subrange(0, 1)), tail)?;
    Ok(())
}

/// Emit the global gradient-norm clip: squares, their fixed-order sum over
/// every axis, and the clipped values.
pub fn emit_gradient_clip_norm(request: &MaterializationRequest, emitter: &mut StageEmitter) -> (result:
    OperationResult<()>)
    requires
        old(emitter).wf(),
    ensures
        final(emitter).wf(),
        optimizer_outcome(OptimizerOp::GradientClip, *request, *old(emitter), *final(emitter), result),
{
    let inputs: [&str; 1] = ["values"];
    let outputs: [&str; 1] = ["clipped"];
    let parameters: [&str; 2] = ["maximum_norm", "tree_lanes"];
    assert(inputs@ =~= seq!["values"]);
    assert(outputs@ =~= seq!["clipped"]);
    assert(parameters@ =~= seq!["maximum_norm", "tree_lanes"]);
    request.require_exact_abi(&inputs, &outputs, &parameters)?;
    let values = request.input("values")?;
    let clipped = request.output("clipped")?;
    request.require_dtype(values, DType::F32)?;
    request.require_same_tensor_contract(values, clipped)?;
    request.prepared_f32_in("maximum_norm", F32Range::Nonnegative)?;
    let tree_lanes = request.prepared_tree_lanes()?;
    let image = image_bytes(request, values)?;
    proof {
        lemma_product_nonnegative(values.extents@);
    }
    let sizes = two(image, 4u64);
    let rank = values.extents.len();
    let ghost base = *emitter;
    let ghost plan = optimizer_plan(
        OptimizerOp::GradientClip,
        seq![values.id, clipped.id],
        fresh_values(base, 2),
        rank as nat,
        tree_lanes,
    );
    proof {
        lemma_staged_start(base);
        lemma_goal_start(sizes@, plan);
    }
    let v = stage_values(
        emitter,
        Ghost(base),
        Ghost(sizes@),
        Ghost(plan),
        Ghost(Seq::empty()),
        Ghost(Seq::empty()),
        &sizes,
    )?;
    let head = one(stage_of(elementwise(one(values.id), one(v[0]))));
    proof {
        assert(Seq::<Seq<NodeModel>>::empty() + plan_view(head@) =~= plan.subrange(0, 1));
        lemma_small_plan_bounded(plan_view(head@));
    }
    stage_kernels(emitter, Ghost(base), Ghost(sizes@), Ghost(plan), Ghost(sizes@), Ghost(Seq::empty()), head)?;
    request.require_reduction_axes(every_axis_list(rank).as_slice())?;
    let tail = two(
        stage_of(sum(v[0], v[1], every_axis_list(rank), false, tree_lanes)),
        stage_of(elementwise(two(values.id, v[1]), one(clipped.id))),
    );
    proof {
        assert(plan.subrange(0, 1) + plan_view(tail@) =~= plan);
        lemma_small_plan_bounded(plan_view(tail@));
    }
    stage_kernels(emitter, Ghost(base), Ghost(sizes@), Ghost(plan), Ghost(sizes@), Ghost(plan.subrange(0, 1)), tail)?;
    Ok(())
}

} // verus!
