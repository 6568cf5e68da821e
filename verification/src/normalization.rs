//! The normalization materializers: batch, layer and RMS normalization and
//! their gradients, each as fixed-order statistic reductions around
//! elementwise kernels.
use vstd::prelude::*;

use crate::error::{OperationError, OperationErrorKind, OperationResult};
use crate::fragment::{NodeModel, StageEmitter, plan_room, plan_view};
use crate::request::{
    F32Range, TensorDecl, MaterializationRequest, contract_differs, either, equal_f32_fault, f32_extents_fault,
    f32_parameter_verdict, first_named, lanes_verdict, normalization_verdict, reduction_fault,
};
use crate::staging::{
    axis_list, elementwise, elementwise_node, five, four, fresh_values, lemma_goal_start, lemma_small_plan_bounded,
    lemma_staged_start, one, planned_outcome, seven, six, stage_kernels, stage_of, stage_of_four, stage_of_two,
    stage_values, sum,
    sum_node, three, two, values_room,
};
use crate::parameters::PreparedParameter;
use crate::text::text_eq;
use crate::types::ValueId;

verus! {

/// The normalization operations with a concrete materializer.
#[derive(Clone, Copy, Debug, PartialEq, Eq, Structural)]
pub enum NormalizationOp {
    BatchForward,
    BatchBackward,
    BatchRunningUpdate,
    Layer,
    LayerBackward,
    Rms,
    RmsBackward,
}

/// What a checked request fixes for emission: the boundary tensors in the
/// operation's order, the matrix extents, and the tree lane count.
pub struct NormalizationLayout {
    pub boundary: Seq<ValueId>,
    pub rows: u64,
    pub columns: u64,
    pub tree_lanes: u32,
}

/// The storage bytes of each intermediate, in allocation order.
pub open spec fn normalization_sizes(op: NormalizationOp, layout: NormalizationLayout) -> Seq<u64> {
    let block = (layout.rows * layout.columns * 4) as u64;
    let row = (layout.rows * 4) as u64;
    let column = (layout.columns * 4) as u64;
    match op {
        NormalizationOp::BatchForward => seq![block, column, block, column],
        NormalizationOp::BatchBackward => seq![block, block, column, column, block, block],
        NormalizationOp::BatchRunningUpdate => Seq::empty(),
        NormalizationOp::Layer => seq![block, row, block, row],
        NormalizationOp::LayerBackward => seq![block, row, block, row, block, block, block, block, row, row],
        NormalizationOp::Rms => seq![block, row, row],
        NormalizationOp::RmsBackward => seq![block, row, block, row, block],
    }
}

/// The kernel stages of an operation over boundary tensors `b` and
/// intermediates `v`.
pub open spec fn normalization_plan(op: NormalizationOp, b: Seq<ValueId>, v: Seq<ValueId>, lanes: u32) -> Seq<
    Seq<NodeModel>,
> {
    match op {
        NormalizationOp::BatchForward => seq![
            seq![elementwise_node(seq![b[0]], seq![v[0]])],
            seq![sum_node(v[0], v[1], seq![0usize], false, lanes)],
            seq![
                elementwise_node(seq![b[0], v[1]], seq![v[2]]),
                sum_node(v[2], v[3], seq![0usize], false, lanes),
            ],
            seq![
                elementwise_node(seq![v[1], v[3]], seq![b[4], b[5]]),
                elementwise_node(seq![b[0], b[1], b[2], b[4], b[5]], seq![b[3]]),
            ],
        ],
        NormalizationOp::BatchBackward => seq![
            seq![elementwise_node(seq![b[0], b[1], b[2], b[3]], seq![v[0], v[1]])],
            seq![sum_node(v[0], v[2], seq![0usize], false, lanes)],
            seq![sum_node(v[1], v[3], seq![0usize], false, lanes)],
            seq![elementwise_node(seq![b[0], b[1], b[2], b[3], b[4], v[2], v[3]], seq![b[5], v[4], v[5]])],
            seq![
                sum_node(v[4], b[6], seq![0usize], false, lanes),
                sum_node(v[5], b[7], seq![0usize], false, lanes),
            ],
        ],
        NormalizationOp::BatchRunningUpdate => seq![
            seq![elementwise_node(seq![b[2], b[3], b[0], b[1]], seq![b[4], b[5]])],
        ],
        NormalizationOp::Layer => seq![
            seq![elementwise_node(seq![b[0]], seq![v[0]])],
            seq![sum_node(v[0], v[1], seq![1usize], true, lanes)],
            seq![
                elementwise_node(seq![b[0], v[1]], seq![v[2]]),
                sum_node(v[2], v[3], seq![1usize], true, lanes),
            ],
            seq![elementwise_node(seq![b[0], v[1], v[3]] + b.subrange(2, b.len() as int), seq![b[1]])],
        ],
        NormalizationOp::LayerBackward => seq![
            seq![elementwise_node(seq![b[1]], seq![v[0]])],
            seq![sum_node(v[0], v[1], seq![1usize], true, lanes)],
            seq![
                elementwise_node(seq![b[1], v[1]], seq![v[2]]),
                sum_node(v[2], v[3], seq![1usize], true, lanes),
            ],
            seq![
                elementwise_node(seq![b[0], b[1], b[2], v[1], v[3]], seq![v[4], v[5], v[6], v[7]]),
                sum_node(v[4], v[8], seq![1usize], true, lanes),
                sum_node(v[5], v[9], seq![1usize], true, lanes),
                elementwise_node(seq![b[0], b[1], b[2], v[1], v[3], v[8], v[9]], seq![b[3]]),
            ],
            seq![
                sum_node(v[6], b[4], seq![0usize], false, lanes),
                sum_node(v[7], b[5], seq![0usize], false, lanes),
            ],
        ],
        NormalizationOp::Rms => seq![
            seq![elementwise_node(seq![b[0]], seq![v[0]])],
            seq![sum_node(v[0], v[1], seq![1usize], true, lanes)],
            seq![sum_node(v[1], v[2], seq![1usize], true, lanes)],
            seq![elementwise_node(seq![b[0], v[2]] + b.subrange(2, b.len() as int), seq![b[1]])],
        ],
        NormalizationOp::RmsBackward => seq![
            seq![elementwise_node(seq![b[1]], seq![v[0]])],
            seq![sum_node(v[0], v[1], seq![1usize], true, lanes)],
            seq![
                elementwise_node(seq![b[0], b[1], v[1]], seq![v[2]]),
                sum_node(v[2], v[3], seq![1usize], true, lanes),
            ],
            seq![elementwise_node(seq![b[0], b[1], b[2], v[1], v[3]], seq![b[3], v[4]])],
            seq![sum_node(v[4], b[4], seq![0usize], false, lanes)],
        ],
    }
}

/// Why the operation's fixed-order reductions are refused, if they are:
/// batch statistics fold axis zero, row statistics axis one.
pub open spec fn normalization_axis_fault(op: NormalizationOp, request: MaterializationRequest) -> Option<
    OperationErrorKind,
> {
    match op {
        NormalizationOp::BatchRunningUpdate => None,
        NormalizationOp::BatchForward | NormalizationOp::BatchBackward => reduction_fault(request, seq![0usize]),
        _ => reduction_fault(request, seq![1usize]),
    }
}

/// What a materializer does with a request: a refused request is answered
/// with the refusal and leaves the emitter as it was; a checked one is
/// emitted as planned, unless its reductions are refused.
pub open spec fn normalization_outcome(
    op: NormalizationOp,
    request: MaterializationRequest,
    before: StageEmitter,
    after: StageEmitter,
    result: OperationResult<()>,
) -> bool {
    match normalization_verdict_of(op, request) {
        Err(kind) => result matches Err(error) && error.kind == kind && after == before,
        Ok(layout) => {
            let sizes = normalization_sizes(op, layout);
            let plan = normalization_plan(op, layout.boundary, fresh_values(before, sizes.len()), layout.tree_lanes);
            match normalization_axis_fault(op, request) {
                None => planned_outcome(sizes, plan, before, after, result),
                Some(kind) => {
                    &&& after.families() == before.families()
                    &&& result is Err
                    &&& (values_room(before, sizes) && plan_room(before, plan) ==> (result matches Err(error)
                        && error.kind == kind))
                },
            }
        },
    }
}

/// The layout once the boundary fits: the epsilon where one is read, then
/// the tree lanes.
pub open spec fn settled_layout(
    request: MaterializationRequest,
    boundary: Seq<ValueId>,
    rows: u64,
    columns: u64,
    epsilon: bool,
) -> Result<NormalizationLayout, OperationErrorKind> {
    if epsilon && f32_parameter_verdict(request.parameters, "epsilon"@, F32Range::Positive) is Err {
        Err(f32_parameter_verdict(request.parameters, "epsilon"@, F32Range::Positive)->Err_0)
    } else {
        match lanes_verdict(request) {
            Ok(tree_lanes) => Ok(NormalizationLayout { boundary, rows, columns, tree_lanes }),
            Err(kind) => Err(kind),
        }
    }
}

/// The training batch normalization's layout, or why the request is
/// refused.
pub open spec fn batch_forward_verdict(request: MaterializationRequest) -> Result<NormalizationLayout, OperationErrorKind> {
    if !request.abi_matches(
        seq!["values", "scale", "bias"],
        seq!["normalized", "saved_mean", "saved_inverse_standard_deviation"],
        seq!["epsilon", "tree_lanes"],
    ) {
        Err(OperationErrorKind::InvalidMaterializationRequest)
    } else {
        match (
            first_named(request.inputs@, "values"@),
            first_named(request.inputs@, "scale"@),
            first_named(request.inputs@, "bias"@),
            first_named(request.outputs@, "normalized"@),
            first_named(request.outputs@, "saved_mean"@),
            first_named(request.outputs@, "saved_inverse_standard_deviation"@),
        ) {
            (Some(x), Some(g), Some(h), Some(y), Some(m), Some(d)) => match normalization_verdict(x) {
                Err(kind) => Err(kind),
                Ok((rows, columns)) => if contract_differs(x, y) {
                    Err(OperationErrorKind::InvalidMaterializationRequest)
                } else {
                    let column = seq![columns];
                    match either(
                        f32_extents_fault(g, column),
                        either(f32_extents_fault(h, column), either(f32_extents_fault(m, column), f32_extents_fault(d, column))),
                    ) {
                        Some(kind) => Err(kind),
                        None => settled_layout(request, seq![x.id, g.id, h.id, y.id, m.id, d.id], rows, columns, true),
                    }
                },
            },
            _ => Err(OperationErrorKind::InvalidMaterializationRequest),
        }
    }
}

/// The batch normalization gradient's layout, or why the request is
/// refused.
pub open spec fn batch_backward_verdict(request: MaterializationRequest) -> Result<NormalizationLayout, OperationErrorKind> {
    if !request.abi_matches(
        seq!["output_gradient", "values", "saved_mean", "saved_inverse_standard_deviation", "scale"],
        seq!["input_gradient", "scale_gradient", "bias_gradient"],
        seq!["tree_lanes"],
    ) {
        Err(OperationErrorKind::InvalidMaterializationRequest)
    } else {
        match (
            first_named(request.inputs@, "output_gradient"@),
            first_named(request.inputs@, "values"@),
            first_named(request.inputs@, "saved_mean"@),
            first_named(request.inputs@, "saved_inverse_standard_deviation"@),
            first_named(request.inputs@, "scale"@),
            first_named(request.outputs@, "input_gradient"@),
            first_named(request.outputs@, "scale_gradient"@),
            first_named(request.outputs@, "bias_gradient"@),
        ) {
            (Some(o), Some(x), Some(m), Some(d), Some(g), Some(i), Some(sg), Some(bg)) => match normalization_verdict(
                x,
            ) {
                Err(kind) => Err(kind),
                Ok((rows, columns)) => if contract_differs(x, o) || contract_differs(x, i) {
                    Err(OperationErrorKind::InvalidMaterializationRequest)
                } else {
                    let column = seq![columns];
                    match either(
                        f32_extents_fault(m, column),
                        either(
                            f32_extents_fault(d, column),
                            either(
                                f32_extents_fault(g, column),
                                either(f32_extents_fault(sg, column), f32_extents_fault(bg, column)),
                            ),
                        ),
                    ) {
                        Some(kind) => Err(kind),
                        None => settled_layout(
                            request,
                            seq![o.id, x.id, m.id, d.id, g.id, i.id, sg.id, bg.id],
                            rows,
                            columns,
                            false,
                        ),
                    }
                },
            },
            _ => Err(OperationErrorKind::InvalidMaterializationRequest),
        }
    }
}

/// The running-statistics update's layout, or why the request is refused.
pub open spec fn batch_running_update_verdict(request: MaterializationRequest) -> Result<
    NormalizationLayout,
    OperationErrorKind,
> {
    if !request.abi_matches(
        seq!["saved_mean", "saved_variance", "running_mean", "running_variance"],
        seq!["updated_running_mean", "updated_running_variance"],
        seq!["momentum"],
    ) {
        Err(OperationErrorKind::InvalidMaterializationRequest)
    } else {
        match (
            first_named(request.inputs@, "saved_mean"@),
            first_named(request.inputs@, "saved_variance"@),
            first_named(request.inputs@, "running_mean"@),
            first_named(request.inputs@, "running_variance"@),
            first_named(request.outputs@, "updated_running_mean"@),
            first_named(request.outputs@, "updated_running_variance"@),
        ) {
            (Some(sm), Some(sv), Some(rm), Some(rv), Some(um), Some(uv)) => if equal_f32_fault(
                rm,
                seq![sm, sv, rv, um, uv],
            ) is Some {
                Err(equal_f32_fault(rm, seq![sm, sv, rv, um, uv])->Some_0)
            } else if rm.extents@.len() != 1 {
                Err(OperationErrorKind::UnsupportedConcreteShape)
            } else if f32_parameter_verdict(request.parameters, "momentum"@, F32Range::ClosedUnit) is Err {
                Err(f32_parameter_verdict(request.parameters, "momentum"@, F32Range::ClosedUnit)->Err_0)
            } else {
                Ok(
                    NormalizationLayout {
                        boundary: seq![sm.id, sv.id, rm.id, rv.id, um.id, uv.id],
                        rows: 0,
                        columns: 0,
                        tree_lanes: 0,
                    },
                )
            },
            _ => Err(OperationErrorKind::InvalidMaterializationRequest),
        }
    }
}

/// The prepared boolean `name`, or why it is refused.
pub open spec fn bool_verdict(request: MaterializationRequest, name: Seq<char>) -> Result<bool, OperationErrorKind> {
    match request.parameters.lookup(name) {
        Some(PreparedParameter::Bool(value)) => Ok(value),
        Some(_) => Err(OperationErrorKind::PreparedParameterTypeMismatch),
        None => Err(OperationErrorKind::MissingPreparedParameter),
    }
}

/// The names listed when an optional tensor is present.
pub open spec fn listed_if(present: bool, name: &'static str) -> Seq<&'static str> {
    if present {
        seq![name]
    } else {
        Seq::empty()
    }
}

/// The identity of an optional affine tensor when present.
pub open spec fn affine_ids(present: bool, tensor: Option<TensorDecl>) -> Seq<ValueId> {
    if present {
        seq![tensor->Some_0.id]
    } else {
        Seq::empty()
    }
}

/// Why an optional affine tensor is refused, if it is present.
pub open spec fn affine_fault(present: bool, tensor: Option<TensorDecl>, columns: u64) -> Option<OperationErrorKind> {
    if present {
        f32_extents_fault(tensor->Some_0, seq![columns])
    } else {
        None
    }
}

/// A forward row normalization's layout for the given optional scale and
/// bias, or why the request is refused.
pub open spec fn row_normalization_verdict(
    request: MaterializationRequest,
    has_scale: bool,
    has_bias: bool,
    parameters: Seq<&'static str>,
) -> Result<NormalizationLayout, OperationErrorKind> {
    if !request.abi_matches(
        seq!["values"] + listed_if(has_scale, "scale") + listed_if(has_bias, "bias"),
        seq!["normalized"],
        parameters,
    ) {
        Err(OperationErrorKind::InvalidMaterializationRequest)
    } else {
        match (first_named(request.inputs@, "values"@), first_named(request.outputs@, "normalized"@)) {
            (Some(x), Some(y)) => match normalization_verdict(x) {
                Err(kind) => Err(kind),
                Ok((rows, columns)) => {
                    let scale = first_named(request.inputs@, "scale"@);
                    let bias = first_named(request.inputs@, "bias"@);
                    if contract_differs(x, y) || (has_scale && scale is None) || (has_bias && bias is None) {
                        Err(OperationErrorKind::InvalidMaterializationRequest)
                    } else {
                        match either(affine_fault(has_scale, scale, columns), affine_fault(has_bias, bias, columns)) {
                            Some(kind) => Err(kind),
                            None => settled_layout(
                                request,
                                seq![x.id, y.id] + affine_ids(has_scale, scale) + affine_ids(has_bias, bias),
                                rows,
                                columns,
                                true,
                            ),
                        }
                    }
                },
            },
            _ => Err(OperationErrorKind::InvalidMaterializationRequest),
        }
    }
}

/// The layer normalization's layout, or why the request is refused: the
/// optional-affine symbol reads whether scale and bias are present.
pub open spec fn layer_verdict(request: MaterializationRequest) -> Result<NormalizationLayout, OperationErrorKind> {
    if request.descriptor.symbol@ == "gpu_layernorm_opt_into"@ {
        match (bool_verdict(request, "has_scale"@), bool_verdict(request, "has_bias"@)) {
            (Err(kind), _) => Err(kind),
            (Ok(_), Err(kind)) => Err(kind),
            (Ok(has_scale), Ok(has_bias)) => row_normalization_verdict(
                request,
                has_scale,
                has_bias,
                seq!["epsilon", "tree_lanes", "has_scale", "has_bias"],
            ),
        }
    } else {
        row_normalization_verdict(request, true, true, seq!["epsilon", "tree_lanes"])
    }
}

/// The RMS normalization's layout, or why the request is refused: every
/// symbol but the scale-free one reads a scale.
pub open spec fn rms_verdict(request: MaterializationRequest) -> Result<NormalizationLayout, OperationErrorKind> {
    row_normalization_verdict(
        request,
        request.descriptor.symbol@ != "gpu_rmsnorm_f64_nogamma"@,
        false,
        seq!["epsilon", "tree_lanes"],
    )
}

/// The layer normalization gradient's layout, or why the request is
/// refused.
pub open spec fn layer_backward_verdict(request: MaterializationRequest) -> Result<NormalizationLayout, OperationErrorKind> {
    if !request.abi_matches(
        seq!["output_gradient", "values", "scale"],
        seq!["input_gradient", "scale_gradient", "bias_gradient"],
        seq!["epsilon", "tree_lanes"],
    ) {
        Err(OperationErrorKind::InvalidMaterializationRequest)
    } else {
        match (
            first_named(request.inputs@, "output_gradient"@),
            first_named(request.inputs@, "values"@),
            first_named(request.inputs@, "scale"@),
            first_named(request.outputs@, "input_gradient"@),
            first_named(request.outputs@, "scale_gradient"@),
            first_named(request.outputs@, "bias_gradient"@),
        ) {
            (Some(o), Some(x), Some(g), Some(i), Some(sg), Some(bg)) => match normalization_verdict(x) {
                Err(kind) => Err(kind),
                Ok((rows, columns)) => if contract_differs(x, o) || contract_differs(x, i) {
                    Err(OperationErrorKind::InvalidMaterializationRequest)
                } else {
                    let column = seq![columns];
                    match either(
                        f32_extents_fault(g, column),
                        either(f32_extents_fault(sg, column), f32_extents_fault(bg, column)),
                    ) {
                        Some(kind) => Err(kind),
                        None => settled_layout(request, seq![o.id, x.id, g.id, i.id, sg.id, bg.id], rows, columns, true),
                    }
                },
            },
            _ => Err(OperationErrorKind::InvalidMaterializationRequest),
        }
    }
}

/// The RMS normalization gradient's layout, or why the request is refused.
pub open spec fn rms_backward_verdict(request: MaterializationRequest) -> Result<NormalizationLayout, OperationErrorKind> {
    if !request.abi_matches(
        seq!["output_gradient", "values", "scale"],
        seq!["input_gradient", "scale_gradient"],
        seq!["epsilon", "tree_lanes"],
    ) {
        Err(OperationErrorKind::InvalidMaterializationRequest)
    } else {
        match (
            first_named(request.inputs@, "output_gradient"@),
            first_named(request.inputs@, "values"@),
            first_named(request.inputs@, "scale"@),
            first_named(request.outputs@, "input_gradient"@),
            first_named(request.outputs@, "scale_gradient"@),
        ) {
            (Some(o), Some(x), Some(g), Some(i), Some(sg)) => match normalization_verdict(x) {
                Err(kind) => Err(kind),
                Ok((rows, columns)) => if contract_differs(x, o) || contract_differs(x, i) {
                    Err(OperationErrorKind::InvalidMaterializationRequest)
                } else {
                    match either(f32_extents_fault(g, seq![columns]), f32_extents_fault(sg, seq![columns])) {
                        Some(kind) => Err(kind),
                        None => settled_layout(request, seq![o.id, x.id, g.id, i.id, sg.id], rows, columns, true),
                    }
                },
            },
            _ => Err(OperationErrorKind::InvalidMaterializationRequest),
        }
    }
}

/// An operation's layout, or why the request is refused.
pub open spec fn normalization_verdict_of(op: NormalizationOp, request: MaterializationRequest) -> Result<
    NormalizationLayout,
    OperationErrorKind,
> {
    match op {
        NormalizationOp::BatchForward => batch_forward_verdict(request),
        NormalizationOp::BatchBackward => batch_backward_verdict(request),
        NormalizationOp::BatchRunningUpdate => batch_running_update_verdict(request),
        NormalizationOp::Layer => layer_verdict(request),
        NormalizationOp::LayerBackward => layer_backward_verdict(request),
        NormalizationOp::Rms => rms_verdict(request),
        NormalizationOp::RmsBackward => rms_backward_verdict(request),
    }
}

/// Emit the training batch normalization: a statistic image, fixed-order
/// channel sums, centered squares and their sums, then the saved mean and
/// inverse standard deviation and the normalized values.
pub fn emit_batch_normalization_forward(request: &MaterializationRequest, emitter: &mut StageEmitter) -> (result:
    OperationResult<()>)
    requires
        old(emitter).wf(),
    ensures
        final(emitter).wf(),
        normalization_outcome(NormalizationOp::BatchForward, *request, *old(emitter), *final(emitter), result),
{
    let inputs: [&str; 3] = ["values", "scale", "bias"];
    let outputs: [&str; 3] = ["normalized", "saved_mean", "saved_inverse_standard_deviation"];
    let parameters: [&str; 2] = ["epsilon", "tree_lanes"];
    assert(inputs@ =~= seq!["values", "scale", "bias"]);
    assert(outputs@ =~= seq!["normalized", "saved_mean", "saved_inverse_standard_deviation"]);
    assert(parameters@ =~= seq!["epsilon", "tree_lanes"]);
    request.require_exact_abi(&inputs, &outputs, &parameters)?;
    let values = request.input("values")?;
    let scale = request.input("scale")?;
    let bias = request.input("bias")?;
    let normalized = request.output("normalized")?;
    let saved_mean = request.output("saved_mean")?;
    let saved_deviation = request.output("saved_inverse_standard_deviation")?;
    let (rows, columns) = request.normalization_matrix(values)?;
    request.require_same_tensor_contract(values, normalized)?;
    let column = one(columns);
    request.require_f32_shape(scale, column.as_slice())?;
    request.require_f32_shape(bias, column.as_slice())?;
    request.require_f32_shape(saved_mean, column.as_slice())?;
    request.require_f32_shape(saved_deviation, column.as_slice())?;
    request.prepared_f32_in("epsilon", F32Range::Positive)?;
    let tree_lanes = request.prepared_tree_lanes()?;
    assert(rows * columns <= 16_777_216 * 16_777_216) by (nonlinear_arith)
        requires
            rows <= 16_777_216,
            columns <= 16_777_216,
    ;
    let block = rows * columns * 4;
    let channel = columns * 4;
    let sizes = four(block, channel, block, channel);
    let ghost base = *emitter;
    let ghost boundary = seq![values.id, scale.id, bias.id, normalized.id, saved_mean.id, saved_deviation.id];
    let ghost plan = normalization_plan(NormalizationOp::BatchForward, boundary, fresh_values(base, 4), tree_lanes);
    proof {
        lemma_staged_start(base);
        assert(sizes@.subrange(0, sizes@.len() as int) =~= Seq::<u64>::empty() + sizes@);
        assert(sizes@.subrange(0, sizes@.len() as int) =~= sizes@);
        assert(plan.subrange(0, 0) =~= Seq::<Seq<NodeModel>>::empty());
    }
    let v = stage_values(
        emitter,
        Ghost(base),
        Ghost(sizes@),
        Ghost(plan),
        Ghost(Seq::empty()),
        Ghost(Seq::empty()),
        &sizes,
    )?;
    let head = one(stage_of(elementwise(one(values.id), one(v[0]))));
    proof {
        assert(Seq::<Seq<NodeModel>>::empty() + plan_view(head@) =~= plan.subrange(0, 1));
        lemma_small_plan_bounded(plan_view(head@));
    }
    stage_kernels(emitter, Ghost(base), Ghost(sizes@), Ghost(plan), Ghost(sizes@), Ghost(Seq::empty()), head)?;
    request.require_reduction_axes(axis_list(0).as_slice())?;
    let tail = three(
        stage_of(sum(v[0], v[1], axis_list(0), false, tree_lanes)),
        stage_of_two(
            elementwise(two(values.id, v[1]), one(v[2])),
            sum(v[2], v[3], axis_list(0), false, tree_lanes),
        ),
        stage_of_two(
            elementwise(two(v[1], v[3]), two(saved_mean.id, saved_deviation.id)),
            elementwise(five(values.id, scale.id, bias.id, saved_mean.id, saved_deviation.id), one(normalized.id)),
        ),
    );
    proof {
        assert(plan.subrange(0, 1) + plan_view(tail@) =~= plan.subrange(0, 4));
        lemma_small_plan_bounded(plan_view(tail@));
    }
    stage_kernels(emitter, Ghost(base), Ghost(sizes@), Ghost(plan), Ghost(sizes@), Ghost(plan.subrange(0, 1)), tail)?;
    proof {
        assert(plan.subrange(0, 4) =~= plan);
    }
    Ok(())
}

/// Emit the batch normalization gradient: output-gradient and
/// normalized-gradient terms, their fixed-order channel sums, the analytic
/// input gradient with the affine terms, and the affine gradients.
pub fn emit_batch_normalization_backward(request: &MaterializationRequest, emitter: &mut StageEmitter) -> (result:
    OperationResult<()>)
    requires
        old(emitter).wf(),
    ensures
        final(emitter).wf(),
        normalization_outcome(NormalizationOp::BatchBackward, *request, *old(emitter), *final(emitter), result),
{
    let inputs: [&str; 5] = ["output_gradient", "values", "saved_mean", "saved_inverse_standard_deviation", "scale"];
    let outputs: [&str; 3] = ["input_gradient", "scale_gradient", "bias_gradient"];
    let parameters: [&str; 1] = ["tree_lanes"];
    assert(inputs@ =~= seq!["output_gradient", "values", "saved_mean", "saved_inverse_standard_deviation", "scale"]);
    assert(outputs@ =~= seq!["input_gradient", "scale_gradient", "bias_gradient"]);
    assert(parameters@ =~= seq!["tree_lanes"]);
    request.require_exact_abi(&inputs, &outputs, &parameters)?;
    let output_gradient = request.input("output_gradient")?;
    let values = request.input("values")?;
    let saved_mean = request.input("saved_mean")?;
    let saved_deviation = request.input("saved_inverse_standard_deviation")?;
    let scale = request.input("scale")?;
    let input_gradient = request.output("input_gradient")?;
    let scale_gradient = request.output("scale_gradient")?;
    let bias_gradient = request.output("bias_gradient")?;
    let (rows, columns) = request.normalization_matrix(values)?;
    request.require_same_tensor_contract(values, output_gradient)?;
    request.require_same_tensor_contract(values, input_gradient)?;
    let column = one(columns);
    request.require_f32_shape(saved_mean, column.as_slice())?;
    request.require_f32_shape(saved_deviation, column.as_slice())?;
    request.require_f32_shape(scale, column.as_slice())?;
    request.require_f32_shape(scale_gradient, column.as_slice())?;
    request.require_f32_shape(bias_gradient, column.as_slice())?;
    let tree_lanes = request.prepared_tree_lanes()?;
    assert(rows * columns <= 16_777_216 * 16_777_216) by (nonlinear_arith)
        requires
            rows <= 16_777_216,
            columns <= 16_777_216,
    ;
    let block = rows * columns * 4;
    let channel = columns * 4;
    let sizes = six(block, block, channel, channel, block, block);
    let ghost base = *emitter;
    let ghost boundary = seq![
        output_gradient.id,
        values.id,
        saved_mean.id,
        saved_deviation.id,
        scale.id,
        input_gradient.id,
        scale_gradient.id,
        bias_gradient.id,
    ];
    let ghost plan = normalization_plan(NormalizationOp::BatchBackward, boundary, fresh_values(base, 6), tree_lanes);
    proof {
        lemma_staged_start(base);
        lemma_goal_start(sizes@, plan);
    }
    let v = stage_values(
        emitter,
        Ghost(base),
        Ghost(sizes@),
        Ghost(plan),
        Ghost(Seq::empty()),
        Ghost(Seq::empty()),
        &sizes,
    )?;
    let head = one(
        stage_of(
            elementwise(four(output_gradient.id, values.id, saved_mean.id, saved_deviation.id), two(v[0], v[1])),
        ),
    );
    proof {
        assert(Seq::<Seq<NodeModel>>::empty() + plan_view(head@) =~= plan.subrange(0, 1));
        lemma_small_plan_bounded(plan_view(head@));
    }
    stage_kernels(emitter, Ghost(base), Ghost(sizes@), Ghost(plan), Ghost(sizes@), Ghost(Seq::empty()), head)?;
    request.require_reduction_axes(axis_list(0).as_slice())?;
    let tail = four(
        stage_of(sum(v[0], v[2], axis_list(0), false, tree_lanes)),
        stage_of(sum(v[1], v[3], axis_list(0), false, tree_lanes)),
        stage_of(
            elementwise(
                seven(
                    output_gradient.id,
                    values.id,
                    saved_mean.id,
                    saved_deviation.id,
                    scale.id,
                    v[2],
                    v[3],
                ),
                three(input_gradient.id, v[4], v[5]),
            ),
        ),
        stage_of_two(
            sum(v[4], scale_gradient.id, axis_list(0), false, tree_lanes),
            sum(v[5], bias_gradient.id, axis_list(0), false, tree_lanes),
        ),
    );
    proof {
        assert(plan.subrange(0, 1) + plan_view(tail@) =~= plan.subrange(0, 5));
        lemma_small_plan_bounded(plan_view(tail@));
    }
    stage_kernels(emitter, Ghost(base), Ghost(sizes@), Ghost(plan), Ghost(sizes@), Ghost(plan.subrange(0, 1)), tail)?;
    Ok(())
}

/// Emit the running-statistics update as one elementwise kernel.
pub fn emit_batch_normalization_running_update(request: &MaterializationRequest, emitter: &mut StageEmitter) -> (result:
    OperationResult<()>)
    requires
        old(emitter).wf(),
    ensures
        final(emitter).wf(),
        normalization_outcome(NormalizationOp::BatchRunningUpdate, *request, *old(emitter), *final(emitter), result),
{
    let inputs: [&str; 4] = ["saved_mean", "saved_variance", "running_mean", "running_variance"];
    let outputs: [&str; 2] = ["updated_running_mean", "updated_running_variance"];
    let parameters: [&str; 1] = ["momentum"];
    assert(inputs@ =~= seq!["saved_mean", "saved_variance", "running_mean", "running_variance"]);
    assert(outputs@ =~= seq!["updated_running_mean", "updated_running_variance"]);
    assert(parameters@ =~= seq!["momentum"]);
    request.require_exact_abi(&inputs, &outputs, &parameters)?;
    let saved_mean = request.input("saved_mean")?;
    let saved_variance = request.input("saved_variance")?;
    let running_mean = request.input("running_mean")?;
    let running_variance = request.input("running_variance")?;
    let updated_mean = request.output("updated_running_mean")?;
    let updated_variance = request.output("updated_running_variance")?;
    let others = five(saved_mean, saved_variance, running_variance, updated_mean, updated_variance);
    assert(others@.map_values(|tensor: &TensorDecl| *tensor) =~= seq![
        *saved_mean,
        *saved_variance,
        *running_variance,
        *updated_mean,
        *updated_variance,
    ]);
    request.require_equal_f32_tensors(running_mean, others.as_slice())?;
    if running_mean.extents.len() != 1 {
        return Err(
            OperationError::new(
                OperationErrorKind::UnsupportedConcreteShape,
                "running batch-normalization statistics must be rank-one",
            ).for_operation(request.descriptor.id),
        );
    }
    request.prepared_f32_in("momentum", F32Range::ClosedUnit)?;
    let sizes: Vec<u64> = Vec::new();
    let ghost base = *emitter;
    let ghost boundary = seq![
        saved_mean.id,
        saved_variance.id,
        running_mean.id,
        running_variance.id,
        updated_mean.id,
        updated_variance.id,
    ];
    let ghost plan = normalization_plan(NormalizationOp::BatchRunningUpdate, boundary, fresh_values(base, 0), 0);
    proof {
        lemma_staged_start(base);
        lemma_goal_start(sizes@, plan);
    }
    let stages = one(
        stage_of(
            elementwise(
                four(running_mean.id, running_variance.id, saved_mean.id, saved_variance.id),
                two(updated_mean.id, updated_variance.id),
            ),
        ),
    );
    proof {
        assert(Seq::<Seq<NodeModel>>::empty() + plan_view(stages@) =~= plan);
        lemma_small_plan_bounded(plan_view(stages@));
    }
    stage_kernels(emitter, Ghost(base), Ghost(sizes@), Ghost(plan), Ghost(sizes@), Ghost(Seq::empty()), stages)?;
    Ok(())
}

/// What a forward row normalization does for the given optional scale and
/// bias.
pub open spec fn row_outcome(
    op: NormalizationOp,
    request: MaterializationRequest,
    has_scale: bool,
    has_bias: bool,
    parameters: Seq<&'static str>,
    before: StageEmitter,
    after: StageEmitter,
    result: OperationResult<()>,
) -> bool {
    match row_normalization_verdict(request, has_scale, has_bias, parameters) {
        Err(kind) => result matches Err(error) && error.kind == kind && after == before,
        Ok(layout) => {
            let sizes = normalization_sizes(op, layout);
            let plan = normalization_plan(op, layout.boundary, fresh_values(before, sizes.len()), layout.tree_lanes);
            match reduction_fault(request, seq![1usize]) {
                None => planned_outcome(sizes, plan, before, after, result),
                Some(kind) => {
                    &&& after.families() == before.families()
                    &&& result is Err
                    &&& (values_room(before, sizes) && plan_room(before, plan) ==> (result matches Err(error)
                        && error.kind == kind))
                },
            }
        },
    }
}

/// Emit a forward row normalization: a statistic image, fixed-order row
/// statistics with the axis kept, then the normalized values with the
/// present affine tensors.
fn emit_row_normalization(
    request: &MaterializationRequest,
    emitter: &mut StageEmitter,
    op: NormalizationOp,
    has_scale: bool,
    has_bias: bool,
    parameters: &[&'static str],
) -> (result: OperationResult<()>)
    requires
        old(emitter).wf(),
        op == NormalizationOp::Layer || op == NormalizationOp::Rms,
    ensures
        final(emitter).wf(),
        row_outcome(op, *request, has_scale, has_bias, parameters@, *old(emitter), *final(emitter), result),
{
    let mut inputs: Vec<&str> = Vec::new();
    inputs.push("values");
    if has_scale {
        inputs.push("scale");
    }
    if has_bias {
        inputs.push("bias");
    }
    assert(inputs@ =~= seq!["values"] + listed_if(has_scale, "scale") + listed_if(has_bias, "bias"));
    let outputs: [&str; 1] = ["normalized"];
    assert(outputs@ =~= seq!["normalized"]);
    request.require_exact_abi(inputs.as_slice(), &outputs, parameters)?;
    let values = request.input("values")?;
    let normalized = request.output("normalized")?;
    let (rows, columns) = request.normalization_matrix(values)?;
    request.require_same_tensor_contract(values, normalized)?;
    let scale = if has_scale {
        Some(request.input("scale")?)
    } else {
        None
    };
    let bias = if has_bias {
        Some(request.input("bias")?)
    } else {
        None
    };
    let column = one(columns);
    if let Some(scale) = scale {
        request.require_f32_shape(scale, column.as_slice())?;
    }
    if let Some(bias) = bias {
        request.require_f32_shape(bias, column.as_slice())?;
    }
    request.prepared_f32_in("epsilon", F32Range::Positive)?;
    let tree_lanes = request.prepared_tree_lanes()?;
    assert(rows * columns <= 16_777_216 * 16_777_216) by (nonlinear_arith)
        requires
            rows <= 16_777_216,
            columns <= 16_777_216,
    ;
    let block = rows * columns * 4;
    let row = rows * 4;
    let sizes = if op == NormalizationOp::Layer {
        four(block, row, block, row)
    } else {
        three(block, row, row)
    };
    let mut affine: Vec<ValueId> = Vec::new();
    if let Some(scale) = scale {
        affine.push(scale.id);
    }
    if let Some(bias) = bias {
        affine.push(bias.id);
    }
    let ghost base = *emitter;
    let ghost scale_tensor = first_named(request.inputs@, "scale"@);
    let ghost bias_tensor = first_named(request.inputs@, "bias"@);
    let ghost boundary = seq![values.id, normalized.id] + affine_ids(has_scale, scale_tensor) + affine_ids(
        has_bias,
        bias_tensor,
    );
    proof {
        assert(affine@ =~= affine_ids(has_scale, scale_tensor) + affine_ids(has_bias, bias_tensor));
        assert(boundary.subrange(2, boundary.len() as int) =~= affine@);
    }
    let ghost plan = normalization_plan(op, boundary, fresh_values(base, sizes@.len()), tree_lanes);
    proof {
        lemma_staged_start(base);
        lemma_goal_start(sizes@, plan);
    }
    let v = stage_values(
        emitter,
        Ghost(base),
        Ghost(sizes@),
        Ghost(plan),
        Ghost(Seq::empty()),
        Ghost(Seq::empty()),
        &sizes,
    )?;
    let head = one(stage_of(elementwise(one(values.id), one(v[0]))));
    proof {
        assert(Seq::<Seq<NodeModel>>::empty() + plan_view(head@) =~= plan.subrange(0, 1));
        lemma_small_plan_bounded(plan_view(head@));
    }
    stage_kernels(emitter, Ghost(base), Ghost(sizes@), Ghost(plan), Ghost(sizes@), Ghost(Seq::empty()), head)?;
    request.require_reduction_axes(axis_list(1).as_slice())?;
    let tail = if op == NormalizationOp::Layer {
        let mut last_inputs = three(values.id, v[1], v[3]);
        let mut index: usize = 0;
        while index < affine.len()
            invariant
                index <= affine@.len(),
                last_inputs@ == seq![values.id, v@[1], v@[3]] + affine@.subrange(0, index as int),
            decreases affine.len() - index,
        {
            last_inputs.push(affine[index]);
            index = index + 1;
            assert(last_inputs@ =~= seq![values.id, v@[1], v@[3]] + affine@.subrange(0, index as int));
        }
        assert(affine@.subrange(0, index as int) =~= affine@);
        three(
            stage_of(sum(v[0], v[1], axis_list(1), true, tree_lanes)),
            stage_of_two(elementwise(two(values.id, v[1]), one(v[2])), sum(v[2], v[3], axis_list(1), true, tree_lanes)),
            stage_of(elementwise(last_inputs, one(normalized.id))),
        )
    } else {
        let mut last_inputs = two(values.id, v[2]);
        let mut index: usize = 0;
        while index < affine.len()
            invariant
                index <= affine@.len(),
                last_inputs@ == seq![values.id, v@[2]] + affine@.subrange(0, index as int),
            decreases affine.len() - index,
        {
            last_inputs.push(affine[index]);
            index = index + 1;
            assert(last_inputs@ =~= seq![values.id, v@[2]] + affine@.subrange(0, index as int));
        }
        assert(affine@.subrange(0, index as int) =~= affine@);
        three(
            stage_of(sum(v[0], v[1], axis_list(1), true, tree_lanes)),
            stage_of(sum(v[1], v[2], axis_list(1), true, tree_lanes)),
            stage_of(elementwise(last_inputs, one(normalized.id))),
        )
    };
    proof {
        assert(plan.subrange(0, 1) + plan_view(tail@) =~= plan.subrange(0, 4));
        lemma_small_plan_bounded(plan_view(tail@));
    }
    stage_kernels(emitter, Ghost(base), Ghost(sizes@), Ghost(plan), Ghost(sizes@), Ghost(plan.subrange(0, 1)), tail)?;
    Ok(())
}

/// Emit the layer normalization; the optional-affine symbol reads whether
/// scale and bias are present.
pub fn emit_layer_normalization(request: &MaterializationRequest, emitter: &mut StageEmitter) -> (result:
    OperationResult<()>)
    requires
        old(emitter).wf(),
    ensures
        final(emitter).wf(),
        normalization_outcome(NormalizationOp::Layer, *request, *old(emitter), *final(emitter), result),
{
    if text_eq(request.descriptor.symbol, "gpu_layernorm_opt_into") {
        let has_scale = request.prepared_bool("has_scale")?;
        let has_bias = request.prepared_bool("has_bias")?;
        let parameters: [&'static str; 4] = ["epsilon", "tree_lanes", "has_scale", "has_bias"];
        assert(parameters@ =~= seq!["epsilon", "tree_lanes", "has_scale", "has_bias"]);
        emit_row_normalization(request, emitter, NormalizationOp::Layer, has_scale, has_bias, &parameters)
    } else {
        let parameters: [&'static str; 2] = ["epsilon", "tree_lanes"];
        assert(parameters@ =~= seq!["epsilon", "tree_lanes"]);
        emit_row_normalization(request, emitter, NormalizationOp::Layer, true, true, &parameters)
    }
}

/// Emit the RMS normalization; every symbol but the scale-free one reads a
/// scale.
pub fn emit_rms_normalization(request: &MaterializationRequest, emitter: &mut StageEmitter) -> (result:
    OperationResult<()>)
    requires
        old(emitter).wf(),
    ensures
        final(emitter).wf(),
        normalization_outcome(NormalizationOp::Rms, *request, *old(emitter), *final(emitter), result),
{
    let has_scale = !text_eq(request.descriptor.symbol, "gpu_rmsnorm_f64_nogamma");
    let parameters: [&'static str; 2] = ["epsilon", "tree_lanes"];
    assert(parameters@ =~= seq!["epsilon", "tree_lanes"]);
    emit_row_normalization(request, emitter, NormalizationOp::Rms, has_scale, false, &parameters)
}

/// Emit the layer normalization gradient: the forward row statistics, then
/// with a second set of intermediates the gradient terms, their row sums
/// and the input gradient, and last the affine gradients.
pub fn emit_layer_normalization_backward(request: &MaterializationRequest, emitter: &mut StageEmitter) -> (result:
    OperationResult<()>)
    requires
        old(emitter).wf(),
    ensures
        final(emitter).wf(),
        normalization_outcome(NormalizationOp::LayerBackward, *request, *old(emitter), *final(emitter), result),
{
    let inputs: [&str; 3] = ["output_gradient", "values", "scale"];
    let outputs: [&str; 3] = ["input_gradient", "scale_gradient", "bias_gradient"];
    let parameters: [&str; 2] = ["epsilon", "tree_lanes"];
    assert(inputs@ =~= seq!["output_gradient", "values", "scale"]);
    assert(outputs@ =~= seq!["input_gradient", "scale_gradient", "bias_gradient"]);
    assert(parameters@ =~= seq!["epsilon", "tree_lanes"]);
    request.require_exact_abi(&inputs, &outputs, &parameters)?;
    let output_gradient = request.input("output_gradient")?;
    let values = request.input("values")?;
    let scale = request.input("scale")?;
    let input_gradient = request.output("input_gradient")?;
    let scale_gradient = request.output("scale_gradient")?;
    let bias_gradient = request.output("bias_gradient")?;
    let (rows, columns) = request.normalization_matrix(values)?;
    request.require_same_tensor_contract(values, output_gradient)?;
    request.require_same_tensor_contract(values, input_gradient)?;
    let column = one(columns);
    request.require_f32_shape(scale, column.as_slice())?;
    request.require_f32_shape(scale_gradient, column.as_slice())?;
    request.require_f32_shape(bias_gradient, column.as_slice())?;
    request.prepared_f32_in("epsilon", F32Range::Positive)?;
    let tree_lanes = request.prepared_tree_lanes()?;
    assert(rows * columns <= 16_777_216 * 16_777_216) by (nonlinear_arith)
        requires
            rows <= 16_777_216,
            columns <= 16_777_216,
    ;
    let block = rows * columns * 4;
    let row = rows * 4;
    let statistics = four(block, row, block, row);
    let gradients = six(block, block, block, block, row, row);
    let ghost sizes = statistics@ + gradients@;
    let ghost base = *emitter;
    let ghost boundary = seq![
        output_gradient.id,
        values.id,
        scale.id,
        input_gradient.id,
        scale_gradient.id,
        bias_gradient.id,
    ];
    let ghost plan = normalization_plan(NormalizationOp::LayerBackward, boundary, fresh_values(base, 10), tree_lanes);
    proof {
        lemma_staged_start(base);
        lemma_goal_start(sizes, plan);
        assert(sizes =~= seq![block, row, block, row, block, block, block, block, row, row]);
        assert(sizes.subrange(0, 4) =~= Seq::<u64>::empty() + statistics@);
    }
    let v = stage_values(
        emitter,
        Ghost(base),
        Ghost(sizes),
        Ghost(plan),
        Ghost(Seq::empty()),
        Ghost(Seq::empty()),
        &statistics,
    )?;
    let head = one(stage_of(elementwise(one(values.id), one(v[0]))));
    proof {
        assert(Seq::<Seq<NodeModel>>::empty() + plan_view(head@) =~= plan.subrange(0, 1));
        lemma_small_plan_bounded(plan_view(head@));
        assert(sizes.subrange(0, 4) =~= statistics@);
    }
    stage_kernels(emitter, Ghost(base), Ghost(sizes), Ghost(plan), Ghost(statistics@), Ghost(Seq::empty()), head)?;
    request.require_reduction_axes(axis_list(1).as_slice())?;
    let middle = two(
        stage_of(sum(v[0], v[1], axis_list(1), true, tree_lanes)),
        stage_of_two(elementwise(two(values.id, v[1]), one(v[2])), sum(v[2], v[3], axis_list(1), true, tree_lanes)),
    );
    proof {
        assert(plan.subrange(0, 1) + plan_view(middle@) =~= plan.subrange(0, 3));
        lemma_small_plan_bounded(plan_view(middle@));
    }
    stage_kernels(
        emitter,
        Ghost(base),
        Ghost(sizes),
        Ghost(plan),
        Ghost(statistics@),
        Ghost(plan.subrange(0, 1)),
        middle,
    )?;
    proof {
        assert(sizes.subrange(0, 10) =~= statistics@ + gradients@);
    }
    let w = stage_values(
        emitter,
        Ghost(base),
        Ghost(sizes),
        Ghost(plan),
        Ghost(statistics@),
        Ghost(plan.subrange(0, 3)),
        &gradients,
    )?;
    let tail = two(
        stage_of_four(
            elementwise(five(output_gradient.id, values.id, scale.id, v[1], v[3]), four(w[0], w[1], w[2], w[3])),
            sum(w[0], w[4], axis_list(1), true, tree_lanes),
            sum(w[1], w[5], axis_list(1), true, tree_lanes),
            elementwise(seven(output_gradient.id, values.id, scale.id, v[1], v[3], w[4], w[5]), one(input_gradient.id)),
        ),
        stage_of_two(
            sum(w[2], scale_gradient.id, axis_list(0), false, tree_lanes),
            sum(w[3], bias_gradient.id, axis_list(0), false, tree_lanes),
        ),
    );
    proof {
        assert(plan.subrange(0, 3) + plan_view(tail@) =~= plan.subrange(0, 5));
        lemma_small_plan_bounded(plan_view(tail@));
    }
    stage_kernels(
        emitter,
        Ghost(base),
        Ghost(sizes),
        Ghost(plan),
        Ghost(statistics@ + gradients@),
        Ghost(plan.subrange(0, 3)),
        tail,
    )?;
    Ok(())
}

/// Emit the RMS normalization gradient: squares and their row sums, then
/// the dot terms and their row sums, then the input gradient with the scale
/// terms, and last the scale gradient.
pub fn emit_rms_normalization_backward(request: &MaterializationRequest, emitter: &mut StageEmitter) -> (result:
    OperationResult<()>)
    requires
        old(emitter).wf(),
    ensures
        final(emitter).wf(),
        normalization_outcome(NormalizationOp::RmsBackward, *request, *old(emitter), *final(emitter), result),
{
    let inputs: [&str; 3] = ["output_gradient", "values", "scale"];
    let outputs: [&str; 2] = ["input_gradient", "scale_gradient"];
    let parameters: [&str; 2] = ["epsilon", "tree_lanes"];
    assert(inputs@ =~= seq!["output_gradient", "values", "scale"]);
    assert(outputs@ =~= seq!["input_gradient", "scale_gradient"]);
    assert(parameters@ =~= seq!["epsilon", "tree_lanes"]);
    request.require_exact_abi(&inputs, &outputs, &parameters)?;
    let output_gradient = request.input("output_gradient")?;
    let values = request.input("values")?;
    let scale = request.input("scale")?;
    let input_gradient = request.output("input_gradient")?;
    let scale_gradient = request.output("scale_gradient")?;
    let (rows, columns) = request.normalization_matrix(values)?;
    request.require_same_tensor_contract(values, output_gradient)?;
    request.require_same_tensor_contract(values, input_gradient)?;
    let column = one(columns);
    request.require_f32_shape(scale, column.as_slice())?;
    request.require_f32_shape(scale_gradient, column.as_slice())?;
    request.prepared_f32_in("epsilon", F32Range::Positive)?;
    let tree_lanes = request.prepared_tree_lanes()?;
    assert(rows * columns <= 16_777_216 * 16_777_216) by (nonlinear_arith)
        requires
            rows <= 16_777_216,
            columns <= 16_777_216,
    ;
    let block = rows * columns * 4;
    let row = rows * 4;
    let squares = two(block, row);
    let dots = two(block, row);
    let terms = one(block);
    let ghost sizes = squares@ + dots@ + terms@;
    let ghost base = *emitter;
    let ghost boundary = seq![output_gradient.id, values.id, scale.id, input_gradient.id, scale_gradient.id];
    let ghost plan = normalization_plan(NormalizationOp::RmsBackward, boundary, fresh_values(base, 5), tree_lanes);
    proof {
        lemma_staged_start(base);
        lemma_goal_start(sizes, plan);
        assert(sizes =~= seq![block, row, block, row, block]);
        assert(sizes.subrange(0, 2) =~= Seq::<u64>::empty() + squares@);
        assert(sizes.subrange(0, 2) =~= squares@);
        assert(sizes.subrange(0, 4) =~= squares@ + dots@);
        assert(sizes.subrange(0, 5) =~= squares@ + dots@ + terms@);
    }
    let v = stage_values(
        emitter,
        Ghost(base),
        Ghost(sizes),
        Ghost(plan),
        Ghost(Seq::empty()),
        Ghost(Seq::empty()),
        &squares,
    )?;
    let head = one(stage_of(elementwise(one(values.id), one(v[0]))));
    proof {
        assert(Seq::<Seq<NodeModel>>::empty() + plan_view(head@) =~= plan.subrange(0, 1));
        lemma_small_plan_bounded(plan_view(head@));
    }
    stage_kernels(emitter, Ghost(base), Ghost(sizes), Ghost(plan), Ghost(squares@), Ghost(Seq::empty()), head)?;
    request.require_reduction_axes(axis_list(1).as_slice())?;
    let second = one(stage_of(sum(v[0], v[1], axis_list(1), true, tree_lanes)));
    proof {
        assert(plan.subrange(0, 1) + plan_view(second@) =~= plan.subrange(0, 2));
        lemma_small_plan_bounded(plan_view(second@));
    }
    stage_kernels(emitter, Ghost(base), Ghost(sizes), Ghost(plan), Ghost(squares@), Ghost(plan.subrange(0, 1)), second)?;
    let w = stage_values(
        emitter,
        Ghost(base),
        Ghost(sizes),
        Ghost(plan),
        Ghost(squares@),
        Ghost(plan.subrange(0, 2)),
        &dots,
    )?;
    let third = one(
        stage_of_two(
            elementwise(three(output_gradient.id, values.id, v[1]), one(w[0])),
            sum(w[0], w[1], axis_list(1), true, tree_lanes),
        ),
    );
    proof {
        assert(plan.subrange(0, 2) + plan_view(third@) =~= plan.subrange(0, 3));
        lemma_small_plan_bounded(plan_view(third@));
    }
    stage_kernels(
        emitter,
        Ghost(base),
        Ghost(sizes),
        Ghost(plan),
        Ghost(squares@ + dots@),
        Ghost(plan.subrange(0, 2)),
        third,
    )?;
    let x = stage_values(
        emitter,
        Ghost(base),
        Ghost(sizes),
        Ghost(plan),
        Ghost(squares@ + dots@),
        Ghost(plan.subrange(0, 3)),
        &terms,
    )?;
    let tail = two(
        stage_of(
            elementwise(
                five(output_gradient.id, values.id, scale.id, v[1], w[1]),
                two(input_gradient.id, x[0]),
            ),
        ),
        stage_of(sum(x[0], scale_gradient.id, axis_list(0), false, tree_lanes)),
    );
    proof {
        assert(plan.subrange(0, 3) + plan_view(tail@) =~= plan.subrange(0, 5));
        lemma_small_plan_bounded(plan_view(tail@));
    }
    stage_kernels(
        emitter,
        Ghost(base),
        Ghost(sizes),
        Ghost(plan),
        Ghost(squares@ + dots@ + terms@),
        Ghost(plan.subrange(0, 3)),
        tail,
    )?;
    Ok(())
}

} // verus!
