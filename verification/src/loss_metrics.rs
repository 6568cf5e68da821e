//! The loss and metric materializers: the boundary each accepts and the
//! exact kernel stages of accuracy, finiteness, elementwise-loss,
//! whole-tensor statistic, column statistic and distance-loss fragments.
use vstd::prelude::*;

use crate::error::{OperationError, OperationErrorKind, OperationResult};
use crate::fragment::{
    KernelEmission, NodeModel, StageEmitter, emission_model, plan_bounded, plan_emitted, plan_room, plan_view,
    stage_view,
};
use crate::primitive::{ReduceOperator, ReduceResult};
use crate::staging::{
    axis_list, elementwise, elementwise_node, every_axis, every_axis_list, four, fresh_values, one, planned_outcome,
    reduce_node, reduction, reserve_values, six, stage_of, sum, sum_node, three, two,
};
use crate::parameters::{PreparedParameter, prepared_u64_spec};
use crate::registry::{loss_metric_rows, loss_metric_supports};
use crate::request::{
    MAX_EXACT_F32_INTEGER, MaterializationRequest, contract_differs, element_count, element_total, first_named,
    matrix_fault, nonempty_f32_fault, paired_fault, tree_lanes_valid, typed_shape_fault,
};
use crate::text::text_eq;
use crate::training::FamilyDispatch;
use crate::types::{DType, ValueId};

verus! {

/// The loss and metric operations with a concrete materializer.
#[derive(Clone, Copy, Debug, PartialEq, Eq, Structural)]
pub enum LossMetric {
    BinaryAccuracy,
    MulticlassCorrectCount,
    DenseMulticlassAccuracy,
    HasNan,
    AllFinite,
    Hinge,
    KlDivergence,
    GlobalMean,
    MeanSquaredError,
    SumSquaredResiduals,
    ColumnMean,
    ColumnVariance,
    Contrastive,
    CosineEmbedding,
    Triplet,
}

/// What a checked request fixes for emission: the boundary tensors in the
/// operation's order, the storage bytes of each intermediate in allocation
/// order, the rank a whole-tensor reduction folds, and the tree lane count.
pub struct LossLayout {
    pub boundary: Seq<ValueId>,
    pub sizes: Seq<u64>,
    pub rank: nat,
    pub tree_lanes: u32,
}

/// How many boundary tensors an operation's layout lists.
pub open spec fn boundary_count(metric: LossMetric) -> nat {
    match metric {
        LossMetric::HasNan | LossMetric::AllFinite | LossMetric::GlobalMean | LossMetric::ColumnMean
        | LossMetric::ColumnVariance => 2,
        LossMetric::Hinge | LossMetric::Contrastive | LossMetric::CosineEmbedding | LossMetric::Triplet => 4,
        _ => 3,
    }
}

/// How many intermediates an operation allocates.
pub open spec fn value_count(metric: LossMetric) -> nat {
    match metric {
        LossMetric::Hinge => 0,
        LossMetric::HasNan | LossMetric::AllFinite | LossMetric::GlobalMean
        | LossMetric::SumSquaredResiduals | LossMetric::ColumnMean => 1,
        LossMetric::DenseMulticlassAccuracy | LossMetric::ColumnVariance | LossMetric::Triplet => 4,
        LossMetric::CosineEmbedding => 6,
        _ => 2,
    }
}

/// The index of each row's maximum.
pub open spec fn row_argmax_node(input: ValueId, output: ValueId, tree_lanes: u32) -> NodeModel {
    reduce_node(input, output, ReduceOperator::Maximum, ReduceResult::Index, seq![1usize], false, tree_lanes)
}

/// The kernel stages of an operation over boundary tensors `b` and
/// intermediates `v`.
pub open spec fn loss_plan(metric: LossMetric, b: Seq<ValueId>, v: Seq<ValueId>, rank: nat, lanes: u32) -> Seq<
    Seq<NodeModel>,
> {
    match metric {
        LossMetric::BinaryAccuracy => seq![
            seq![elementwise_node(seq![b[0], b[1]], seq![v[0]])],
            seq![sum_node(v[0], v[1], every_axis(rank), false, lanes)],
            seq![elementwise_node(seq![v[1]], seq![b[2]])],
        ],
        LossMetric::MulticlassCorrectCount => seq![
            seq![row_argmax_node(b[0], v[0], lanes)],
            seq![elementwise_node(seq![v[0], b[1]], seq![v[1]])],
            seq![sum_node(v[1], b[2], seq![0usize], false, lanes)],
        ],
        LossMetric::DenseMulticlassAccuracy => seq![
            seq![row_argmax_node(b[0], v[0], lanes)],
            seq![row_argmax_node(b[1], v[1], lanes)],
            seq![elementwise_node(seq![v[0], v[1]], seq![v[2]])],
            seq![sum_node(v[2], v[3], seq![0usize], false, lanes)],
            seq![elementwise_node(seq![v[3]], seq![b[2]])],
        ],
        LossMetric::HasNan => seq![
            seq![elementwise_node(seq![b[0]], seq![v[0]])],
            seq![reduce_node(v[0], b[1], ReduceOperator::Any, ReduceResult::Value, every_axis(rank), false, lanes)],
        ],
        LossMetric::AllFinite => seq![
            seq![elementwise_node(seq![b[0]], seq![v[0]])],
            seq![reduce_node(v[0], b[1], ReduceOperator::All, ReduceResult::Value, every_axis(rank), false, lanes)],
        ],
        LossMetric::Hinge => seq![seq![elementwise_node(seq![b[0], b[1]], seq![b[2], b[3]])]],
        LossMetric::KlDivergence => seq![
            seq![
                elementwise_node(seq![b[1]], seq![v[0]]),
                elementwise_node(seq![v[0]], seq![v[1]]),
                elementwise_node(seq![b[0], b[1], v[1]], seq![b[2]]),
            ],
        ],
        LossMetric::GlobalMean => seq![
            seq![sum_node(b[0], v[0], every_axis(rank), false, lanes)],
            seq![elementwise_node(seq![v[0]], seq![b[1]])],
        ],
        LossMetric::MeanSquaredError => seq![
            seq![elementwise_node(seq![b[0], b[1]], seq![v[0]])],
            seq![sum_node(v[0], v[1], every_axis(rank), false, lanes)],
            seq![elementwise_node(seq![v[1]], seq![b[2]])],
        ],
        LossMetric::SumSquaredResiduals => seq![
            seq![elementwise_node(seq![b[0], b[1]], seq![v[0]])],
            seq![sum_node(v[0], b[2], every_axis(rank), false, lanes)],
        ],
        LossMetric::ColumnMean => seq![
            seq![sum_node(b[0], v[0], seq![0usize], false, lanes)],
            seq![elementwise_node(seq![v[0]], seq![b[1]])],
        ],
        LossMetric::ColumnVariance => seq![
            seq![sum_node(b[0], v[0], seq![0usize], false, lanes)],
            seq![elementwise_node(seq![b[0], v[0]], seq![v[1]])],
            seq![
                sum_node(v[1], v[2], seq![0usize], true, lanes),
                elementwise_node(seq![v[2]], seq![v[3]]),
                sum_node(v[3], b[1], seq![0usize], false, lanes),
            ],
        ],
        LossMetric::Contrastive => seq![
            seq![elementwise_node(seq![b[0], b[1]], seq![v[0]])],
            seq![sum_node(v[0], v[1], seq![1usize], false, lanes)],
            seq![elementwise_node(seq![v[1], b[2]], seq![b[3]])],
        ],
        LossMetric::CosineEmbedding => seq![
            seq![elementwise_node(seq![b[0], b[1]], seq![v[0], v[1], v[2]])],
            seq![sum_node(v[0], v[3], seq![1usize], false, lanes)],
            seq![sum_node(v[1], v[4], seq![1usize], false, lanes)],
            seq![sum_node(v[2], v[5], seq![1usize], false, lanes)],
            seq![elementwise_node(seq![v[3], v[4], v[5], b[2]], seq![b[3]])],
        ],
        LossMetric::Triplet => seq![
            seq![elementwise_node(seq![b[0], b[1], b[2]], seq![v[0], v[1]])],
            seq![sum_node(v[0], v[2], seq![1usize], false, lanes)],
            seq![sum_node(v[1], v[3], seq![1usize], false, lanes)],
            seq![elementwise_node(seq![v[2], v[3]], seq![b[3]])],
        ],
    }
}

/// The stages of a checked layout over the emitter's next intermediates.
pub open spec fn layout_plan(metric: LossMetric, layout: LossLayout, before: StageEmitter) -> Seq<Seq<NodeModel>> {
    loss_plan(metric, layout.boundary, fresh_values(before, layout.sizes.len()), layout.rank, layout.tree_lanes)
}

/// A request for the index of each row's maximum.
fn row_argmax(input: ValueId, output: ValueId, tree_lanes: u32) -> (emission: KernelEmission)
    ensures
        emission_model(emission) == row_argmax_node(input, output, tree_lanes),
{
    let axes = vec![1usize];
    assert(axes@ =~= seq![1usize]);
    reduction(input, output, ReduceOperator::Maximum, ReduceResult::Index, axes, false, tree_lanes)
}

/// Stages of the binary accuracy: match flags, their count, the normalized count.
fn binary_accuracy_stages(b: &Vec<ValueId>, v: &Vec<ValueId>, rank: usize, lanes: u32) -> (stages: Vec<Vec<KernelEmission>>)
    requires
        b@.len() == 3,
        v@.len() == 2,
    ensures
        plan_view(stages@) == loss_plan(LossMetric::BinaryAccuracy, b@, v@, rank as nat, lanes),
{
    let mut stages: Vec<Vec<KernelEmission>> = Vec::new();
    stages.push(stage_of(elementwise(two(b[0], b[1]), one(v[0]))));
    stages.push(stage_of(sum(v[0], v[1], every_axis_list(rank), false, lanes)));
    stages.push(stage_of(elementwise(one(v[1]), one(b[2]))));
    assert(plan_view(stages@) =~= loss_plan(LossMetric::BinaryAccuracy, b@, v@, rank as nat, lanes));
    stages
}

/// Stages of the multiclass correct count: predicted classes, checked matches, their sum.
fn multiclass_correct_count_stages(b: &Vec<ValueId>, v: &Vec<ValueId>, rank: usize, lanes: u32) -> (stages: Vec<Vec<KernelEmission>>)
    requires
        b@.len() == 3,
        v@.len() == 2,
    ensures
        plan_view(stages@) == loss_plan(LossMetric::MulticlassCorrectCount, b@, v@, rank as nat, lanes),
{
    let mut stages: Vec<Vec<KernelEmission>> = Vec::new();
    stages.push(stage_of(row_argmax(b[0], v[0], lanes)));
    stages.push(stage_of(elementwise(two(v[0], b[1]), one(v[1]))));
    stages.push(stage_of(sum(v[1], b[2], axis_list(0), false, lanes)));
    assert(plan_view(stages@) =~= loss_plan(LossMetric::MulticlassCorrectCount, b@, v@, rank as nat, lanes));
    stages
}

/// Stages of the dense multiclass accuracy: both argmaxes, matches, their sum, the normalized sum.
fn dense_multiclass_accuracy_stages(b: &Vec<ValueId>, v: &Vec<ValueId>, rank: usize, lanes: u32) -> (stages: Vec<Vec<KernelEmission>>)
    requires
        b@.len() == 3,
        v@.len() == 4,
    ensures
        plan_view(stages@) == loss_plan(LossMetric::DenseMulticlassAccuracy, b@, v@, rank as nat, lanes),
{
    let mut stages: Vec<Vec<KernelEmission>> = Vec::new();
    stages.push(stage_of(row_argmax(b[0], v[0], lanes)));
    stages.push(stage_of(row_argmax(b[1], v[1], lanes)));
    stages.push(stage_of(elementwise(two(v[0], v[1]), one(v[2]))));
    stages.push(stage_of(sum(v[2], v[3], axis_list(0), false, lanes)));
    stages.push(stage_of(elementwise(one(v[3]), one(b[2]))));
    assert(plan_view(stages@) =~= loss_plan(LossMetric::DenseMulticlassAccuracy, b@, v@, rank as nat, lanes));
    stages
}

/// Stages of the NaN test: per-element flags, then whether any is set.
fn has_nan_stages(b: &Vec<ValueId>, v: &Vec<ValueId>, rank: usize, lanes: u32) -> (stages: Vec<Vec<KernelEmission>>)
    requires
        b@.len() == 2,
        v@.len() == 1,
    ensures
        plan_view(stages@) == loss_plan(LossMetric::HasNan, b@, v@, rank as nat, lanes),
{
    let mut stages: Vec<Vec<KernelEmission>> = Vec::new();
    stages.push(stage_of(elementwise(one(b[0]), one(v[0]))));
    stages.push(stage_of(reduction(v[0], b[1], ReduceOperator::Any, ReduceResult::Value, every_axis_list(rank), false, lanes)));
    assert(plan_view(stages@) =~= loss_plan(LossMetric::HasNan, b@, v@, rank as nat, lanes));
    stages
}

/// Stages of the finiteness test: per-element flags, then whether all are set.
fn all_finite_stages(b: &Vec<ValueId>, v: &Vec<ValueId>, rank: usize, lanes: u32) -> (stages: Vec<Vec<KernelEmission>>)
    requires
        b@.len() == 2,
        v@.len() == 1,
    ensures
        plan_view(stages@) == loss_plan(LossMetric::AllFinite, b@, v@, rank as nat, lanes),
{
    let mut stages: Vec<Vec<KernelEmission>> = Vec::new();
    stages.push(stage_of(elementwise(one(b[0]), one(v[0]))));
    stages.push(stage_of(reduction(v[0], b[1], ReduceOperator::All, ReduceResult::Value, every_axis_list(rank), false, lanes)));
    assert(plan_view(stages@) =~= loss_plan(LossMetric::AllFinite, b@, v@, rank as nat, lanes));
    stages
}

/// The single stage of the hinge loss and its gradient.
fn hinge_stages(b: &Vec<ValueId>, v: &Vec<ValueId>, rank: usize, lanes: u32) -> (stages: Vec<Vec<KernelEmission>>)
    requires
        b@.len() == 4,
        v@.len() == 0,
    ensures
        plan_view(stages@) == loss_plan(LossMetric::Hinge, b@, v@, rank as nat, lanes),
{
    let mut stages: Vec<Vec<KernelEmission>> = Vec::new();
    stages.push(stage_of(elementwise(two(b[0], b[1]), two(b[2], b[3]))));
    assert(plan_view(stages@) =~= loss_plan(LossMetric::Hinge, b@, v@, rank as nat, lanes));
    stages
}

/// The single stage of the KL divergence: safe targets, their logarithms, the losses.
fn kl_divergence_stages(b: &Vec<ValueId>, v: &Vec<ValueId>, rank: usize, lanes: u32) -> (stages: Vec<Vec<KernelEmission>>)
    requires
        b@.len() == 3,
        v@.len() == 2,
    ensures
        plan_view(stages@) == loss_plan(LossMetric::KlDivergence, b@, v@, rank as nat, lanes),
{
    let mut stages: Vec<Vec<KernelEmission>> = Vec::new();
    let mut stage: Vec<KernelEmission> = Vec::new();
    stage.push(elementwise(one(b[1]), one(v[0])));
    stage.push(elementwise(one(v[0]), one(v[1])));
    stage.push(elementwise(three(b[0], b[1], v[1]), one(b[2])));
    assert(stage_view(stage) =~= seq![
        elementwise_node(seq![b@[1]], seq![v@[0]]),
        elementwise_node(seq![v@[0]], seq![v@[1]]),
        elementwise_node(seq![b@[0], b@[1], v@[1]], seq![b@[2]]),
    ]);
    stages.push(stage);
    assert(plan_view(stages@) =~= loss_plan(LossMetric::KlDivergence, b@, v@, rank as nat, lanes));
    stages
}

/// Stages of the whole-tensor mean: the sum, then the normalized sum.
fn global_mean_stages(b: &Vec<ValueId>, v: &Vec<ValueId>, rank: usize, lanes: u32) -> (stages: Vec<Vec<KernelEmission>>)
    requires
        b@.len() == 2,
        v@.len() == 1,
    ensures
        plan_view(stages@) == loss_plan(LossMetric::GlobalMean, b@, v@, rank as nat, lanes),
{
    let mut stages: Vec<Vec<KernelEmission>> = Vec::new();
    stages.push(stage_of(sum(b[0], v[0], every_axis_list(rank), false, lanes)));
    stages.push(stage_of(elementwise(one(v[0]), one(b[1]))));
    assert(plan_view(stages@) =~= loss_plan(LossMetric::GlobalMean, b@, v@, rank as nat, lanes));
    stages
}

/// Stages of the mean squared error: squared residuals, their sum, the normalized sum.
fn mean_squared_error_stages(b: &Vec<ValueId>, v: &Vec<ValueId>, rank: usize, lanes: u32) -> (stages: Vec<Vec<KernelEmission>>)
    requires
        b@.len() == 3,
        v@.len() == 2,
    ensures
        plan_view(stages@) == loss_plan(LossMetric::MeanSquaredError, b@, v@, rank as nat, lanes),
{
    let mut stages: Vec<Vec<KernelEmission>> = Vec::new();
    stages.push(stage_of(elementwise(two(b[0], b[1]), one(v[0]))));
    stages.push(stage_of(sum(v[0], v[1], every_axis_list(rank), false, lanes)));
    stages.push(stage_of(elementwise(one(v[1]), one(b[2]))));
    assert(plan_view(stages@) =~= loss_plan(LossMetric::MeanSquaredError, b@, v@, rank as nat, lanes));
    stages
}

/// Stages of the residual sum of squares: squared residuals, then their sum.
fn sum_squared_residuals_stages(b: &Vec<ValueId>, v: &Vec<ValueId>, rank: usize, lanes: u32) -> (stages: Vec<Vec<KernelEmission>>)
    requires
        b@.len() == 3,
        v@.len() == 1,
    ensures
        plan_view(stages@) == loss_plan(LossMetric::SumSquaredResiduals, b@, v@, rank as nat, lanes),
{
    let mut stages: Vec<Vec<KernelEmission>> = Vec::new();
    stages.push(stage_of(elementwise(two(b[0], b[1]), one(v[0]))));
    stages.push(stage_of(sum(v[0], b[2], every_axis_list(rank), false, lanes)));
    assert(plan_view(stages@) =~= loss_plan(LossMetric::SumSquaredResiduals, b@, v@, rank as nat, lanes));
    stages
}

/// Stages of the column means: column sums, then the normalized sums.
fn column_mean_stages(b: &Vec<ValueId>, v: &Vec<ValueId>, rank: usize, lanes: u32) -> (stages: Vec<Vec<KernelEmission>>)
    requires
        b@.len() == 2,
        v@.len() == 1,
    ensures
        plan_view(stages@) == loss_plan(LossMetric::ColumnMean, b@, v@, rank as nat, lanes),
{
    let mut stages: Vec<Vec<KernelEmission>> = Vec::new();
    stages.push(stage_of(sum(b[0], v[0], axis_list(0), false, lanes)));
    stages.push(stage_of(elementwise(one(v[0]), one(b[1]))));
    assert(plan_view(stages@) =~= loss_plan(LossMetric::ColumnMean, b@, v@, rank as nat, lanes));
    stages
}

/// Stages of the column variances: column sums, squared deviations, then their kept-axis sum, normalization and final fold.
fn column_variance_stages(b: &Vec<ValueId>, v: &Vec<ValueId>, rank: usize, lanes: u32) -> (stages: Vec<Vec<KernelEmission>>)
    requires
        b@.len() == 2,
        v@.len() == 4,
    ensures
        plan_view(stages@) == loss_plan(LossMetric::ColumnVariance, b@, v@, rank as nat, lanes),
{
    let mut stages: Vec<Vec<KernelEmission>> = Vec::new();
    stages.push(stage_of(sum(b[0], v[0], axis_list(0), false, lanes)));
    stages.push(stage_of(elementwise(two(b[0], v[0]), one(v[1]))));
    let mut stage: Vec<KernelEmission> = Vec::new();
    stage.push(sum(v[1], v[2], axis_list(0), true, lanes));
    stage.push(elementwise(one(v[2]), one(v[3])));
    stage.push(sum(v[3], b[1], axis_list(0), false, lanes));
    assert(stage_view(stage) =~= seq![
        sum_node(v@[1], v@[2], seq![0usize], true, lanes),
        elementwise_node(seq![v@[2]], seq![v@[3]]),
        sum_node(v@[3], b@[1], seq![0usize], false, lanes),
    ]);
    stages.push(stage);
    assert(plan_view(stages@) =~= loss_plan(LossMetric::ColumnVariance, b@, v@, rank as nat, lanes));
    stages
}

/// Stages of the contrastive loss: squared differences, per-row distances, the losses.
fn contrastive_stages(b: &Vec<ValueId>, v: &Vec<ValueId>, rank: usize, lanes: u32) -> (stages: Vec<Vec<KernelEmission>>)
    requires
        b@.len() == 4,
        v@.len() == 2,
    ensures
        plan_view(stages@) == loss_plan(LossMetric::Contrastive, b@, v@, rank as nat, lanes),
{
    let mut stages: Vec<Vec<KernelEmission>> = Vec::new();
    stages.push(stage_of(elementwise(two(b[0], b[1]), one(v[0]))));
    stages.push(stage_of(sum(v[0], v[1], axis_list(1), false, lanes)));
    stages.push(stage_of(elementwise(two(v[1], b[2]), one(b[3]))));
    assert(plan_view(stages@) =~= loss_plan(LossMetric::Contrastive, b@, v@, rank as nat, lanes));
    stages
}

/// Stages of the cosine embedding loss: product and norm terms, their row sums, the losses.
fn cosine_embedding_stages(b: &Vec<ValueId>, v: &Vec<ValueId>, rank: usize, lanes: u32) -> (stages: Vec<Vec<KernelEmission>>)
    requires
        b@.len() == 4,
        v@.len() == 6,
    ensures
        plan_view(stages@) == loss_plan(LossMetric::CosineEmbedding, b@, v@, rank as nat, lanes),
{
    let mut stages: Vec<Vec<KernelEmission>> = Vec::new();
    stages.push(stage_of(elementwise(two(b[0], b[1]), three(v[0], v[1], v[2]))));
    stages.push(stage_of(sum(v[0], v[3], axis_list(1), false, lanes)));
    stages.push(stage_of(sum(v[1], v[4], axis_list(1), false, lanes)));
    stages.push(stage_of(sum(v[2], v[5], axis_list(1), false, lanes)));
    stages.push(stage_of(elementwise(four(v[3], v[4], v[5], b[2]), one(b[3]))));
    assert(plan_view(stages@) =~= loss_plan(LossMetric::CosineEmbedding, b@, v@, rank as nat, lanes));
    stages
}

/// Stages of the triplet loss: positive and negative terms, their row sums, the losses.
fn triplet_stages(b: &Vec<ValueId>, v: &Vec<ValueId>, rank: usize, lanes: u32) -> (stages: Vec<Vec<KernelEmission>>)
    requires
        b@.len() == 4,
        v@.len() == 4,
    ensures
        plan_view(stages@) == loss_plan(LossMetric::Triplet, b@, v@, rank as nat, lanes),
{
    let mut stages: Vec<Vec<KernelEmission>> = Vec::new();
    stages.push(stage_of(elementwise(three(b[0], b[1], b[2]), two(v[0], v[1]))));
    stages.push(stage_of(sum(v[0], v[2], axis_list(1), false, lanes)));
    stages.push(stage_of(sum(v[1], v[3], axis_list(1), false, lanes)));
    stages.push(stage_of(elementwise(two(v[2], v[3]), one(b[3]))));
    assert(plan_view(stages@) =~= loss_plan(LossMetric::Triplet, b@, v@, rank as nat, lanes));
    stages
}

/// Every kernel of an operation's plan reads at most four tensors and
/// writes at most three, so its alias table fits `usize`.
proof fn lemma_loss_plan_bounded(metric: LossMetric, b: Seq<ValueId>, v: Seq<ValueId>, rank: nat, lanes: u32)
    ensures
        plan_bounded(loss_plan(metric, b, v, rank, lanes)),
{
    let plan = loss_plan(metric, b, v, rank, lanes);
    assert forall|i: int, j: int| 0 <= i < plan.len() && 0 <= j < plan[i].len() implies (
    #[trigger] plan[i][j]).inputs.len() <= 4 && plan[i][j].outputs.len() <= 3 by {}
    assert forall|i: int, j: int| 0 <= i < plan.len() && 0 <= j < plan[i].len() implies (
    #[trigger] plan[i][j]).inputs.len() * plan[i][j].outputs.len() <= usize::MAX by {
        let inputs = plan[i][j].inputs.len();
        let outputs = plan[i][j].outputs.len();
        assert(inputs * outputs <= 12) by (nonlinear_arith)
            requires
                inputs <= 4,
                outputs <= 3,
        ;
    }
}

/// The stages of an operation over its boundary tensors and fresh
/// intermediates.
fn planned_stages(metric: LossMetric, boundary: &Vec<ValueId>, values: &Vec<ValueId>, rank: usize, lanes: u32) -> (stages:
    Vec<Vec<KernelEmission>>)
    requires
        boundary@.len() == boundary_count(metric),
        values@.len() == value_count(metric),
    ensures
        plan_view(stages@) == loss_plan(metric, boundary@, values@, rank as nat, lanes),
{
    match metric {
        LossMetric::BinaryAccuracy => binary_accuracy_stages(boundary, values, rank, lanes),
        LossMetric::MulticlassCorrectCount => multiclass_correct_count_stages(boundary, values, rank, lanes),
        LossMetric::DenseMulticlassAccuracy => dense_multiclass_accuracy_stages(boundary, values, rank, lanes),
        LossMetric::HasNan => has_nan_stages(boundary, values, rank, lanes),
        LossMetric::AllFinite => all_finite_stages(boundary, values, rank, lanes),
        LossMetric::Hinge => hinge_stages(boundary, values, rank, lanes),
        LossMetric::KlDivergence => kl_divergence_stages(boundary, values, rank, lanes),
        LossMetric::GlobalMean => global_mean_stages(boundary, values, rank, lanes),
        LossMetric::MeanSquaredError => mean_squared_error_stages(boundary, values, rank, lanes),
        LossMetric::SumSquaredResiduals => sum_squared_residuals_stages(boundary, values, rank, lanes),
        LossMetric::ColumnMean => column_mean_stages(boundary, values, rank, lanes),
        LossMetric::ColumnVariance => column_variance_stages(boundary, values, rank, lanes),
        LossMetric::Contrastive => contrastive_stages(boundary, values, rank, lanes),
        LossMetric::CosineEmbedding => cosine_embedding_stages(boundary, values, rank, lanes),
        LossMetric::Triplet => triplet_stages(boundary, values, rank, lanes),
    }
}

/// Allocate an operation's intermediates and emit its stages.
fn emit_layout(
    emitter: &mut StageEmitter,
    metric: LossMetric,
    boundary: Vec<ValueId>,
    sizes: Vec<u64>,
    rank: usize,
    tree_lanes: u32,
) -> (result: OperationResult<()>)
    requires
        old(emitter).wf(),
        boundary@.len() == boundary_count(metric),
        sizes@.len() == value_count(metric),
    ensures
        final(emitter).wf(),
        planned_outcome(
            sizes@,
            layout_plan(
                metric,
                LossLayout { boundary: boundary@, sizes: sizes@, rank: rank as nat, tree_lanes },
                *old(emitter),
            ),
            *old(emitter),
            *final(emitter),
            result,
        ),
{
    let ghost start = *emitter;
    let ghost plan = loss_plan(
        metric,
        boundary@,
        fresh_values(start, sizes@.len()),
        rank as nat,
        tree_lanes,
    );
    let values = match reserve_values(emitter, &sizes) {
        Ok(values) => values,
        Err(error) => return Err(error),
    };
    let ghost middle = *emitter;
    let stages = planned_stages(metric, &boundary, &values, rank, tree_lanes);
    proof {
        lemma_loss_plan_bounded(metric, boundary@, values@, rank as nat, tree_lanes);
        assert(plan_view(stages@) == plan);
    }
    let result = emitter.emit_plan(stages);
    proof {
        assert(plan_room(middle, plan) == plan_room(start, plan));
        if result is Ok {
            assert(plan_emitted(middle, *emitter, plan) == plan_emitted(start, *emitter, plan));
        }
    }
    result
}

/// The prepared `tree_lanes` count, or why it is refused.
pub open spec fn lanes_verdict(request: MaterializationRequest) -> Result<u32, OperationErrorKind> {
    match prepared_u64_spec(request.parameters, "tree_lanes"@) {
        Ok(value) => if tree_lanes_valid(value) {
            Ok(value as u32)
        } else {
            Err(OperationErrorKind::InvalidMaterializationRequest)
        },
        Err(kind) => Err(kind),
    }
}

/// The bits of a finite binary32 value: not every exponent bit is set.
pub open spec fn finite_bits(bits: u32) -> bool {
    bits & 0x7f80_0000u32 != 0x7f80_0000u32
}

/// Why the prepared `margin` is refused, if it is: it must be a finite
/// binary32 value.
pub open spec fn margin_fault(request: MaterializationRequest) -> Option<OperationErrorKind> {
    match request.parameters.lookup("margin"@) {
        Some(PreparedParameter::F32Bits(bits)) => if finite_bits(bits) {
            None
        } else {
            Some(OperationErrorKind::InvalidMaterializationRequest)
        },
        Some(_) => Some(OperationErrorKind::PreparedParameterTypeMismatch),
        None => Some(OperationErrorKind::MissingPreparedParameter),
    }
}

/// The verdict once the boundary tensors fit: a divisor binary32 cannot
/// hold exactly, then the margin where one is read, then the tree lanes
/// where they are read.
pub open spec fn checked_layout(
    request: MaterializationRequest,
    inexact: bool,
    margin: bool,
    lanes: bool,
    boundary: Seq<ValueId>,
    sizes: Seq<u64>,
    rank: nat,
) -> Result<LossLayout, OperationErrorKind> {
    if inexact {
        Err(OperationErrorKind::UnsupportedConcreteShape)
    } else if margin && margin_fault(request) is Some {
        Err(margin_fault(request)->Some_0)
    } else if !lanes {
        Ok(LossLayout { boundary, sizes, rank, tree_lanes: 0 })
    } else {
        match lanes_verdict(request) {
            Ok(tree_lanes) => Ok(LossLayout { boundary, sizes, rank, tree_lanes }),
            Err(kind) => Err(kind),
        }
    }
}

/// The binary accuracy's layout, or why the request is refused.
pub open spec fn binary_accuracy_verdict(request: MaterializationRequest) -> Result<LossLayout, OperationErrorKind> {
    if !request.abi_matches(seq!["predictions", "targets"], seq!["accuracy"], seq!["tree_lanes"]) {
        Err(OperationErrorKind::InvalidMaterializationRequest)
    } else {
        match (first_named(request.inputs@, "predictions"@), first_named(request.inputs@, "targets"@), first_named(request.outputs@, "accuracy"@)) {
            (Some(p), Some(t), Some(a)) => if nonempty_f32_fault(p) || contract_differs(p, t) || typed_shape_fault(a, DType::F32, seq![1u64]) {
                Err(OperationErrorKind::InvalidMaterializationRequest)
            } else {
                checked_layout(
                    request,
                    element_count(p.extents@) > MAX_EXACT_F32_INTEGER,
                    false,
                    true,
                    seq![p.id, t.id, a.id],
                    seq![(element_count(p.extents@) * 4) as u64, 4u64],
                    p.extents@.len(),
                )
            },
            _ => Err(OperationErrorKind::InvalidMaterializationRequest),
        }
    }
}

/// The multiclass correct count's layout, or why the request is refused.
pub open spec fn multiclass_correct_count_verdict(request: MaterializationRequest) -> Result<LossLayout, OperationErrorKind> {
    if !request.abi_matches(seq!["predictions", "targets"], seq!["correct_count"], seq!["tree_lanes"]) {
        Err(OperationErrorKind::InvalidMaterializationRequest)
    } else {
        match (first_named(request.inputs@, "predictions"@), first_named(request.inputs@, "targets"@), first_named(request.outputs@, "correct_count"@)) {
            (Some(p), Some(t), Some(c)) => if matrix_fault(p) || typed_shape_fault(t, DType::I32, seq![p.extents@[0]]) || typed_shape_fault(c, DType::F32, seq![1u64]) {
                Err(OperationErrorKind::InvalidMaterializationRequest)
            } else {
                checked_layout(
                    request,
                    p.extents@[0] > MAX_EXACT_F32_INTEGER,
                    false,
                    true,
                    seq![p.id, t.id, c.id],
                    seq![(p.extents@[0] * 4) as u64, (p.extents@[0] * 4) as u64],
                    2,
                )
            },
            _ => Err(OperationErrorKind::InvalidMaterializationRequest),
        }
    }
}

/// The dense multiclass accuracy's layout, or why the request is refused.
pub open spec fn dense_multiclass_accuracy_verdict(request: MaterializationRequest) -> Result<LossLayout, OperationErrorKind> {
    if !request.abi_matches(seq!["predictions", "targets"], seq!["accuracy"], seq!["tree_lanes"]) {
        Err(OperationErrorKind::InvalidMaterializationRequest)
    } else {
        match (first_named(request.inputs@, "predictions"@), first_named(request.inputs@, "targets"@), first_named(request.outputs@, "accuracy"@)) {
            (Some(p), Some(t), Some(a)) => if matrix_fault(p) || contract_differs(p, t) || typed_shape_fault(a, DType::F32, seq![1u64]) {
                Err(OperationErrorKind::InvalidMaterializationRequest)
            } else {
                checked_layout(
                    request,
                    p.extents@[0] > MAX_EXACT_F32_INTEGER,
                    false,
                    true,
                    seq![p.id, t.id, a.id],
                    seq![(p.extents@[0] * 4) as u64, (p.extents@[0] * 4) as u64, (p.extents@[0] * 4) as u64, 4u64],
                    2,
                )
            },
            _ => Err(OperationErrorKind::InvalidMaterializationRequest),
        }
    }
}

/// The output a finiteness test writes.
pub open spec fn finite_output(all_finite: bool) -> &'static str {
    if all_finite {
        "all_finite"
    } else {
        "has_nan"
    }
}

/// A finiteness test's layout, or why the request is refused.
pub open spec fn finite_metric_verdict(request: MaterializationRequest, all_finite: bool) -> Result<
    LossLayout,
    OperationErrorKind,
> {
    let name = finite_output(all_finite);
    if !request.abi_matches(seq!["values"], seq![name], seq!["tree_lanes"]) {
        Err(OperationErrorKind::InvalidMaterializationRequest)
    } else {
        match (first_named(request.inputs@, "values"@), first_named(request.outputs@, name@)) {
            (Some(values), Some(flag)) => if nonempty_f32_fault(values) || typed_shape_fault(
                flag,
                DType::I32,
                seq![1u64],
            ) {
                Err(OperationErrorKind::InvalidMaterializationRequest)
            } else {
                checked_layout(
                    request,
                    false,
                    false,
                    true,
                    seq![values.id, flag.id],
                    seq![(element_count(values.extents@) * 4) as u64],
                    values.extents@.len(),
                )
            },
            _ => Err(OperationErrorKind::InvalidMaterializationRequest),
        }
    }
}

/// The hinge loss's layout, or why the request is refused.
pub open spec fn hinge_verdict(request: MaterializationRequest) -> Result<LossLayout, OperationErrorKind> {
    if !request.abi_matches(seq!["scores", "labels"], seq!["losses", "gradients"], Seq::<&str>::empty()) {
        Err(OperationErrorKind::InvalidMaterializationRequest)
    } else {
        match (first_named(request.inputs@, "scores"@), first_named(request.inputs@, "labels"@), first_named(request.outputs@, "losses"@), first_named(request.outputs@, "gradients"@)) {
            (Some(s), Some(l), Some(o), Some(g)) => if nonempty_f32_fault(s) || contract_differs(s, l) || contract_differs(s, o) || contract_differs(s, g) {
                Err(OperationErrorKind::InvalidMaterializationRequest)
            } else {
                checked_layout(
                    request,
                    false,
                    false,
                    false,
                    seq![s.id, l.id, o.id, g.id],
                    Seq::<u64>::empty(),
                    s.extents@.len(),
                )
            },
            _ => Err(OperationErrorKind::InvalidMaterializationRequest),
        }
    }
}

/// The KL divergence's layout, or why the request is refused.
pub open spec fn kl_divergence_verdict(request: MaterializationRequest) -> Result<LossLayout, OperationErrorKind> {
    if !request.abi_matches(seq!["log_probabilities", "targets"], seq!["losses"], Seq::<&str>::empty()) {
        Err(OperationErrorKind::InvalidMaterializationRequest)
    } else {
        match (first_named(request.inputs@, "log_probabilities"@), first_named(request.inputs@, "targets"@), first_named(request.outputs@, "losses"@)) {
            (Some(q), Some(t), Some(o)) => if nonempty_f32_fault(q) || contract_differs(q, t) || contract_differs(q, o) {
                Err(OperationErrorKind::InvalidMaterializationRequest)
            } else {
                checked_layout(
                    request,
                    false,
                    false,
                    false,
                    seq![q.id, t.id, o.id],
                    seq![(element_count(q.extents@) * 4) as u64, (element_count(q.extents@) * 4) as u64],
                    q.extents@.len(),
                )
            },
            _ => Err(OperationErrorKind::InvalidMaterializationRequest),
        }
    }
}

/// The whole-tensor mean's layout, or why the request is refused.
pub open spec fn global_mean_verdict(request: MaterializationRequest) -> Result<LossLayout, OperationErrorKind> {
    if !request.abi_matches(seq!["values"], seq!["mean"], seq!["tree_lanes"]) {
        Err(OperationErrorKind::InvalidMaterializationRequest)
    } else {
        match (first_named(request.inputs@, "values"@), first_named(request.outputs@, "mean"@)) {
            (Some(x), Some(m)) => if nonempty_f32_fault(x) || typed_shape_fault(m, DType::F32, seq![1u64]) {
                Err(OperationErrorKind::InvalidMaterializationRequest)
            } else {
                checked_layout(
                    request,
                    element_count(x.extents@) > MAX_EXACT_F32_INTEGER,
                    false,
                    true,
                    seq![x.id, m.id],
                    seq![4u64],
                    x.extents@.len(),
                )
            },
            _ => Err(OperationErrorKind::InvalidMaterializationRequest),
        }
    }
}

/// The mean squared error's layout, or why the request is refused.
pub open spec fn mean_squared_error_verdict(request: MaterializationRequest) -> Result<LossLayout, OperationErrorKind> {
    if !request.abi_matches(seq!["predictions", "targets"], seq!["mean_squared_error"], seq!["tree_lanes"]) {
        Err(OperationErrorKind::InvalidMaterializationRequest)
    } else {
        match (first_named(request.inputs@, "predictions"@), first_named(request.inputs@, "targets"@), first_named(request.outputs@, "mean_squared_error"@)) {
            (Some(p), Some(t), Some(e)) => if nonempty_f32_fault(p) || contract_differs(p, t) || typed_shape_fault(e, DType::F32, seq![1u64]) {
                Err(OperationErrorKind::InvalidMaterializationRequest)
            } else {
                checked_layout(
                    request,
                    element_count(p.extents@) > MAX_EXACT_F32_INTEGER,
                    false,
                    true,
                    seq![p.id, t.id, e.id],
                    seq![(element_count(p.extents@) * 4) as u64, 4u64],
                    p.extents@.len(),
                )
            },
            _ => Err(OperationErrorKind::InvalidMaterializationRequest),
        }
    }
}

/// The residual sum of squares' layout, or why the request is refused.
pub open spec fn sum_squared_residuals_verdict(request: MaterializationRequest) -> Result<LossLayout, OperationErrorKind> {
    if !request.abi_matches(seq!["predictions", "targets"], seq!["sum_squared_residuals"], seq!["tree_lanes"]) {
        Err(OperationErrorKind::InvalidMaterializationRequest)
    } else {
        match (first_named(request.inputs@, "predictions"@), first_named(request.inputs@, "targets"@), first_named(request.outputs@, "sum_squared_residuals"@)) {
            (Some(p), Some(t), Some(e)) => if nonempty_f32_fault(p) || contract_differs(p, t) || typed_shape_fault(e, DType::F32, seq![1u64]) {
                Err(OperationErrorKind::InvalidMaterializationRequest)
            } else {
                checked_layout(
                    request,
                    false,
                    false,
                    true,
                    seq![p.id, t.id, e.id],
                    seq![(element_count(p.extents@) * 4) as u64],
                    p.extents@.len(),
                )
            },
            _ => Err(OperationErrorKind::InvalidMaterializationRequest),
        }
    }
}

/// The column means' layout, or why the request is refused.
pub open spec fn column_mean_verdict(request: MaterializationRequest) -> Result<LossLayout, OperationErrorKind> {
    if !request.abi_matches(seq!["values"], seq!["means"], seq!["tree_lanes"]) {
        Err(OperationErrorKind::InvalidMaterializationRequest)
    } else {
        match (first_named(request.inputs@, "values"@), first_named(request.outputs@, "means"@)) {
            (Some(x), Some(m)) => if matrix_fault(x) || typed_shape_fault(m, DType::F32, seq![x.extents@[1]]) {
                Err(OperationErrorKind::InvalidMaterializationRequest)
            } else {
                checked_layout(
                    request,
                    x.extents@[0] > MAX_EXACT_F32_INTEGER,
                    false,
                    true,
                    seq![x.id, m.id],
                    seq![(x.extents@[1] * 4) as u64],
                    2,
                )
            },
            _ => Err(OperationErrorKind::InvalidMaterializationRequest),
        }
    }
}

/// The column variances' layout, or why the request is refused.
pub open spec fn column_variance_verdict(request: MaterializationRequest) -> Result<LossLayout, OperationErrorKind> {
    if !request.abi_matches(seq!["values"], seq!["variances"], seq!["tree_lanes"]) {
        Err(OperationErrorKind::InvalidMaterializationRequest)
    } else {
        match (first_named(request.inputs@, "values"@), first_named(request.outputs@, "variances"@)) {
            (Some(x), Some(w)) => if matrix_fault(x) || typed_shape_fault(w, DType::F32, seq![x.extents@[1]]) {
                Err(OperationErrorKind::InvalidMaterializationRequest)
            } else {
                checked_layout(
                    request,
                    x.extents@[0] > MAX_EXACT_F32_INTEGER,
                    false,
                    true,
                    seq![x.id, w.id],
                    seq![(x.extents@[1] * 4) as u64, (element_count(x.extents@) * 4) as u64, (x.extents@[1] * 4) as u64, (x.extents@[1] * 4) as u64],
                    2,
                )
            },
            _ => Err(OperationErrorKind::InvalidMaterializationRequest),
        }
    }
}

/// The contrastive loss's layout, or why the request is refused.
pub open spec fn contrastive_verdict(request: MaterializationRequest) -> Result<LossLayout, OperationErrorKind> {
    if !request.abi_matches(seq!["left", "right", "labels"], seq!["losses"], seq!["margin", "tree_lanes"]) {
        Err(OperationErrorKind::InvalidMaterializationRequest)
    } else {
        match (first_named(request.inputs@, "left"@), first_named(request.inputs@, "right"@), first_named(request.inputs@, "labels"@), first_named(request.outputs@, "losses"@)) {
            (Some(l), Some(r), Some(y), Some(o)) => if paired_fault(l, r, y, o) {
                Err(OperationErrorKind::InvalidMaterializationRequest)
            } else {
                checked_layout(
                    request,
                    false,
                    true,
                    true,
                    seq![l.id, r.id, y.id, o.id],
                    seq![(element_count(l.extents@) * 4) as u64, (l.extents@[0] * 4) as u64],
                    2,
                )
            },
            _ => Err(OperationErrorKind::InvalidMaterializationRequest),
        }
    }
}

/// The cosine embedding loss's layout, or why the request is refused.
pub open spec fn cosine_embedding_verdict(request: MaterializationRequest) -> Result<LossLayout, OperationErrorKind> {
    if !request.abi_matches(seq!["left", "right", "labels"], seq!["losses"], seq!["margin", "tree_lanes"]) {
        Err(OperationErrorKind::InvalidMaterializationRequest)
    } else {
        match (first_named(request.inputs@, "left"@), first_named(request.inputs@, "right"@), first_named(request.inputs@, "labels"@), first_named(request.outputs@, "losses"@)) {
            (Some(l), Some(r), Some(y), Some(o)) => if paired_fault(l, r, y, o) {
                Err(OperationErrorKind::InvalidMaterializationRequest)
            } else {
                checked_layout(
                    request,
                    false,
                    true,
                    true,
                    seq![l.id, r.id, y.id, o.id],
                    seq![(element_count(l.extents@) * 4) as u64, (element_count(l.extents@) * 4) as u64, (element_count(l.extents@) * 4) as u64, (l.extents@[0] * 4) as u64, (l.extents@[0] * 4) as u64, (l.extents@[0] * 4) as u64],
                    2,
                )
            },
            _ => Err(OperationErrorKind::InvalidMaterializationRequest),
        }
    }
}

/// The triplet loss's layout, or why the request is refused.
pub open spec fn triplet_verdict(request: MaterializationRequest) -> Result<LossLayout, OperationErrorKind> {
    if !request.abi_matches(seq!["anchor", "positive", "negative"], seq!["losses"], seq!["margin", "tree_lanes"]) {
        Err(OperationErrorKind::InvalidMaterializationRequest)
    } else {
        match (first_named(request.inputs@, "anchor"@), first_named(request.inputs@, "positive"@), first_named(request.inputs@, "negative"@), first_named(request.outputs@, "losses"@)) {
            (Some(a), Some(p), Some(n), Some(o)) => if matrix_fault(a) || contract_differs(a, p) || contract_differs(a, n) || typed_shape_fault(o, DType::F32, seq![a.extents@[0]]) {
                Err(OperationErrorKind::InvalidMaterializationRequest)
            } else {
                checked_layout(
                    request,
                    false,
                    true,
                    true,
                    seq![a.id, p.id, n.id, o.id],
                    seq![(element_count(a.extents@) * 4) as u64, (element_count(a.extents@) * 4) as u64, (a.extents@[0] * 4) as u64, (a.extents@[0] * 4) as u64],
                    2,
                )
            },
            _ => Err(OperationErrorKind::InvalidMaterializationRequest),
        }
    }
}

/// An operation's layout, or why the request is refused.
pub open spec fn loss_verdict(metric: LossMetric, request: MaterializationRequest) -> Result<
    LossLayout,
    OperationErrorKind,
> {
    match metric {
        LossMetric::BinaryAccuracy => binary_accuracy_verdict(request),
        LossMetric::MulticlassCorrectCount => multiclass_correct_count_verdict(request),
        LossMetric::DenseMulticlassAccuracy => dense_multiclass_accuracy_verdict(request),
        LossMetric::HasNan => finite_metric_verdict(request, false),
        LossMetric::AllFinite => finite_metric_verdict(request, true),
        LossMetric::Hinge => hinge_verdict(request),
        LossMetric::KlDivergence => kl_divergence_verdict(request),
        LossMetric::GlobalMean => global_mean_verdict(request),
        LossMetric::MeanSquaredError => mean_squared_error_verdict(request),
        LossMetric::SumSquaredResiduals => sum_squared_residuals_verdict(request),
        LossMetric::ColumnMean => column_mean_verdict(request),
        LossMetric::ColumnVariance => column_variance_verdict(request),
        LossMetric::Contrastive => contrastive_verdict(request),
        LossMetric::CosineEmbedding => cosine_embedding_verdict(request),
        LossMetric::Triplet => triplet_verdict(request),
    }
}

/// What a materializer does with a request: a refused request is answered
/// with the refusal and leaves the emitter as it was; a checked one is
/// emitted as its layout plans.
pub open spec fn loss_outcome(
    metric: LossMetric,
    request: MaterializationRequest,
    before: StageEmitter,
    after: StageEmitter,
    result: OperationResult<()>,
) -> bool {
    match loss_verdict(metric, request) {
        Err(kind) => result matches Err(error) && error.kind == kind && after == before,
        Ok(layout) => planned_outcome(layout.sizes, layout_plan(metric, layout, before), before, after, result),
    }
}

fn loss_error(request: &MaterializationRequest, detail: &'static str) -> (error: OperationError)
    ensures
        error.kind == OperationErrorKind::InvalidMaterializationRequest,
        error.operation == Some(request.descriptor.id),
{
    OperationError::new(OperationErrorKind::InvalidMaterializationRequest, detail).for_operation(
        request.descriptor.id,
    )
}

/// The bits of the prepared `margin`, which must be a finite binary32
/// value.
fn finite_margin(request: &MaterializationRequest) -> (result: OperationResult<u32>)
    ensures
        match margin_fault(*request) {
            Some(kind) => result matches Err(error) && error.kind == kind,
            None => result is Ok,
        },
{
    match request.parameters.get("margin") {
        Some(PreparedParameter::F32Bits(bits)) => if bits & 0x7f80_0000u32 != 0x7f80_0000u32 {
            Ok(bits)
        } else {
            Err(loss_error(request, "margin must be a finite f32"))
        },
        Some(_) => Err(
            OperationError::new(
                OperationErrorKind::PreparedParameterTypeMismatch,
                "prepared parameter has the wrong type, expected F32Bits",
            ).for_operation(request.descriptor.id),
        ),
        None => Err(
            OperationError::new(
                OperationErrorKind::MissingPreparedParameter,
                "prepared parameter is required",
            ).for_operation(request.descriptor.id),
        ),
    }
}

/// Emit the binary accuracy: elementwise match flags, their fixed-tree
/// count, and the count divided by the element count.
fn emit_binary_accuracy(request: &MaterializationRequest, emitter: &mut StageEmitter) -> (result: OperationResult<()>)
    requires
        old(emitter).wf(),
    ensures
        final(emitter).wf(),
        loss_outcome(LossMetric::BinaryAccuracy, *request, *old(emitter), *final(emitter), result),
{
    let inputs: [&str; 2] = ["predictions", "targets"];
    let outputs: [&str; 1] = ["accuracy"];
    let parameters: [&str; 1] = ["tree_lanes"];
    assert(inputs@ =~= seq!["predictions", "targets"]);
    assert(outputs@ =~= seq!["accuracy"]);
    assert(parameters@ =~= seq!["tree_lanes"]);
    request.require_exact_abi(&inputs, &outputs, &parameters)?;
    let predictions = request.input("predictions")?;
    let targets = request.input("targets")?;
    let accuracy = request.output("accuracy")?;
    request.require_nonempty_f32(predictions)?;
    request.require_same_tensor_contract(predictions, targets)?;
    request.require_typed_extents(accuracy, DType::F32, one(1u64).as_slice())?;
    let count = element_total(predictions.extents.as_slice());
    request.exact_f32_extent(count)?;
    let tree_lanes = request.prepared_tree_lanes()?;
    emit_layout(
        emitter,
        LossMetric::BinaryAccuracy,
        three(predictions.id, targets.id, accuracy.id),
        two(count * 4, 4u64),
        predictions.extents.len(),
        tree_lanes,
    )
}

/// Emit the multiclass correct count: each row's predicted class, a match
/// flag against the integer target, and the fixed-tree sum of the flags.
fn emit_multiclass_correct_count(request: &MaterializationRequest, emitter: &mut StageEmitter) -> (result:
    OperationResult<()>)
    requires
        old(emitter).wf(),
    ensures
        final(emitter).wf(),
        loss_outcome(LossMetric::MulticlassCorrectCount, *request, *old(emitter), *final(emitter), result),
{
    let inputs: [&str; 2] = ["predictions", "targets"];
    let outputs: [&str; 1] = ["correct_count"];
    let parameters: [&str; 1] = ["tree_lanes"];
    assert(inputs@ =~= seq!["predictions", "targets"]);
    assert(outputs@ =~= seq!["correct_count"]);
    assert(parameters@ =~= seq!["tree_lanes"]);
    request.require_exact_abi(&inputs, &outputs, &parameters)?;
    let predictions = request.input("predictions")?;
    let targets = request.input("targets")?;
    let correct_count = request.output("correct_count")?;
    let (rows, _classes) = request.require_nonempty_f32_matrix(predictions)?;
    request.require_typed_extents(targets, DType::I32, one(rows).as_slice())?;
    request.require_typed_extents(correct_count, DType::F32, one(1u64).as_slice())?;
    request.exact_f32_extent(rows)?;
    let tree_lanes = request.prepared_tree_lanes()?;
    emit_layout(
        emitter,
        LossMetric::MulticlassCorrectCount,
        three(predictions.id, targets.id, correct_count.id),
        two(rows * 4, rows * 4),
        2,
        tree_lanes,
    )
}

/// Emit the dense multiclass accuracy: the argmax rows of predictions and
/// targets, their match flags, the fixed-tree count, and the count divided
/// by the row count.
fn emit_dense_multiclass_accuracy(request: &MaterializationRequest, emitter: &mut StageEmitter) -> (result:
    OperationResult<()>)
    requires
        old(emitter).wf(),
    ensures
        final(emitter).wf(),
        loss_outcome(LossMetric::DenseMulticlassAccuracy, *request, *old(emitter), *final(emitter), result),
{
    let inputs: [&str; 2] = ["predictions", "targets"];
    let outputs: [&str; 1] = ["accuracy"];
    let parameters: [&str; 1] = ["tree_lanes"];
    assert(inputs@ =~= seq!["predictions", "targets"]);
    assert(outputs@ =~= seq!["accuracy"]);
    assert(parameters@ =~= seq!["tree_lanes"]);
    request.require_exact_abi(&inputs, &outputs, &parameters)?;
    let predictions = request.input("predictions")?;
    let targets = request.input("targets")?;
    let accuracy = request.output("accuracy")?;
    let (rows, _classes) = request.require_nonempty_f32_matrix(predictions)?;
    request.require_same_tensor_contract(predictions, targets)?;
    request.require_typed_extents(accuracy, DType::F32, one(1u64).as_slice())?;
    request.exact_f32_extent(rows)?;
    let tree_lanes = request.prepared_tree_lanes()?;
    emit_layout(
        emitter,
        LossMetric::DenseMulticlassAccuracy,
        three(predictions.id, targets.id, accuracy.id),
        four(rows * 4, rows * 4, rows * 4, 4u64),
        2,
        tree_lanes,
    )
}

/// Emit a finiteness test: per-element flags, then whether all are finite
/// or whether any is NaN.
fn emit_finite_metric(request: &MaterializationRequest, emitter: &mut StageEmitter, all_finite: bool) -> (result:
    OperationResult<()>)
    requires
        old(emitter).wf(),
    ensures
        final(emitter).wf(),
        loss_outcome(
            if all_finite {
                LossMetric::AllFinite
            } else {
                LossMetric::HasNan
            },
            *request,
            *old(emitter),
            *final(emitter),
            result,
        ),
{
    let name = if all_finite {
        "all_finite"
    } else {
        "has_nan"
    };
    assert(name == finite_output(all_finite));
    let inputs: [&str; 1] = ["values"];
    let outputs: [&str; 1] = [name];
    let parameters: [&str; 1] = ["tree_lanes"];
    assert(inputs@ =~= seq!["values"]);
    assert(outputs@ =~= seq![name]);
    assert(parameters@ =~= seq!["tree_lanes"]);
    request.require_exact_abi(&inputs, &outputs, &parameters)?;
    let values = request.input("values")?;
    let flag = request.output(name)?;
    request.require_nonempty_f32(values)?;
    request.require_typed_extents(flag, DType::I32, one(1u64).as_slice())?;
    let tree_lanes = request.prepared_tree_lanes()?;
    let count = element_total(values.extents.as_slice());
    let metric = if all_finite {
        LossMetric::AllFinite
    } else {
        LossMetric::HasNan
    };
    emit_layout(emitter, metric, two(values.id, flag.id), one(count * 4), values.extents.len(), tree_lanes)
}

/// Emit the hinge loss and its gradient as one elementwise kernel.
fn emit_hinge_loss(request: &MaterializationRequest, emitter: &mut StageEmitter) -> (result: OperationResult<()>)
    requires
        old(emitter).wf(),
    ensures
        final(emitter).wf(),
        loss_outcome(LossMetric::Hinge, *request, *old(emitter), *final(emitter), result),
{
    let inputs: [&str; 2] = ["scores", "labels"];
    let outputs: [&str; 2] = ["losses", "gradients"];
    let parameters: [&str; 0] = [];
    assert(inputs@ =~= seq!["scores", "labels"]);
    assert(outputs@ =~= seq!["losses", "gradients"]);
    assert(parameters@ =~= Seq::<&str>::empty());
    request.require_exact_abi(&inputs, &outputs, &parameters)?;
    let scores = request.input("scores")?;
    let labels = request.input("labels")?;
    let losses = request.output("losses")?;
    let gradients = request.output("gradients")?;
    request.require_nonempty_f32(scores)?;
    request.require_same_tensor_contract(scores, labels)?;
    request.require_same_tensor_contract(scores, losses)?;
    request.require_same_tensor_contract(scores, gradients)?;
    let sizes: Vec<u64> = Vec::new();
    assert(sizes@ =~= Seq::<u64>::empty());
    emit_layout(
        emitter,
        LossMetric::Hinge,
        four(scores.id, labels.id, losses.id, gradients.id),
        sizes,
        scores.extents.len(),
        0,
    )
}

/// Emit the KL divergence loss as one stage: targets made safe for the
/// logarithm, their logarithms, and the pointwise losses.
fn emit_kl_divergence_loss(request: &MaterializationRequest, emitter: &mut StageEmitter) -> (result: OperationResult<()>)
    requires
        old(emitter).wf(),
    ensures
        final(emitter).wf(),
        loss_outcome(LossMetric::KlDivergence, *request, *old(emitter), *final(emitter), result),
{
    let inputs: [&str; 2] = ["log_probabilities", "targets"];
    let outputs: [&str; 1] = ["losses"];
    let parameters: [&str; 0] = [];
    assert(inputs@ =~= seq!["log_probabilities", "targets"]);
    assert(outputs@ =~= seq!["losses"]);
    assert(parameters@ =~= Seq::<&str>::empty());
    request.require_exact_abi(&inputs, &outputs, &parameters)?;
    let log_probabilities = request.input("log_probabilities")?;
    let targets = request.input("targets")?;
    let losses = request.output("losses")?;
    request.require_nonempty_f32(log_probabilities)?;
    request.require_same_tensor_contract(log_probabilities, targets)?;
    request.require_same_tensor_contract(log_probabilities, losses)?;
    let count = element_total(log_probabilities.extents.as_slice());
    emit_layout(
        emitter,
        LossMetric::KlDivergence,
        three(log_probabilities.id, targets.id, losses.id),
        two(count * 4, count * 4),
        log_probabilities.extents.len(),
        0,
    )
}

/// Emit the whole-tensor mean: a fixed-tree sum over every axis, then the
/// sum divided by the element count.
fn emit_global_mean(request: &MaterializationRequest, emitter: &mut StageEmitter) -> (result: OperationResult<()>)
    requires
        old(emitter).wf(),
    ensures
        final(emitter).wf(),
        loss_outcome(LossMetric::GlobalMean, *request, *old(emitter), *final(emitter), result),
{
    let inputs: [&str; 1] = ["values"];
    let outputs: [&str; 1] = ["mean"];
    let parameters: [&str; 1] = ["tree_lanes"];
    assert(inputs@ =~= seq!["values"]);
    assert(outputs@ =~= seq!["mean"]);
    assert(parameters@ =~= seq!["tree_lanes"]);
    request.require_exact_abi(&inputs, &outputs, &parameters)?;
    let values = request.input("values")?;
    let mean = request.output("mean")?;
    request.require_nonempty_f32(values)?;
    request.require_typed_extents(mean, DType::F32, one(1u64).as_slice())?;
    let count = element_total(values.extents.as_slice());
    request.exact_f32_extent(count)?;
    let tree_lanes = request.prepared_tree_lanes()?;
    emit_layout(emitter, LossMetric::GlobalMean, two(values.id, mean.id), one(4u64), values.extents.len(), tree_lanes)
}

/// Emit the mean squared error: squared residuals, their fixed-tree sum,
/// and the sum divided by the element count.
fn emit_mean_squared_error(request: &MaterializationRequest, emitter: &mut StageEmitter) -> (result: OperationResult<()>)
    requires
        old(emitter).wf(),
    ensures
        final(emitter).wf(),
        loss_outcome(LossMetric::MeanSquaredError, *request, *old(emitter), *final(emitter), result),
{
    let inputs: [&str; 2] = ["predictions", "targets"];
    let outputs: [&str; 1] = ["mean_squared_error"];
    let parameters: [&str; 1] = ["tree_lanes"];
    assert(inputs@ =~= seq!["predictions", "targets"]);
    assert(outputs@ =~= seq!["mean_squared_error"]);
    assert(parameters@ =~= seq!["tree_lanes"]);
    request.require_exact_abi(&inputs, &outputs, &parameters)?;
    let predictions = request.input("predictions")?;
    let targets = request.input("targets")?;
    let error = request.output("mean_squared_error")?;
    request.require_nonempty_f32(predictions)?;
    request.require_same_tensor_contract(predictions, targets)?;
    request.require_typed_extents(error, DType::F32, one(1u64).as_slice())?;
    let count = element_total(predictions.extents.as_slice());
    request.exact_f32_extent(count)?;
    let tree_lanes = request.prepared_tree_lanes()?;
    emit_layout(
        emitter,
        LossMetric::MeanSquaredError,
        three(predictions.id, targets.id, error.id),
        two(count * 4, 4u64),
        predictions.extents.len(),
        tree_lanes,
    )
}

/// Emit the residual sum of squares: squared residuals, then their
/// fixed-tree sum.
fn emit_sum_squared_residuals(request: &MaterializationRequest, emitter: &mut StageEmitter) -> (result:
    OperationResult<()>)
    requires
        old(emitter).wf(),
    ensures
        final(emitter).wf(),
        loss_outcome(LossMetric::SumSquaredResiduals, *request, *old(emitter), *final(emitter), result),
{
    let inputs: [&str; 2] = ["predictions", "targets"];
    let outputs: [&str; 1] = ["sum_squared_residuals"];
    let parameters: [&str; 1] = ["tree_lanes"];
    assert(inputs@ =~= seq!["predictions", "targets"]);
    assert(outputs@ =~= seq!["sum_squared_residuals"]);
    assert(parameters@ =~= seq!["tree_lanes"]);
    request.require_exact_abi(&inputs, &outputs, &parameters)?;
    let predictions = request.input("predictions")?;
    let targets = request.input("targets")?;
    let total = request.output("sum_squared_residuals")?;
    request.require_nonempty_f32(predictions)?;
    request.require_same_tensor_contract(predictions, targets)?;
    request.require_typed_extents(total, DType::F32, one(1u64).as_slice())?;
    let tree_lanes = request.prepared_tree_lanes()?;
    let count = element_total(predictions.extents.as_slice());
    emit_layout(
        emitter,
        LossMetric::SumSquaredResiduals,
        three(predictions.id, targets.id, total.id),
        one(count * 4),
        predictions.extents.len(),
        tree_lanes,
    )
}

/// Emit the column means: fixed-tree column sums, then the sums divided by
/// the row count.
fn emit_column_mean(request: &MaterializationRequest, emitter: &mut StageEmitter) -> (result: OperationResult<()>)
    requires
        old(emitter).wf(),
    ensures
        final(emitter).wf(),
        loss_outcome(LossMetric::ColumnMean, *request, *old(emitter), *final(emitter), result),
{
    let inputs: [&str; 1] = ["values"];
    let outputs: [&str; 1] = ["means"];
    let parameters: [&str; 1] = ["tree_lanes"];
    assert(inputs@ =~= seq!["values"]);
    assert(outputs@ =~= seq!["means"]);
    assert(parameters@ =~= seq!["tree_lanes"]);
    request.require_exact_abi(&inputs, &outputs, &parameters)?;
    let values = request.input("values")?;
    let means = request.output("means")?;
    let (rows, columns) = request.require_nonempty_f32_matrix(values)?;
    request.require_typed_extents(means, DType::F32, one(columns).as_slice())?;
    request.exact_f32_extent(rows)?;
    let tree_lanes = request.prepared_tree_lanes()?;
    emit_layout(emitter, LossMetric::ColumnMean, two(values.id, means.id), one(columns * 4), 2, tree_lanes)
}

/// Emit the column variances: column sums, squared deviations from the
/// column means, and one stage that sums them with the axis kept,
/// normalizes, and folds the kept axis.
fn emit_column_variance(request: &MaterializationRequest, emitter: &mut StageEmitter) -> (result: OperationResult<()>)
    requires
        old(emitter).wf(),
    ensures
        final(emitter).wf(),
        loss_outcome(LossMetric::ColumnVariance, *request, *old(emitter), *final(emitter), result),
{
    let inputs: [&str; 1] = ["values"];
    let outputs: [&str; 1] = ["variances"];
    let parameters: [&str; 1] = ["tree_lanes"];
    assert(inputs@ =~= seq!["values"]);
    assert(outputs@ =~= seq!["variances"]);
    assert(parameters@ =~= seq!["tree_lanes"]);
    request.require_exact_abi(&inputs, &outputs, &parameters)?;
    let values = request.input("values")?;
    let variances = request.output("variances")?;
    let (rows, columns) = request.require_nonempty_f32_matrix(values)?;
    request.require_typed_extents(variances, DType::F32, one(columns).as_slice())?;
    request.exact_f32_extent(rows)?;
    let tree_lanes = request.prepared_tree_lanes()?;
    let count = element_total(values.extents.as_slice());
    emit_layout(
        emitter,
        LossMetric::ColumnVariance,
        two(values.id, variances.id),
        four(columns * 4, count * 4, columns * 4, columns * 4),
        2,
        tree_lanes,
    )
}

/// Emit the contrastive loss: squared differences, per-row squared
/// distances, and the per-example losses against the labels.
fn emit_contrastive_loss(request: &MaterializationRequest, emitter: &mut StageEmitter) -> (result: OperationResult<()>)
    requires
        old(emitter).wf(),
    ensures
        final(emitter).wf(),
        loss_outcome(LossMetric::Contrastive, *request, *old(emitter), *final(emitter), result),
{
    let inputs: [&str; 3] = ["left", "right", "labels"];
    let outputs: [&str; 1] = ["losses"];
    let parameters: [&str; 2] = ["margin", "tree_lanes"];
    assert(inputs@ =~= seq!["left", "right", "labels"]);
    assert(outputs@ =~= seq!["losses"]);
    assert(parameters@ =~= seq!["margin", "tree_lanes"]);
    request.require_exact_abi(&inputs, &outputs, &parameters)?;
    let left = request.input("left")?;
    let right = request.input("right")?;
    let labels = request.input("labels")?;
    let losses = request.output("losses")?;
    let (rows, _columns) = request.require_paired_loss_tensors(left, right, labels, losses)?;
    let _margin = finite_margin(request)?;
    let tree_lanes = request.prepared_tree_lanes()?;
    let count = element_total(left.extents.as_slice());
    emit_layout(
        emitter,
        LossMetric::Contrastive,
        four(left.id, right.id, labels.id, losses.id),
        two(count * 4, rows * 4),
        2,
        tree_lanes,
    )
}

/// Emit the cosine embedding loss: product and squared-norm terms, their
/// row sums, and the per-example losses against the labels.
fn emit_cosine_embedding_loss(request: &MaterializationRequest, emitter: &mut StageEmitter) -> (result:
    OperationResult<()>)
    requires
        old(emitter).wf(),
    ensures
        final(emitter).wf(),
        loss_outcome(LossMetric::CosineEmbedding, *request, *old(emitter), *final(emitter), result),
{
    let inputs: [&str; 3] = ["left", "right", "labels"];
    let outputs: [&str; 1] = ["losses"];
    let parameters: [&str; 2] = ["margin", "tree_lanes"];
    assert(inputs@ =~= seq!["left", "right", "labels"]);
    assert(outputs@ =~= seq!["losses"]);
    assert(parameters@ =~= seq!["margin", "tree_lanes"]);
    request.require_exact_abi(&inputs, &outputs, &parameters)?;
    let left = request.input("left")?;
    let right = request.input("right")?;
    let labels = request.input("labels")?;
    let losses = request.output("losses")?;
    let (rows, _columns) = request.require_paired_loss_tensors(left, right, labels, losses)?;
    let _margin = finite_margin(request)?;
    let tree_lanes = request.prepared_tree_lanes()?;
    let count = element_total(left.extents.as_slice());
    emit_layout(
        emitter,
        LossMetric::CosineEmbedding,
        four(left.id, right.id, labels.id, losses.id),
        six(count * 4, count * 4, count * 4, rows * 4, rows * 4, rows * 4),
        2,
        tree_lanes,
    )
}

/// Emit the triplet loss: positive and negative distance terms, their row
/// sums, and the per-example losses.
fn emit_triplet_loss(request: &MaterializationRequest, emitter: &mut StageEmitter) -> (result: OperationResult<()>)
    requires
        old(emitter).wf(),
    ensures
        final(emitter).wf(),
        loss_outcome(LossMetric::Triplet, *request, *old(emitter), *final(emitter), result),
{
    let inputs: [&str; 3] = ["anchor", "positive", "negative"];
    let outputs: [&str; 1] = ["losses"];
    let parameters: [&str; 2] = ["margin", "tree_lanes"];
    assert(inputs@ =~= seq!["anchor", "positive", "negative"]);
    assert(outputs@ =~= seq!["losses"]);
    assert(parameters@ =~= seq!["margin", "tree_lanes"]);
    request.require_exact_abi(&inputs, &outputs, &parameters)?;
    let anchor = request.input("anchor")?;
    let positive = request.input("positive")?;
    let negative = request.input("negative")?;
    let losses = request.output("losses")?;
    let (rows, _columns) = request.require_nonempty_f32_matrix(anchor)?;
    request.require_same_tensor_contract(anchor, positive)?;
    request.require_same_tensor_contract(anchor, negative)?;
    request.require_typed_extents(losses, DType::F32, one(rows).as_slice())?;
    let _margin = finite_margin(request)?;
    let tree_lanes = request.prepared_tree_lanes()?;
    let count = element_total(anchor.extents.as_slice());
    emit_layout(
        emitter,
        LossMetric::Triplet,
        four(anchor.id, positive.id, negative.id, losses.id),
        four(count * 4, count * 4, rows * 4, rows * 4),
        2,
        tree_lanes,
    )
}

/// The operation a loss-owned symbol names; the one symbol the chain does
/// not list, `gpu_triplet_loss`, names the triplet loss.
pub open spec fn loss_metric_of(symbol: Seq<char>) -> LossMetric {
    if symbol == "gpu_accuracy"@ {
        LossMetric::MulticlassCorrectCount
    } else if symbol == "gpu_accuracy_into"@ {
        LossMetric::BinaryAccuracy
    } else if symbol == "gpu_argmax_accuracy_into"@ {
        LossMetric::DenseMulticlassAccuracy
    } else if symbol == "gpu_contrastive_loss"@ {
        LossMetric::Contrastive
    } else if symbol == "gpu_cosine_embedding_loss"@ {
        LossMetric::CosineEmbedding
    } else if symbol == "gpu_has_nan"@ {
        LossMetric::HasNan
    } else if symbol == "gpu_hinge_loss"@ {
        LossMetric::Hinge
    } else if symbol == "gpu_isfinite_all"@ {
        LossMetric::AllFinite
    } else if symbol == "gpu_kl_div_loss"@ {
        LossMetric::KlDivergence
    } else if symbol == "gpu_mean_all"@ {
        LossMetric::GlobalMean
    } else if symbol == "gpu_mse_into"@ {
        LossMetric::MeanSquaredError
    } else if symbol == "gpu_reduce_mean_cols"@ {
        LossMetric::ColumnMean
    } else if symbol == "gpu_reduce_var_cols"@ {
        LossMetric::ColumnVariance
    } else if symbol == "gpu_ss_res_into"@ {
        LossMetric::SumSquaredResiduals
    } else {
        LossMetric::Triplet
    }
}

/// Hand a request to the loss or metric materializer of its symbol when
/// the loss family owns its source-qualified row.
pub fn dispatch(request: &MaterializationRequest, emitter: &mut StageEmitter) -> (dispatched: FamilyDispatch)
    requires
        old(emitter).wf(),
    ensures
        final(emitter).wf(),
        !loss_metric_rows().contains((request.descriptor.symbol@, request.descriptor.source@)) ==> (
        dispatched is NotOwned && *final(emitter) == *old(emitter)),
        loss_metric_rows().contains((request.descriptor.symbol@, request.descriptor.source@)) ==> (
        dispatched matches FamilyDispatch::Owned(result) && loss_outcome(
            loss_metric_of(request.descriptor.symbol@),
            *request,
            *old(emitter),
            *final(emitter),
            result,
        )),
{
    if !loss_metric_supports(&request.descriptor) {
        return FamilyDispatch::NotOwned;
    }
    let symbol = request.descriptor.symbol;
    let result = if text_eq(symbol, "gpu_accuracy") {
        emit_multiclass_correct_count(request, emitter)
    } else if text_eq(symbol, "gpu_accuracy_into") {
        emit_binary_accuracy(request, emitter)
    } else if text_eq(symbol, "gpu_argmax_accuracy_into") {
        emit_dense_multiclass_accuracy(request, emitter)
    } else if text_eq(symbol, "gpu_contrastive_loss") {
        emit_contrastive_loss(request, emitter)
    } else if text_eq(symbol, "gpu_cosine_embedding_loss") {
        emit_cosine_embedding_loss(request, emitter)
    } else if text_eq(symbol, "gpu_has_nan") {
        emit_finite_metric(request, emitter, false)
    } else if text_eq(symbol, "gpu_hinge_loss") {
        emit_hinge_loss(request, emitter)
    } else if text_eq(symbol, "gpu_isfinite_all") {
        emit_finite_metric(request, emitter, true)
    } else if text_eq(symbol, "gpu_kl_div_loss") {
        emit_kl_divergence_loss(request, emitter)
    } else if text_eq(symbol, "gpu_mean_all") {
        emit_global_mean(request, emitter)
    } else if text_eq(symbol, "gpu_mse_into") {
        emit_mean_squared_error(request, emitter)
    } else if text_eq(symbol, "gpu_reduce_mean_cols") {
        emit_column_mean(request, emitter)
    } else if text_eq(symbol, "gpu_reduce_var_cols") {
        emit_column_variance(request, emitter)
    } else if text_eq(symbol, "gpu_ss_res_into") {
        emit_sum_squared_residuals(request, emitter)
    } else {
        emit_triplet_loss(request, emitter)
    };
    FamilyDispatch::Owned(result)
}

} // verus!
