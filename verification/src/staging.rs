//! Emission of planned kernel stages: fresh intermediates drawn in order,
//! kernels requested stage by stage, and what a finished emission holds of
//! the emitter it started from.
use vstd::prelude::*;

use crate::error::OperationResult;
use crate::fragment::{
    KernelEmission, KindModel, NodeModel, StageEmitter, emission_model, plan_bounded, plan_emitted, plan_kernels,
    plan_room, plan_view, stage_view, total_bytes,
};
use crate::primitive::{
    ContractionSpec, GatherSpec, HistogramSpec, IndexMapSpec, PrimitiveKind, ReduceOperator, ReduceResult, ReduceSpec,
    ScanSpec, ScatterSpec, SortSpec,
};
use crate::types::ValueId;

verus! {

/// An elementwise kernel.
pub open spec fn elementwise_node(inputs: Seq<ValueId>, outputs: Seq<ValueId>) -> NodeModel {
    NodeModel { inputs, outputs, kind: KindModel::Elementwise }
}

/// A reduction kernel from one tensor to one tensor.
pub open spec fn reduce_node(
    input: ValueId,
    output: ValueId,
    operator: ReduceOperator,
    result: ReduceResult,
    axes: Seq<usize>,
    keep_dimensions: bool,
    tree_lanes: u32,
) -> NodeModel {
    NodeModel {
        inputs: seq![input],
        outputs: seq![output],
        kind: KindModel::Reduce { operator, result, axes, keep_dimensions, tree_lanes },
    }
}

/// A fixed-tree sum over `axes`.
pub open spec fn sum_node(input: ValueId, output: ValueId, axes: Seq<usize>, keep_dimensions: bool, tree_lanes: u32) -> NodeModel {
    reduce_node(input, output, ReduceOperator::Sum, ReduceResult::Value, axes, keep_dimensions, tree_lanes)
}

/// A contraction of two tensors into one over a single axis pair, with no
/// batch axes.
pub open spec fn contraction_node(inputs: Seq<ValueId>, output: ValueId, pair: (usize, usize)) -> NodeModel {
    NodeModel {
        inputs,
        outputs: seq![output],
        kind: KindModel::Contraction { batch_axes: Seq::empty(), contract_axes: seq![pair] },
    }
}

/// An index map that writes one tensor from no input.
pub open spec fn index_map_node(output: ValueId, spec: IndexMapSpec) -> NodeModel {
    NodeModel { inputs: Seq::empty(), outputs: seq![output], kind: KindModel::IndexMap(spec) }
}

/// A gather of `source` at `indices` into `output`.
pub open spec fn gather_node(source: ValueId, indices: ValueId, output: ValueId, spec: GatherSpec) -> NodeModel {
    NodeModel { inputs: seq![source, indices], outputs: seq![output], kind: KindModel::Gather(spec) }
}

/// A scan of one tensor into one tensor.
pub open spec fn scan_node(input: ValueId, output: ValueId, spec: ScanSpec) -> NodeModel {
    NodeModel { inputs: seq![input], outputs: seq![output], kind: KindModel::Scan(spec) }
}

/// A sort of one tensor into its sorted values and their source indices.
pub open spec fn sort_node(input: ValueId, values: ValueId, indices: ValueId, spec: SortSpec) -> NodeModel {
    NodeModel { inputs: seq![input], outputs: seq![values, indices], kind: KindModel::Sort(spec) }
}

/// A histogram of bin indices, weighted by a second input when one is
/// given.
pub open spec fn histogram_node(inputs: Seq<ValueId>, output: ValueId, spec: HistogramSpec) -> NodeModel {
    NodeModel { inputs, outputs: seq![output], kind: KindModel::Histogram(spec) }
}

/// A scatter of `updates` at `indices` over a copy of `base` into `output`.
pub open spec fn scatter_node(base: ValueId, indices: ValueId, updates: ValueId, output: ValueId, spec: ScatterSpec) -> NodeModel {
    NodeModel { inputs: seq![base, indices, updates], outputs: seq![output], kind: KindModel::Scatter(spec) }
}

/// Every axis of a tensor of rank `rank`, in order.
pub open spec fn every_axis(rank: nat) -> Seq<usize> {
    Seq::new(rank, |axis: int| axis as usize)
}

/// The `count` value identities the emitter hands out next, in order.
pub open spec fn fresh_values(emitter: StageEmitter, count: nat) -> Seq<ValueId> {
    Seq::new(
        count,
        |k: int|
            ValueId(
                (emitter.ledger().namespace().first_value.0 + emitter.ledger().intermediates().len() + k) as u64,
            ),
    )
}

/// The emitter's namespace and workspace can take intermediates of the
/// given sizes.
pub open spec fn values_room(emitter: StageEmitter, sizes: Seq<u64>) -> bool {
    &&& emitter.ledger().intermediates().len() + sizes.len() <= emitter.ledger().namespace().value_capacity
    &&& emitter.ledger().workspace() + total_bytes(sizes) <= emitter.ledger().limit()
}

/// Sizes taken one more at a time add up.
pub proof fn lemma_total_bytes_step(sizes: Seq<u64>, count: int)
    requires
        0 <= count < sizes.len(),
    ensures
        total_bytes(sizes.subrange(0, count + 1)) == total_bytes(sizes.subrange(0, count)) + sizes[count],
{
    assert(sizes.subrange(0, count + 1).drop_last() =~= sizes.subrange(0, count));
}

/// A prefix of the sizes takes no more bytes than all of them.
pub proof fn lemma_total_bytes_prefix(sizes: Seq<u64>, count: int)
    requires
        0 <= count <= sizes.len(),
    ensures
        total_bytes(sizes.subrange(0, count)) <= total_bytes(sizes),
    decreases sizes.len() - count,
{
    if count < sizes.len() {
        lemma_total_bytes_step(sizes, count);
        lemma_total_bytes_prefix(sizes, count + 1);
    } else {
        assert(sizes.subrange(0, count) =~= sizes);
    }
}

/// Allocate intermediates of the given sizes, in order.
pub(crate) fn reserve_values(emitter: &mut StageEmitter, sizes: &Vec<u64>) -> (result: OperationResult<Vec<ValueId>>)
    requires
        old(emitter).wf(),
    ensures
        final(emitter).wf(),
        final(emitter).stages() == old(emitter).stages(),
        final(emitter).nodes() == old(emitter).nodes(),
        final(emitter).families() == old(emitter).families(),
        final(emitter).ledger().namespace() == old(emitter).ledger().namespace(),
        final(emitter).ledger().kernels() == old(emitter).ledger().kernels(),
        final(emitter).ledger().limit() == old(emitter).ledger().limit(),
        result is Ok <==> values_room(*old(emitter), sizes@),
        result matches Ok(values) ==> {
            &&& values@ == fresh_values(*old(emitter), sizes@.len())
            &&& final(emitter).ledger().intermediates() == old(emitter).ledger().intermediates() + values@
            &&& final(emitter).ledger().workspace() == old(emitter).ledger().workspace() + total_bytes(sizes@)
        },
{
    let ghost start = *emitter;
    let mut values: Vec<ValueId> = Vec::new();
    let mut index: usize = 0;
    proof {
        start.lemma_ledger_wf();
        start.ledger().lemma_within_reservation();
        assert(sizes@.subrange(0, 0) =~= Seq::<u64>::empty());
        assert(values@ =~= fresh_values(start, 0));
        assert(start.ledger().intermediates() + values@ =~= start.ledger().intermediates());
    }
    while index < sizes.len()
        invariant
            index <= sizes@.len(),
            start == *old(emitter),
            emitter.wf(),
            emitter.stages() == start.stages(),
            emitter.nodes() == start.nodes(),
            emitter.families() == start.families(),
            emitter.ledger().namespace() == start.ledger().namespace(),
            emitter.ledger().kernels() == start.ledger().kernels(),
            emitter.ledger().limit() == start.ledger().limit(),
            values@ == fresh_values(start, index as nat),
            emitter.ledger().intermediates() == start.ledger().intermediates() + values@,
            emitter.ledger().workspace() == start.ledger().workspace() + total_bytes(
                sizes@.subrange(0, index as int),
            ),
            start.ledger().intermediates().len() + index <= start.ledger().namespace().value_capacity,
        decreases sizes.len() - index,
    {
        proof {
            lemma_total_bytes_step(sizes@, index as int);
        }
        let ghost before = *emitter;
        match emitter.intermediate(sizes[index]) {
            Ok(value) => {
                values.push(value);
            },
            Err(error) => {
                proof {
                    lemma_total_bytes_prefix(sizes@, index + 1);
                }
                return Err(error);
            },
        }
        proof {
            assert(values@ =~= fresh_values(start, (index + 1) as nat));
            assert(emitter.ledger().intermediates() =~= start.ledger().intermediates() + values@);
        }
        index = index + 1;
    }
    proof {
        assert(sizes@.subrange(0, index as int) =~= sizes@);
        emitter.lemma_ledger_wf();
        emitter.ledger().lemma_within_reservation();
    }
    Ok(values)
}

/// A list of one value.
pub(crate) fn one<T>(a: T) -> (values: Vec<T>)
    ensures
        values@ == seq![a],
{
    let values = vec![a];
    assert(values@ =~= seq![a]);
    values
}

/// A list of two values.
pub(crate) fn two<T>(a: T, b: T) -> (values: Vec<T>)
    ensures
        values@ == seq![a, b],
{
    let values = vec![a, b];
    assert(values@ =~= seq![a, b]);
    values
}

/// A list of three values.
pub(crate) fn three<T>(a: T, b: T, c: T) -> (values: Vec<T>)
    ensures
        values@ == seq![a, b, c],
{
    let values = vec![a, b, c];
    assert(values@ =~= seq![a, b, c]);
    values
}

/// A list of four values.
pub(crate) fn four<T>(a: T, b: T, c: T, d: T) -> (values: Vec<T>)
    ensures
        values@ == seq![a, b, c, d],
{
    let values = vec![a, b, c, d];
    assert(values@ =~= seq![a, b, c, d]);
    values
}

/// A list of five values.
pub(crate) fn five<T>(a: T, b: T, c: T, d: T, e: T) -> (values: Vec<T>)
    ensures
        values@ == seq![a, b, c, d, e],
{
    let values = vec![a, b, c, d, e];
    assert(values@ =~= seq![a, b, c, d, e]);
    values
}

/// A list of seven values.
pub(crate) fn seven<T>(a: T, b: T, c: T, d: T, e: T, f: T, g: T) -> (values: Vec<T>)
    ensures
        values@ == seq![a, b, c, d, e, f, g],
{
    let values = vec![a, b, c, d, e, f, g];
    assert(values@ =~= seq![a, b, c, d, e, f, g]);
    values
}

/// A list of six values.
pub(crate) fn six<T>(a: T, b: T, c: T, d: T, e: T, f: T) -> (values: Vec<T>)
    ensures
        values@ == seq![a, b, c, d, e, f],
{
    let values = vec![a, b, c, d, e, f];
    assert(values@ =~= seq![a, b, c, d, e, f]);
    values
}

/// Every axis of a tensor of rank `rank`, in order.
pub(crate) fn every_axis_list(rank: usize) -> (axes: Vec<usize>)
    ensures
        axes@ == every_axis(rank as nat),
{
    let mut axes: Vec<usize> = Vec::new();
    let mut axis: usize = 0;
    while axis < rank
        invariant
            axis <= rank,
            axes@ == every_axis(axis as nat),
        decreases rank - axis,
    {
        axes.push(axis);
        axis = axis + 1;
        assert(axes@ =~= every_axis(axis as nat));
    }
    axes
}

/// An elementwise kernel request.
pub(crate) fn elementwise(inputs: Vec<ValueId>, outputs: Vec<ValueId>) -> (emission: KernelEmission)
    ensures
        emission_model(emission) == elementwise_node(inputs@, outputs@),
{
    KernelEmission { inputs, outputs, kind: PrimitiveKind::Elementwise }
}

/// A one-to-one reduction kernel request.
pub(crate) fn reduction(
    input: ValueId,
    output: ValueId,
    operator: ReduceOperator,
    result: ReduceResult,
    axes: Vec<usize>,
    keep_dimensions: bool,
    tree_lanes: u32,
) -> (emission: KernelEmission)
    ensures
        emission_model(emission) == reduce_node(input, output, operator, result, axes@, keep_dimensions, tree_lanes),
{
    let inputs = one(input);
    let outputs = one(output);
    KernelEmission {
        inputs,
        outputs,
        kind: PrimitiveKind::Reduce(ReduceSpec { operator, result, axes, keep_dimensions, tree_lanes }),
    }
}

/// A fixed-tree sum request over `axes`.
pub(crate) fn sum(input: ValueId, output: ValueId, axes: Vec<usize>, keep_dimensions: bool, tree_lanes: u32) -> (emission:
    KernelEmission)
    ensures
        emission_model(emission) == sum_node(input, output, axes@, keep_dimensions, tree_lanes),
{
    reduction(input, output, ReduceOperator::Sum, ReduceResult::Value, axes, keep_dimensions, tree_lanes)
}

/// A contraction request of `left` and `right` over one axis pair.
pub(crate) fn contraction(left: ValueId, right: ValueId, output: ValueId, pair: (usize, usize)) -> (emission:
    KernelEmission)
    ensures
        emission_model(emission) == contraction_node(seq![left, right], output, pair),
{
    let mut contract_axes: Vec<(usize, usize)> = Vec::new();
    contract_axes.push(pair);
    assert(contract_axes@ =~= seq![pair]);
    let batch_axes: Vec<(usize, usize)> = Vec::new();
    assert(batch_axes@ =~= Seq::<(usize, usize)>::empty());
    KernelEmission {
        inputs: two(left, right),
        outputs: one(output),
        kind: PrimitiveKind::Contraction(ContractionSpec { batch_axes, contract_axes }),
    }
}

/// An index-map request.
pub(crate) fn index_map(output: ValueId, spec: IndexMapSpec) -> (emission: KernelEmission)
    ensures
        emission_model(emission) == index_map_node(output, spec),
{
    let inputs: Vec<ValueId> = Vec::new();
    assert(inputs@ =~= Seq::<ValueId>::empty());
    KernelEmission { inputs, outputs: one(output), kind: PrimitiveKind::IndexMap(spec) }
}

/// A gather request.
pub(crate) fn gather(source: ValueId, indices: ValueId, output: ValueId, spec: GatherSpec) -> (emission:
    KernelEmission)
    ensures
        emission_model(emission) == gather_node(source, indices, output, spec),
{
    KernelEmission { inputs: two(source, indices), outputs: one(output), kind: PrimitiveKind::Gather(spec) }
}

/// A scan request.
pub(crate) fn scan(input: ValueId, output: ValueId, spec: ScanSpec) -> (emission: KernelEmission)
    ensures
        emission_model(emission) == scan_node(input, output, spec),
{
    KernelEmission { inputs: one(input), outputs: one(output), kind: PrimitiveKind::Scan(spec) }
}

/// A sort request.
pub(crate) fn sort(input: ValueId, values: ValueId, indices: ValueId, spec: SortSpec) -> (emission: KernelEmission)
    ensures
        emission_model(emission) == sort_node(input, values, indices, spec),
{
    KernelEmission { inputs: one(input), outputs: two(values, indices), kind: PrimitiveKind::Sort(spec) }
}

/// A histogram request.
pub(crate) fn histogram(inputs: Vec<ValueId>, output: ValueId, spec: HistogramSpec) -> (emission: KernelEmission)
    ensures
        emission_model(emission) == histogram_node(inputs@, output, spec),
{
    KernelEmission { inputs, outputs: one(output), kind: PrimitiveKind::Histogram(spec) }
}

/// A scatter request.
pub(crate) fn scatter(base: ValueId, indices: ValueId, updates: ValueId, output: ValueId, spec: ScatterSpec) -> (emission:
    KernelEmission)
    ensures
        emission_model(emission) == scatter_node(base, indices, updates, output, spec),
{
    KernelEmission { inputs: three(base, indices, updates), outputs: one(output), kind: PrimitiveKind::Scatter(spec) }
}

/// The single axis `axis`.
pub(crate) fn axis_list(axis: usize) -> (axes: Vec<usize>)
    ensures
        axes@ == seq![axis],
{
    let axes = vec![axis];
    assert(axes@ =~= seq![axis]);
    axes
}

/// A stage of one kernel.
pub(crate) fn stage_of(emission: KernelEmission) -> (stage: Vec<KernelEmission>)
    ensures
        stage_view(stage) == seq![emission_model(emission)],
{
    let mut stage: Vec<KernelEmission> = Vec::new();
    stage.push(emission);
    assert(stage_view(stage) =~= seq![emission_model(stage@[0])]);
    stage
}

/// What emitting intermediates of `sizes` and then the stages `plan` over
/// them does: it succeeds exactly when all of them fit, and then the
/// emitter holds the fresh intermediates and the planned kernels.
pub open spec fn planned_outcome(
    sizes: Seq<u64>,
    plan: Seq<Seq<NodeModel>>,
    before: StageEmitter,
    after: StageEmitter,
    result: OperationResult<()>,
) -> bool {
    &&& after.families() == before.families()
    &&& (result is Ok <==> values_room(before, sizes) && plan_room(before, plan))
    &&& (result is Ok ==> {
        &&& plan_emitted(before, after, plan)
        &&& after.ledger().intermediates() == before.ledger().intermediates() + fresh_values(before, sizes.len())
        &&& after.ledger().workspace() == before.ledger().workspace() + total_bytes(sizes)
    })
}

/// Sizes taken together add up.
pub proof fn lemma_total_bytes_concat(first: Seq<u64>, second: Seq<u64>)
    ensures
        total_bytes(first + second) == total_bytes(first) + total_bytes(second),
    decreases second.len(),
{
    if second.len() > 0 {
        lemma_total_bytes_concat(first, second.drop_last());
        assert((first + second).drop_last() =~= first + second.drop_last());
    } else {
        assert(first + second =~= first);
    }
}

/// The kernels of stages taken together are the kernels of each part, in
/// order.
pub proof fn lemma_plan_kernels_concat(first: Seq<Seq<NodeModel>>, second: Seq<Seq<NodeModel>>)
    ensures
        plan_kernels(first + second) == plan_kernels(first) + plan_kernels(second),
    decreases second.len(),
{
    if second.len() > 0 {
        lemma_plan_kernels_concat(first, second.drop_last());
        assert((first + second).drop_last() =~= first + second.drop_last());
        assert(plan_kernels(first + second) =~= plan_kernels(first) + plan_kernels(second));
    } else {
        assert(first + second =~= first);
        assert(plan_kernels(first) + plan_kernels(second) =~= plan_kernels(first));
    }
}

/// `after` extends `before` by the fresh intermediates of `sizes` and the
/// kernels of `plan`, all of which fit.
pub open spec fn staged(before: StageEmitter, after: StageEmitter, sizes: Seq<u64>, plan: Seq<Seq<NodeModel>>) -> bool {
    &&& after.wf()
    &&& after.families() == before.families()
    &&& after.ledger().namespace() == before.ledger().namespace()
    &&& after.ledger().limit() == before.ledger().limit()
    &&& values_room(before, sizes)
    &&& plan_room(before, plan)
    &&& after.ledger().intermediates() == before.ledger().intermediates() + fresh_values(before, sizes.len())
    &&& after.ledger().workspace() == before.ledger().workspace() + total_bytes(sizes)
    &&& plan_emitted(before, after, plan)
    &&& after.ledger().kernels().len() == before.ledger().kernels().len() + plan_kernels(plan).len()
}

/// A well-formed emitter has staged nothing yet.
pub proof fn lemma_staged_start(emitter: StageEmitter)
    requires
        emitter.wf(),
    ensures
        staged(emitter, emitter, Seq::empty(), Seq::empty()),
{
    emitter.lemma_ledger_wf();
    emitter.ledger().lemma_within_reservation();
    emitter.lemma_within_steps();
    assert(fresh_values(emitter, 0) =~= Seq::<ValueId>::empty());
    assert(emitter.ledger().intermediates() + fresh_values(emitter, 0) =~= emitter.ledger().intermediates());
    assert(emitter.nodes().subrange(0, emitter.nodes().len() as int) =~= emitter.nodes());
    assert(plan_kernels(Seq::<Seq<NodeModel>>::empty()) =~= Seq::<NodeModel>::empty());
}

/// Room for a sequence of sizes leaves room for each of its prefixes.
pub proof fn lemma_values_room_prefix(emitter: StageEmitter, sizes: Seq<u64>, count: int)
    requires
        0 <= count <= sizes.len(),
        values_room(emitter, sizes),
    ensures
        values_room(emitter, sizes.subrange(0, count)),
{
    lemma_total_bytes_prefix(sizes, count);
}

/// Room for a sequence of stages leaves room for each of its prefixes.
pub proof fn lemma_plan_room_prefix(emitter: StageEmitter, plan: Seq<Seq<NodeModel>>, count: int)
    requires
        0 <= count <= plan.len(),
        plan_room(emitter, plan),
    ensures
        plan_room(emitter, plan.subrange(0, count)),
{
    crate::fragment::lemma_plan_prefix(plan, count);
    let prefix = plan.subrange(0, count);
    assert forall|i: int| 0 <= i < prefix.len() implies (#[trigger] prefix[i]).len() > 0
        && emitter.families()[emitter.stages().len() + i] == crate::fragment::model_family(prefix[i].last().kind) by {
        assert(prefix[i] == plan[i]);
    }
}

/// Allocate the next intermediates of an emission staged from `base`
/// toward the goal `goal_sizes` and `goal_plan`.
pub(crate) fn stage_values(
    emitter: &mut StageEmitter,
    Ghost(base): Ghost<StageEmitter>,
    Ghost(goal_sizes): Ghost<Seq<u64>>,
    Ghost(goal_plan): Ghost<Seq<Seq<NodeModel>>>,
    Ghost(done_sizes): Ghost<Seq<u64>>,
    Ghost(done_plan): Ghost<Seq<Seq<NodeModel>>>,
    sizes: &Vec<u64>,
) -> (result: OperationResult<Vec<ValueId>>)
    requires
        staged(base, *old(emitter), done_sizes, done_plan),
        done_sizes.len() + sizes@.len() <= goal_sizes.len(),
        goal_sizes.subrange(0, (done_sizes.len() + sizes@.len()) as int) == done_sizes + sizes@,
        done_plan.len() <= goal_plan.len(),
        goal_plan.subrange(0, done_plan.len() as int) == done_plan,
    ensures
        final(emitter).wf(),
        final(emitter).families() == base.families(),
        result matches Ok(values) ==> staged(base, *final(emitter), done_sizes + sizes@, done_plan)
            && values@ == fresh_values(base, done_sizes.len() + sizes@.len()).subrange(
            done_sizes.len() as int,
            (done_sizes.len() + sizes@.len()) as int,
        ),
        result is Err ==> !(values_room(base, goal_sizes) && plan_room(base, goal_plan)),
{
    let ghost current = *emitter;
    let result = reserve_values(emitter, sizes);
    proof {
        lemma_total_bytes_concat(done_sizes, sizes@);
        let reached = done_sizes + sizes@;
        if result is Ok {
            {
                let all = fresh_values(base, reached.len());
                assert(fresh_values(current, sizes@.len()) =~= all.subrange(
                    done_sizes.len() as int,
                    reached.len() as int,
                ));
                assert(fresh_values(base, done_sizes.len()) + fresh_values(current, sizes@.len()) =~= all);
                assert(emitter.ledger().intermediates() =~= base.ledger().intermediates() + all);
                assert(emitter.nodes() == current.nodes());
            }
        } else {
            if values_room(base, goal_sizes) {
                lemma_values_room_prefix(base, goal_sizes, reached.len() as int);
            }
        }
    }
    result
}

/// Emit the next stages of an emission staged from `base` toward the goal
/// `goal_sizes` and `goal_plan`.
pub(crate) fn stage_kernels(
    emitter: &mut StageEmitter,
    Ghost(base): Ghost<StageEmitter>,
    Ghost(goal_sizes): Ghost<Seq<u64>>,
    Ghost(goal_plan): Ghost<Seq<Seq<NodeModel>>>,
    Ghost(done_sizes): Ghost<Seq<u64>>,
    Ghost(done_plan): Ghost<Seq<Seq<NodeModel>>>,
    stages: Vec<Vec<KernelEmission>>,
) -> (result: OperationResult<()>)
    requires
        staged(base, *old(emitter), done_sizes, done_plan),
        plan_bounded(plan_view(stages@)),
        done_sizes.len() <= goal_sizes.len(),
        goal_sizes.subrange(0, done_sizes.len() as int) == done_sizes,
        done_plan.len() + stages@.len() <= goal_plan.len(),
        goal_plan.subrange(0, (done_plan.len() + stages@.len()) as int) == done_plan + plan_view(stages@),
    ensures
        final(emitter).wf(),
        final(emitter).families() == base.families(),
        result is Ok ==> staged(base, *final(emitter), done_sizes, done_plan + plan_view(stages@)),
        result is Err ==> !(values_room(base, goal_sizes) && plan_room(base, goal_plan)),
{
    let ghost current = *emitter;
    let ghost added = plan_view(stages@);
    let ghost reached = done_plan + added;
    let result = emitter.emit_plan(stages);
    proof {
        lemma_plan_kernels_concat(done_plan, added);
        let done_kernels = plan_kernels(done_plan);
        let added_kernels = plan_kernels(added);
        assert(plan_room(base, reached) == plan_room(current, added)) by {
            assert forall|i: int| 0 <= i < reached.len() implies #[trigger] reached[i] == if i < done_plan.len() {
                done_plan[i]
            } else {
                added[i - done_plan.len()]
            } by {}
            if plan_room(current, added) {
                assert forall|i: int| 0 <= i < reached.len() implies (#[trigger] reached[i]).len() > 0
                    && base.families()[base.stages().len() + i] == crate::fragment::model_family(
                    reached[i].last().kind,
                ) by {
                    if i >= done_plan.len() {
                        assert(reached[i] == added[i - done_plan.len()]);
                    }
                }
            }
            if plan_room(base, reached) {
                assert forall|i: int| 0 <= i < added.len() implies (#[trigger] added[i]).len() > 0
                    && current.families()[current.stages().len() + i] == crate::fragment::model_family(
                    added[i].last().kind,
                ) by {
                    assert(reached[done_plan.len() + i] == added[i]);
                }
            }
        }
        if result is Ok {
            let first = base.nodes().len();
            let middle = current.nodes().len();
            assert(emitter.nodes().subrange(0, first as int) =~= base.nodes()) by {
                assert(emitter.nodes().subrange(0, middle as int) == current.nodes());
                assert(current.nodes().subrange(0, first as int) == base.nodes());
            }
            let all = plan_kernels(reached);
            assert forall|j: int| 0 <= j < all.len() implies {
                let node = #[trigger] emitter.nodes()[first + j];
                &&& node.kernel == crate::fragment::kernel_after(base, j)
                &&& crate::fragment::node_model(node) == all[j]
                &&& node.alias_rules@ == crate::primitive::forbidden_alias_rules(
                    all[j].inputs.len(),
                    all[j].outputs.len(),
                )
            } by {
                if j < done_kernels.len() {
                    assert(emitter.nodes().subrange(0, middle as int) == current.nodes());
                    assert(emitter.nodes()[first + j] == current.nodes()[first + j]);
                    assert(all[j] == done_kernels[j]);
                } else {
                    let k = j - done_kernels.len();
                    assert(all[j] == added_kernels[k]);
                    assert(first + j == middle + k);
                }
            }
        } else {
            if values_room(base, goal_sizes) && plan_room(base, goal_plan) {
                lemma_plan_room_prefix(base, goal_plan, reached.len() as int);
            }
        }
    }
    result
}

/// A stage of two kernels, in order.
pub(crate) fn stage_of_two(first: KernelEmission, second: KernelEmission) -> (stage: Vec<KernelEmission>)
    ensures
        stage_view(stage) == seq![emission_model(first), emission_model(second)],
{
    let mut stage: Vec<KernelEmission> = Vec::new();
    stage.push(first);
    stage.push(second);
    assert(stage_view(stage) =~= seq![emission_model(stage@[0]), emission_model(stage@[1])]);
    stage
}

/// A stage of three kernels, in order.
pub(crate) fn stage_of_three(first: KernelEmission, second: KernelEmission, third: KernelEmission) -> (stage: Vec<
    KernelEmission,
>)
    ensures
        stage_view(stage) == seq![emission_model(first), emission_model(second), emission_model(third)],
{
    let mut stage: Vec<KernelEmission> = Vec::new();
    stage.push(first);
    stage.push(second);
    stage.push(third);
    assert(stage_view(stage) =~= seq![emission_model(stage@[0]), emission_model(stage@[1]), emission_model(stage@[2])]);
    stage
}

/// A stage of four kernels, in order.
pub(crate) fn stage_of_four(
    first: KernelEmission,
    second: KernelEmission,
    third: KernelEmission,
    fourth: KernelEmission,
) -> (stage: Vec<KernelEmission>)
    ensures
        stage_view(stage) == seq![
            emission_model(first),
            emission_model(second),
            emission_model(third),
            emission_model(fourth),
        ],
{
    let mut stage: Vec<KernelEmission> = Vec::new();
    stage.push(first);
    stage.push(second);
    stage.push(third);
    stage.push(fourth);
    assert(stage_view(stage) =~= seq![
        emission_model(stage@[0]),
        emission_model(stage@[1]),
        emission_model(stage@[2]),
        emission_model(stage@[3]),
    ]);
    stage
}

/// Every kernel of the plan reads at most sixteen tensors and writes at most
/// sixteen, so its alias table fits `usize`.
pub proof fn lemma_small_plan_bounded(plan: Seq<Seq<NodeModel>>)
    requires
        forall|i: int, j: int|
            0 <= i < plan.len() && 0 <= j < plan[i].len() ==> (#[trigger] plan[i][j]).inputs.len() <= 16
                && plan[i][j].outputs.len() <= 16,
    ensures
        plan_bounded(plan),
{
    assert forall|i: int, j: int| 0 <= i < plan.len() && 0 <= j < plan[i].len() implies (
    #[trigger] plan[i][j]).inputs.len() * plan[i][j].outputs.len() <= usize::MAX by {
        let inputs = plan[i][j].inputs.len();
        let outputs = plan[i][j].outputs.len();
        assert(inputs * outputs <= 256) by (nonlinear_arith)
            requires
                inputs <= 16,
                outputs <= 16,
        ;
    }
}

/// The prefix facts an emission staged toward `sizes` and `plan` starts
/// from.
pub proof fn lemma_goal_start(sizes: Seq<u64>, plan: Seq<Seq<NodeModel>>)
    ensures
        sizes.subrange(0, 0) == Seq::<u64>::empty(),
        sizes.subrange(0, sizes.len() as int) == sizes,
        Seq::<u64>::empty() + sizes == sizes,
        plan.subrange(0, 0) == Seq::<Seq<NodeModel>>::empty(),
        plan.subrange(0, plan.len() as int) == plan,
{
    assert(sizes.subrange(0, 0) =~= Seq::<u64>::empty());
    assert(sizes.subrange(0, sizes.len() as int) =~= sizes);
    assert(Seq::<u64>::empty() + sizes =~= sizes);
    assert(plan.subrange(0, 0) =~= Seq::<Seq<NodeModel>>::empty());
    assert(plan.subrange(0, plan.len() as int) =~= plan);
}

/// Emit planned stages that need no intermediates.
pub(crate) fn emit_planned_stages(
    emitter: &mut StageEmitter,
    Ghost(plan): Ghost<Seq<Seq<NodeModel>>>,
    stages: Vec<Vec<KernelEmission>>,
) -> (result: OperationResult<()>)
    requires
        old(emitter).wf(),
        plan_view(stages@) == plan,
        plan_bounded(plan),
    ensures
        final(emitter).wf(),
        planned_outcome(Seq::empty(), plan, *old(emitter), *final(emitter), result),
{
    let ghost base = *emitter;
    proof {
        lemma_staged_start(base);
        lemma_goal_start(Seq::empty(), plan);
        assert(Seq::<Seq<NodeModel>>::empty() + plan_view(stages@) =~= plan);
    }
    let result = stage_kernels(
        emitter,
        Ghost(base),
        Ghost(Seq::empty()),
        Ghost(plan),
        Ghost(Seq::empty()),
        Ghost(Seq::empty()),
        stages,
    );
    proof {
        assert(Seq::<Seq<NodeModel>>::empty() + plan_view(stages@) =~= plan);
    }
    result
}

} // verus!
