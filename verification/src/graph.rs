//! A self-contained graph fragment: intermediates and kernels drawn in order
//! from a reserved namespace, each kernel with its own aliasing rules, and
//! the final check of the emission against the reserved counts.
use vstd::prelude::*;

use crate::error::{OperationError, OperationErrorKind, OperationResult};
use crate::fragment::{
    CalculationNode, GraphLedger, KernelEmission, NodeModel, emission_model, kind_model, node_model, total_bytes,
};
use crate::primitive::{AliasRule, ContractionSpec, PrimitiveKind, ReduceSpec, forbidden_alias_rules, forbidden_aliases};
use crate::request::TensorDecl;
use crate::staging::{lemma_total_bytes_prefix, lemma_total_bytes_step};
use crate::identity::IdentityNamespace;
use crate::types::{ByteCount, KernelTemplateId, ValueId};

verus! {

/// The `count` value identities a ledger hands out next, in order.
pub open spec fn next_values(ledger: GraphLedger, count: nat) -> Seq<ValueId> {
    Seq::new(
        count,
        |k: int| ValueId((ledger.namespace().first_value.0 + ledger.intermediates().len() + k) as u64),
    )
}

/// The `j`-th kernel identity a ledger hands out after its current ones.
pub open spec fn next_kernel(ledger: GraphLedger, j: int) -> KernelTemplateId {
    KernelTemplateId((ledger.namespace().first_kernel.0 + ledger.kernels().len() + j) as u64)
}

/// The first `count` intermediate identities of a namespace, in order.
pub open spec fn namespace_values(namespace: IdentityNamespace, count: nat) -> Seq<ValueId> {
    Seq::new(count, |k: int| ValueId((namespace.first_value.0 + k) as u64))
}

/// The first `count` kernel identities of a namespace, in order.
pub open spec fn namespace_kernels(namespace: IdentityNamespace, count: nat) -> Seq<KernelTemplateId> {
    Seq::new(count, |k: int| KernelTemplateId((namespace.first_kernel.0 + k) as u64))
}

/// The values of a list of emitted nodes.
pub open spec fn node_models(nodes: Seq<CalculationNode>) -> Seq<NodeModel> {
    nodes.map_values(|node: CalculationNode| node_model(node))
}

/// The values of a list of requested kernels.
pub open spec fn emission_models(kernels: Seq<KernelEmission>) -> Seq<NodeModel> {
    kernels.map_values(|kernel: KernelEmission| emission_model(kernel))
}

/// The aliasing rules of a list of emitted nodes.
pub open spec fn node_alias_rules(nodes: Seq<CalculationNode>) -> Seq<Seq<AliasRule>> {
    nodes.map_values(|node: CalculationNode| node.alias_rules@)
}

/// The views of a list of aliasing rule lists.
pub open spec fn rule_views(rules: Seq<Vec<AliasRule>>) -> Seq<Seq<AliasRule>> {
    rules.map_values(|list: Vec<AliasRule>| list@)
}

/// No output of any kernel of the plan may alias one of its inputs.
pub open spec fn all_forbidden(plan: Seq<NodeModel>) -> Seq<Seq<AliasRule>> {
    plan.map_values(|node: NodeModel| forbidden_alias_rules(node.inputs.len(), node.outputs.len()))
}

/// A fragment under construction.
#[derive(Debug)]
pub struct FragmentBuilder {
    ledger: GraphLedger,
    nodes: Vec<CalculationNode>,
}

impl FragmentBuilder {
    pub closed spec fn ledger(self) -> GraphLedger {
        self.ledger
    }

    /// The kernels emitted so far, in order.
    pub closed spec fn nodes(self) -> Seq<CalculationNode> {
        self.nodes@
    }

    /// The ledger is well formed and node `j` carries the `j`-th kernel
    /// identity handed out.
    pub closed spec fn wf(self) -> bool {
        &&& self.ledger.wf()
        &&& self.nodes@.len() == self.ledger.kernels().len()
        &&& forall|j: int|
            0 <= j < self.nodes@.len() ==> (#[trigger] self.nodes@[j]).kernel == self.ledger.kernels()[j]
    }

    /// Start emitting into a fresh ledger.
    pub fn new(ledger: GraphLedger) -> (builder: Self)
        requires
            ledger.wf(),
            ledger.kernels().len() == 0,
        ensures
            builder.wf(),
            builder.ledger() == ledger,
            builder.nodes() == Seq::<CalculationNode>::empty(),
    {
        FragmentBuilder { ledger, nodes: Vec::new() }
    }

    /// Reserve intermediates of the given storage sizes, in order.
    pub fn reserve_all(&mut self, sizes: &Vec<u64>) -> (result: OperationResult<Vec<ValueId>>)
        requires
            old(self).wf(),
        ensures
            final(self).wf(),
            final(self).nodes() == old(self).nodes(),
            final(self).ledger().namespace() == old(self).ledger().namespace(),
            final(self).ledger().kernels() == old(self).ledger().kernels(),
            final(self).ledger().limit() == old(self).ledger().limit(),
            result is Ok <==> (old(self).ledger().intermediates().len() + sizes@.len()
                <= old(self).ledger().namespace().value_capacity && old(self).ledger().workspace()
                + total_bytes(sizes@) <= old(self).ledger().limit()),
            result matches Ok(values) ==> {
                &&& values@ == next_values(old(self).ledger(), sizes@.len())
                &&& final(self).ledger().intermediates() == old(self).ledger().intermediates() + values@
                &&& final(self).ledger().sizes() == old(self).ledger().sizes() + sizes@
                &&& final(self).ledger().workspace() == old(self).ledger().workspace() + total_bytes(sizes@)
            },
    {
        let ghost start = self.ledger;
        let mut values: Vec<ValueId> = Vec::new();
        let mut index: usize = 0;
        proof {
            start.lemma_within_reservation();
            assert(sizes@.subrange(0, 0) =~= Seq::<u64>::empty());
            assert(values@ =~= next_values(start, 0));
            assert(start.intermediates() + values@ =~= start.intermediates());
            assert(start.sizes() + sizes@.subrange(0, 0) =~= start.sizes());
        }
        while index < sizes.len()
            invariant
                index <= sizes@.len(),
                start == old(self).ledger(),
                self.wf(),
                self.nodes() == old(self).nodes(),
                self.ledger().namespace() == start.namespace(),
                self.ledger().kernels() == start.kernels(),
                self.ledger().limit() == start.limit(),
                values@ == next_values(start, index as nat),
                self.ledger().intermediates() == start.intermediates() + values@,
                self.ledger().sizes() == start.sizes() + sizes@.subrange(0, index as int),
                self.ledger().workspace() == start.workspace() + total_bytes(sizes@.subrange(0, index as int)),
                start.intermediates().len() + index <= start.namespace().value_capacity,
            decreases sizes.len() - index,
        {
            proof {
                lemma_total_bytes_step(sizes@, index as int);
            }
            match self.ledger.intermediate(sizes[index]) {
                Ok(value) => {
                    values.push(value);
                },
                Err(error) => {
                    proof {
                        lemma_total_bytes_prefix(sizes@, index + 1);
                    }
                    return Err(error);
                },
            }
            proof {
                assert(values@ =~= next_values(start, (index + 1) as nat));
                assert(self.ledger().intermediates() =~= start.intermediates() + values@);
                assert(self.ledger().sizes() =~= start.sizes() + sizes@.subrange(0, index + 1));
            }
            index = index + 1;
        }
        proof {
            assert(sizes@.subrange(0, index as int) =~= sizes@);
            self.ledger.lemma_within_reservation();
        }
        Ok(values)
    }

    /// Emit the kernels in order, kernel `j` with aliasing rules
    /// `alias_rules[j]`.
    pub fn emit_all(&mut self, kernels: Vec<KernelEmission>, alias_rules: Vec<Vec<AliasRule>>) -> (result:
        OperationResult<()>)
        requires
            old(self).wf(),
            kernels@.len() == alias_rules@.len(),
        ensures
            final(self).wf(),
            final(self).ledger().namespace() == old(self).ledger().namespace(),
            final(self).ledger().declared() == old(self).ledger().declared(),
            final(self).ledger().intermediates() == old(self).ledger().intermediates(),
            final(self).ledger().sizes() == old(self).ledger().sizes(),
            final(self).ledger().workspace() == old(self).ledger().workspace(),
            final(self).ledger().limit() == old(self).ledger().limit(),
            result is Ok <==> old(self).ledger().kernels().len() + kernels@.len()
                <= old(self).ledger().namespace().kernel_capacity,
            result matches Err(error) ==> error.kind == OperationErrorKind::IdentityNamespaceExhausted,
            result is Ok ==> {
                let first = old(self).nodes().len();
                &&& final(self).ledger().kernels().len() == old(self).ledger().kernels().len() + kernels@.len()
                &&& final(self).nodes().len() == first + kernels@.len()
                &&& final(self).nodes().subrange(0, first as int) == old(self).nodes()
                &&& node_models(final(self).nodes()) == node_models(old(self).nodes()) + emission_models(kernels@)
                &&& node_alias_rules(final(self).nodes()) == node_alias_rules(old(self).nodes()) + rule_views(alias_rules@)
                &&& forall|j: int|
                    0 <= j < kernels@.len() ==> {
                        let node = #[trigger] final(self).nodes()[first + j];
                        &&& node.kernel == next_kernel(old(self).ledger(), j)
                        &&& node_model(node) == emission_model(kernels@[j])
                        &&& node.alias_rules@ == alias_rules@[j]@
                    }
            },
    {
        let ghost requested = kernels@;
        let ghost rules = alias_rules@;
        let ghost first = self.nodes@.len();
        let count = kernels.len();
        proof {
            old(self).ledger.lemma_within_reservation();
        }
        let mut pending = kernels;
        let mut pending_rules = alias_rules;
        let mut index: usize = 0;
        while pending.len() > 0
            invariant
                index <= requested.len(),
                requested.len() == count,
                requested == kernels@,
                old(self).ledger.kernels().len() <= old(self).ledger.namespace().kernel_capacity,
                requested.len() == rules.len(),
                pending@ == requested.subrange(index as int, requested.len() as int),
                pending_rules@ == rules.subrange(index as int, rules.len() as int),
                self.wf(),
                self.ledger.namespace() == old(self).ledger.namespace(),
                self.ledger.declared() == old(self).ledger.declared(),
                self.ledger.intermediates() == old(self).ledger.intermediates(),
                self.ledger.sizes() == old(self).ledger.sizes(),
                self.ledger.workspace() == old(self).ledger.workspace(),
                self.ledger.limit() == old(self).ledger.limit(),
                self.ledger.kernels().len() == old(self).ledger.kernels().len() + index,
                first == old(self).nodes@.len(),
                self.nodes@.len() == first + index,
                self.nodes@.subrange(0, first as int) == old(self).nodes@,
                forall|j: int|
                    0 <= j < index ==> {
                        let node = #[trigger] self.nodes@[first + j];
                        &&& node.kernel == next_kernel(old(self).ledger(), j)
                        &&& node_model(node) == emission_model(requested[j])
                        &&& node.alias_rules@ == rules[j]@
                    },
            decreases pending.len(),
        {
            assert(index < requested.len());
            let emission = pending.remove(0);
            let rule = pending_rules.remove(0);
            assert(emission == requested[index as int]);
            assert(rule == rules[index as int]);
            proof {
                self.ledger.lemma_within_reservation();
            }
            let kernel = match self.ledger.emit_kernel() {
                Ok(kernel) => kernel,
                Err(error) => {
                    return Err(error);
                },
            };
            let ghost before_nodes = self.nodes@;
            self.nodes.push(
                CalculationNode {
                    kernel,
                    inputs: emission.inputs,
                    outputs: emission.outputs,
                    alias_rules: rule,
                    kind: emission.kind,
                },
            );
            proof {
                assert(self.nodes@.subrange(0, first as int) =~= before_nodes.subrange(0, first as int));
                assert forall|j: int| 0 <= j < self.nodes@.len() implies (#[trigger] self.nodes@[j]).kernel
                    == self.ledger.kernels()[j] by {
                    if j < before_nodes.len() {
                        assert(self.nodes@[j] == before_nodes[j]);
                    }
                }
                assert forall|j: int| 0 <= j < index + 1 implies {
                    let node = #[trigger] self.nodes@[first + j];
                    &&& node.kernel == next_kernel(old(self).ledger(), j)
                    &&& node_model(node) == emission_model(requested[j])
                    &&& node.alias_rules@ == rules[j]@
                } by {
                    if j < index {
                        assert(self.nodes@[first + j] == before_nodes[first + j]);
                    }
                }
                assert(pending@ =~= requested.subrange(index + 1, requested.len() as int));
                assert(pending_rules@ =~= rules.subrange(index + 1, rules.len() as int));
            }
            index = index + 1;
        }
        proof {
            self.ledger.lemma_within_reservation();
            assert forall|k: int| 0 <= k < self.nodes@.len() implies node_models(self.nodes@)[k] == (node_models(
                old(self).nodes@,
            ) + emission_models(requested))[k] && node_alias_rules(self.nodes@)[k] == (node_alias_rules(
                old(self).nodes@,
            ) + rule_views(rules))[k] by {
                if k < first {
                    assert(self.nodes@[k] == self.nodes@.subrange(0, first as int)[k]);
                } else {
                    assert(self.nodes@[first + (k - first)] == self.nodes@[k]);
                }
            }
            assert(node_models(self.nodes@) =~= node_models(old(self).nodes@) + emission_models(requested));
            assert(node_alias_rules(self.nodes@) =~= node_alias_rules(old(self).nodes@) + rule_views(rules));
        }
        Ok(())
    }

    /// Check the emission against the reserved counts and hand out the
    /// nodes, intermediates, kernels and workspace.
    pub fn finish(self, intermediates: u64, kernels: u64, workspace: ByteCount) -> (result: OperationResult<
        (Vec<CalculationNode>, Vec<ValueId>, Vec<KernelTemplateId>, ByteCount),
    >)
        requires
            self.wf(),
        ensures
            result is Ok <==> (self.ledger().intermediates().len() == intermediates
                && self.ledger().kernels().len() == kernels && self.ledger().workspace() == workspace.0),
            result matches Ok((nodes, values, ids, bytes)) ==> {
                &&& nodes@ == self.nodes()
                &&& values@ == self.ledger().intermediates()
                &&& ids@ == self.ledger().kernels()
                &&& values@ == namespace_values(self.ledger().namespace(), values@.len())
                &&& ids@ == namespace_kernels(self.ledger().namespace(), ids@.len())
                &&& ids@.len() == nodes@.len()
                &&& forall|j: int| 0 <= j < nodes@.len() ==> (#[trigger] nodes@[j]).kernel == ids@[j]
                &&& bytes == workspace
            },
    {
        self.ledger.check_reservation(intermediates, kernels, workspace)?;
        let (values, ids, bytes) = self.ledger.into_parts();
        assert(values@ =~= namespace_values(self.ledger.namespace(), values@.len()));
        assert(ids@ =~= namespace_kernels(self.ledger.namespace(), ids@.len()));
        Ok((self.nodes, values, ids, bytes))
    }
}

/// Every kernel of the plan reads and writes at most sixteen tensors.
pub open spec fn small_plan(plan: Seq<NodeModel>) -> bool {
    forall|j: int| 0 <= j < plan.len() ==> (#[trigger] plan[j]).inputs.len() <= 16 && plan[j].outputs.len() <= 16
}

/// The aliasing rules that forbid every output of each kernel from aliasing
/// any of its inputs.
pub(crate) fn forbidden_alias_lists(kernels: &Vec<KernelEmission>) -> (rules: Vec<Vec<AliasRule>>)
    requires
        small_plan(emission_models(kernels@)),
    ensures
        rules@.len() == kernels@.len(),
        forall|j: int|
            0 <= j < kernels@.len() ==> (#[trigger] rules@[j])@ == forbidden_alias_rules(
                kernels@[j].inputs@.len(),
                kernels@[j].outputs@.len(),
            ),
{
    let mut rules: Vec<Vec<AliasRule>> = Vec::new();
    let mut index: usize = 0;
    while index < kernels.len()
        invariant
            index <= kernels@.len(),
            rules@.len() == index,
            small_plan(emission_models(kernels@)),
            forall|j: int|
                0 <= j < index ==> (#[trigger] rules@[j])@ == forbidden_alias_rules(
                    kernels@[j].inputs@.len(),
                    kernels@[j].outputs@.len(),
                ),
        decreases kernels.len() - index,
    {
        let kernel = &kernels[index];
        assert(emission_models(kernels@)[index as int] == emission_model(*kernel));
        assert(kernel.inputs@.len() * kernel.outputs@.len() <= 256) by (nonlinear_arith)
            requires
                kernel.inputs@.len() <= 16,
                kernel.outputs@.len() <= 16,
        ;
        rules.push(forbidden_aliases(kernel.inputs.len(), kernel.outputs.len()));
        index = index + 1;
    }
    rules
}

/// Append one storage size to a list, keeping its total.
pub fn push_size(sizes: &mut Vec<u64>, bytes: u64)
    ensures
        final(sizes)@ == old(sizes)@.push(bytes),
        total_bytes(final(sizes)@) == total_bytes(old(sizes)@) + bytes,
{
    let ghost before = sizes@;
    sizes.push(bytes);
    assert(sizes@.drop_last() =~= before);
}

/// Append one kernel to a plan whose kernels forbid all aliasing.
pub(crate) fn plan_kernel(kernels: &mut Vec<KernelEmission>, rules: &mut Vec<Vec<AliasRule>>, kernel: KernelEmission)
    requires
        rule_views(old(rules)@) == all_forbidden(emission_models(old(kernels)@)),
        kernel.inputs@.len() <= 512,
        kernel.outputs@.len() <= 16,
    ensures
        final(kernels)@ == old(kernels)@.push(kernel),
        emission_models(final(kernels)@) == emission_models(old(kernels)@).push(emission_model(kernel)),
        rule_views(final(rules)@) == all_forbidden(emission_models(final(kernels)@)),
{
    assert(kernel.inputs@.len() * kernel.outputs@.len() <= 512 * 16) by (nonlinear_arith)
        requires
            kernel.inputs@.len() <= 512,
            kernel.outputs@.len() <= 16,
    ;
    let ghost before_rules = rules@;
    let ghost before_kernels = kernels@;
    rules.push(forbidden_aliases(kernel.inputs.len(), kernel.outputs.len()));
    kernels.push(kernel);
    assert(emission_models(kernels@) =~= emission_models(before_kernels).push(emission_model(kernel)));
    assert(rule_views(rules@) =~= rule_views(before_rules).push(rules@.last()@));
    assert(all_forbidden(emission_models(kernels@)) =~= all_forbidden(emission_models(before_kernels)).push(
        forbidden_alias_rules(kernel.inputs@.len(), kernel.outputs@.len()),
    ));
}

/// A copy of a list of plain values.
pub fn copy_list<T: Copy>(values: &Vec<T>) -> (copy: Vec<T>)
    ensures
        copy@ == values@,
{
    let mut copy: Vec<T> = Vec::new();
    let mut index: usize = 0;
    while index < values.len()
        invariant
            index <= values@.len(),
            copy@ == values@.subrange(0, index as int),
        decreases values.len() - index,
    {
        copy.push(values[index]);
        index = index + 1;
        assert(copy@ =~= values@.subrange(0, index as int));
    }
    assert(values@.subrange(0, values@.len() as int) =~= values@);
    copy
}

/// A copy of a kernel kind.
pub fn copy_kind(kind: &PrimitiveKind) -> (copy: PrimitiveKind)
    ensures
        kind_model(copy) == kind_model(*kind),
{
    match kind {
        PrimitiveKind::Elementwise => PrimitiveKind::Elementwise,
        PrimitiveKind::Reduce(spec) => PrimitiveKind::Reduce(
            ReduceSpec {
                operator: spec.operator,
                result: spec.result,
                axes: copy_list(&spec.axes),
                keep_dimensions: spec.keep_dimensions,
                tree_lanes: spec.tree_lanes,
            },
        ),
        PrimitiveKind::Scan(spec) => PrimitiveKind::Scan(*spec),
        PrimitiveKind::Contraction(spec) => PrimitiveKind::Contraction(
            ContractionSpec { batch_axes: copy_list(&spec.batch_axes), contract_axes: copy_list(&spec.contract_axes) },
        ),
        PrimitiveKind::Gather(spec) => PrimitiveKind::Gather(*spec),
        PrimitiveKind::Scatter(spec) => PrimitiveKind::Scatter(*spec),
        PrimitiveKind::Histogram(spec) => PrimitiveKind::Histogram(*spec),
        PrimitiveKind::Sort(spec) => PrimitiveKind::Sort(*spec),
        PrimitiveKind::IndexMap(spec) => PrimitiveKind::IndexMap(*spec),
        PrimitiveKind::Random(distribution) => PrimitiveKind::Random(*distribution),
    }
}

/// A copy of an emitted kernel.
pub fn copy_node(node: &CalculationNode) -> (copy: CalculationNode)
    ensures
        node_model(copy) == node_model(*node),
        copy.kernel == node.kernel,
        copy.alias_rules@ == node.alias_rules@,
{
    CalculationNode {
        kernel: node.kernel,
        inputs: copy_list(&node.inputs),
        outputs: copy_list(&node.outputs),
        alias_rules: copy_list(&node.alias_rules),
        kind: copy_kind(&node.kind),
    }
}

/// A tensor declaration as a value.
pub struct TensorModel {
    pub id: ValueId,
    pub dtype: crate::types::DType,
    pub extents: Seq<u64>,
    pub storage_bytes: ByteCount,
    pub external_input: bool,
    pub external_output: bool,
}

/// The value of a tensor declaration.
pub open spec fn tensor_model(tensor: TensorDecl) -> TensorModel {
    TensorModel {
        id: tensor.id,
        dtype: tensor.dtype,
        extents: tensor.extents@,
        storage_bytes: tensor.storage_bytes,
        external_input: tensor.external_input,
        external_output: tensor.external_output,
    }
}

/// A boundary tensor of the graph: the declaration, read by the graph's
/// caller as an input or written as an output.
pub open spec fn flagged(tensor: TensorDecl, input: bool, output: bool) -> TensorModel {
    TensorModel { external_input: input, external_output: output, ..tensor_model(tensor) }
}

/// The identities of a list of tensor declarations.
pub open spec fn tensor_ids(tensors: Seq<TensorDecl>) -> Seq<ValueId> {
    tensors.map_values(|tensor: TensorDecl| tensor.id)
}

/// The values of a list of tensor declarations.
pub open spec fn tensor_models(tensors: Seq<TensorDecl>) -> Seq<TensorModel> {
    tensors.map_values(|tensor: TensorDecl| tensor_model(tensor))
}

/// A copy of a tensor declaration.
pub fn copy_tensor(tensor: &TensorDecl) -> (copy: TensorDecl)
    ensures
        tensor_model(copy) == tensor_model(*tensor),
{
    TensorDecl {
        id: tensor.id,
        dtype: tensor.dtype,
        extents: copy_list(&tensor.extents),
        storage_bytes: tensor.storage_bytes,
        external_input: tensor.external_input,
        external_output: tensor.external_output,
    }
}

/// A caller's calculation graph: its tensor declarations and its kernels.
#[derive(Debug)]
pub struct CalculationGraph {
    pub tensors: Vec<TensorDecl>,
    pub nodes: Vec<CalculationNode>,
}

/// The kernel identities of a list of emitted nodes.
pub open spec fn node_kernels(nodes: Seq<CalculationNode>) -> Seq<KernelTemplateId> {
    nodes.map_values(|node: CalculationNode| node.kernel)
}

/// Some tensor of the graph has identity `id`.
pub open spec fn graph_declares(tensors: Seq<TensorDecl>, id: ValueId) -> bool {
    exists|i: int| 0 <= i < tensors.len() && (#[trigger] tensors[i]).id == id
}

/// Some kernel of the graph has identity `id`.
pub open spec fn graph_runs(nodes: Seq<CalculationNode>, id: KernelTemplateId) -> bool {
    exists|i: int| 0 <= i < nodes.len() && (#[trigger] nodes[i]).kernel == id
}

/// Some kernel of the graph writes tensor `id`.
pub open spec fn graph_writes(nodes: Seq<CalculationNode>, id: ValueId) -> bool {
    exists|i: int, j: int|
        0 <= i < nodes.len() && 0 <= j < nodes[i].outputs@.len() && (#[trigger] nodes[i].outputs@[j]) == id
}

/// Why a fragment cannot join a caller's graph: an intermediate or kernel
/// identity the graph already holds, then an output some graph kernel
/// already writes.
pub open spec fn append_fault(
    graph: CalculationGraph,
    intermediates: Seq<ValueId>,
    kernels: Seq<KernelTemplateId>,
    outputs: Seq<ValueId>,
) -> Option<OperationErrorKind> {
    if exists|i: int| 0 <= i < intermediates.len() && graph_declares(graph.tensors@, #[trigger] intermediates[i]) {
        Some(OperationErrorKind::IdentityNamespaceOverlap)
    } else if exists|i: int| 0 <= i < kernels.len() && graph_runs(graph.nodes@, #[trigger] kernels[i]) {
        Some(OperationErrorKind::IdentityNamespaceOverlap)
    } else if exists|i: int| 0 <= i < outputs.len() && graph_writes(graph.nodes@, #[trigger] outputs[i]) {
        Some(OperationErrorKind::GraphMaterializationFailed)
    } else {
        None
    }
}

fn declares(tensors: &Vec<TensorDecl>, id: ValueId) -> (found: bool)
    ensures
        found == graph_declares(tensors@, id),
{
    let mut index: usize = 0;
    while index < tensors.len()
        invariant
            index <= tensors@.len(),
            forall|i: int| 0 <= i < index ==> (#[trigger] tensors@[i]).id != id,
        decreases tensors.len() - index,
    {
        if tensors[index].id.0 == id.0 {
            return true;
        }
        index = index + 1;
    }
    false
}

fn runs(nodes: &Vec<CalculationNode>, id: KernelTemplateId) -> (found: bool)
    ensures
        found == graph_runs(nodes@, id),
{
    let mut index: usize = 0;
    while index < nodes.len()
        invariant
            index <= nodes@.len(),
            forall|i: int| 0 <= i < index ==> (#[trigger] nodes@[i]).kernel != id,
        decreases nodes.len() - index,
    {
        if nodes[index].kernel.0 == id.0 {
            return true;
        }
        index = index + 1;
    }
    false
}

fn writes(nodes: &Vec<CalculationNode>, id: ValueId) -> (found: bool)
    ensures
        found == graph_writes(nodes@, id),
{
    let mut index: usize = 0;
    while index < nodes.len()
        invariant
            index <= nodes@.len(),
            forall|i: int, j: int|
                0 <= i < index && 0 <= j < nodes@[i].outputs@.len() ==> (#[trigger] nodes@[i].outputs@[j]) != id,
        decreases nodes.len() - index,
    {
        let outputs = &nodes[index].outputs;
        let mut position: usize = 0;
        while position < outputs.len()
            invariant
                index < nodes@.len(),
                position <= outputs@.len(),
                outputs@ == nodes@[index as int].outputs@,
                forall|i: int, j: int|
                    0 <= i < index && 0 <= j < nodes@[i].outputs@.len() ==> (#[trigger] nodes@[i].outputs@[j]) != id,
                forall|j: int| 0 <= j < position ==> outputs@[j] != id,
            decreases outputs.len() - position,
        {
            if outputs[position].0 == id.0 {
                assert(nodes@[index as int].outputs@[position as int] == id);
                return true;
            }
            position = position + 1;
        }
        assert forall|i: int, j: int|
            0 <= i < index + 1 && 0 <= j < nodes@[i].outputs@.len() implies (#[trigger] nodes@[i].outputs@[j]) != id by {
            if i == index {
                assert(outputs@[j] != id);
            }
        }
        index = index + 1;
    }
    false
}

/// Append a fragment's intermediates and kernels to a caller's graph,
/// refusing a fragment whose identities the graph already holds or whose
/// outputs a graph kernel already writes. A refused fragment leaves the
/// graph unchanged.
pub fn append_fragment(
    graph: &mut CalculationGraph,
    intermediates: &Vec<TensorDecl>,
    nodes: &Vec<CalculationNode>,
    kernels: &Vec<KernelTemplateId>,
    outputs: &Vec<ValueId>,
) -> (result: OperationResult<()>)
    ensures
        match append_fault(
            *old(graph),
            tensor_ids(intermediates@),
            kernels@,
            outputs@,
        ) {
            Some(kind) => result matches Err(error) && error.kind == kind && *final(graph) == *old(graph),
            None => {
                &&& result is Ok
                &&& tensor_models(final(graph).tensors@) == tensor_models(old(graph).tensors@) + tensor_models(
                    intermediates@,
                )
                &&& node_models(final(graph).nodes@) == node_models(old(graph).nodes@) + node_models(nodes@)
                &&& node_alias_rules(final(graph).nodes@) == node_alias_rules(old(graph).nodes@)
                    + node_alias_rules(nodes@)
                &&& node_kernels(final(graph).nodes@) == node_kernels(old(graph).nodes@) + node_kernels(nodes@)
            },
        },
{
    let mut index: usize = 0;
    while index < intermediates.len()
        invariant
            index <= intermediates@.len(),
            forall|i: int| 0 <= i < index ==> !graph_declares(graph.tensors@, (#[trigger] intermediates@[i]).id),
        decreases intermediates.len() - index,
    {
        if declares(&graph.tensors, intermediates[index].id) {
            assert(tensor_ids(intermediates@)[index as int] == intermediates@[index as int].id);
            return Err(
                OperationError::new(
                    OperationErrorKind::IdentityNamespaceOverlap,
                    "a fragment intermediate already exists in the caller graph",
                ),
            );
        }
        index = index + 1;
    }
    assert forall|i: int| 0 <= i < intermediates@.len() implies !graph_declares(
        graph.tensors@,
        #[trigger] tensor_ids(intermediates@)[i],
    ) by {
        assert(tensor_ids(intermediates@)[i] == intermediates@[i].id);
    }
    assert forall|i: int| 0 <= i < intermediates@.len() implies !graph_declares(
        graph.tensors@,
        #[trigger] tensor_ids(intermediates@)[i],
    ) by {
        assert(tensor_ids(intermediates@)[i] == intermediates@[i].id);
    }
    let mut index: usize = 0;
    while index < kernels.len()
        invariant
            index <= kernels@.len(),
            forall|i: int| 0 <= i < intermediates@.len() ==> !graph_declares(graph.tensors@, (#[trigger] intermediates@[i]).id),
            forall|i: int| 0 <= i < index ==> !graph_runs(graph.nodes@, #[trigger] kernels@[i]),
        decreases kernels.len() - index,
    {
        if runs(&graph.nodes, kernels[index]) {
            return Err(
                OperationError::new(
                    OperationErrorKind::IdentityNamespaceOverlap,
                    "a fragment kernel already exists in the caller graph",
                ),
            );
        }
        index = index + 1;
    }
    let mut index: usize = 0;
    while index < outputs.len()
        invariant
            index <= outputs@.len(),
            forall|i: int| 0 <= i < intermediates@.len() ==> !graph_declares(graph.tensors@, (#[trigger] intermediates@[i]).id),
            forall|i: int| 0 <= i < kernels@.len() ==> !graph_runs(graph.nodes@, #[trigger] kernels@[i]),
            forall|i: int| 0 <= i < index ==> !graph_writes(graph.nodes@, #[trigger] outputs@[i]),
        decreases outputs.len() - index,
    {
        if writes(&graph.nodes, outputs[index]) {
            return Err(
                OperationError::new(
                    OperationErrorKind::GraphMaterializationFailed,
                    "a caller graph kernel already produces a fragment output",
                ),
            );
        }
        index = index + 1;
    }
    let ghost start = *graph;
    let mut index: usize = 0;
    while index < intermediates.len()
        invariant
            index <= intermediates@.len(),
            graph.nodes@ == start.nodes@,
            tensor_models(graph.tensors@) == tensor_models(start.tensors@) + tensor_models(
                intermediates@.subrange(0, index as int),
            ),
        decreases intermediates.len() - index,
    {
        let ghost before = graph.tensors@;
        graph.tensors.push(copy_tensor(&intermediates[index]));
        index = index + 1;
        assert(tensor_models(graph.tensors@) =~= tensor_models(start.tensors@) + tensor_models(
            intermediates@.subrange(0, index as int),
        )) by {
            assert(tensor_models(graph.tensors@) =~= tensor_models(before).push(tensor_model(intermediates@[index - 1])));
            assert(tensor_models(intermediates@.subrange(0, index as int)) =~= tensor_models(
                intermediates@.subrange(0, index - 1),
            ).push(tensor_model(intermediates@[index - 1])));
        }
    }
    assert(intermediates@.subrange(0, intermediates@.len() as int) =~= intermediates@);
    let mut index: usize = 0;
    while index < nodes.len()
        invariant
            index <= nodes@.len(),
            tensor_models(graph.tensors@) == tensor_models(start.tensors@) + tensor_models(intermediates@),
            node_models(graph.nodes@) == node_models(start.nodes@) + node_models(nodes@.subrange(0, index as int)),
            node_alias_rules(graph.nodes@) == node_alias_rules(start.nodes@) + node_alias_rules(
                nodes@.subrange(0, index as int),
            ),
            node_kernels(graph.nodes@) == node_kernels(start.nodes@) + node_kernels(nodes@.subrange(0, index as int)),
        decreases nodes.len() - index,
    {
        let ghost before = graph.nodes@;
        graph.nodes.push(copy_node(&nodes[index]));
        index = index + 1;
        proof {
            let prefix = nodes@.subrange(0, index as int);
            let shorter = nodes@.subrange(0, index - 1);
            assert(prefix =~= shorter.push(nodes@[index - 1]));
            assert(node_models(graph.nodes@) =~= node_models(before).push(node_model(nodes@[index - 1])));
            assert(node_models(prefix) =~= node_models(shorter).push(node_model(nodes@[index - 1])));
            assert(node_alias_rules(graph.nodes@) =~= node_alias_rules(before).push(nodes@[index - 1].alias_rules@));
            assert(node_alias_rules(prefix) =~= node_alias_rules(shorter).push(nodes@[index - 1].alias_rules@));
            assert(node_kernels(graph.nodes@) =~= node_kernels(before).push(nodes@[index - 1].kernel));
            assert(node_kernels(prefix) =~= node_kernels(shorter).push(nodes@[index - 1].kernel));
        }
    }
    assert(nodes@.subrange(0, nodes@.len() as int) =~= nodes@);
    Ok(())
}

} // verus!
