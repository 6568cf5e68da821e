//! Bookkeeping of one graph fragment under construction: identities drawn
//! from a caller-reserved namespace, the exact scratch workspace, and the
//! emission of one kernel stage per resolved composition step.
use vstd::prelude::*;

use crate::error::{OperationError, OperationErrorKind, OperationResult};
use crate::expansion::ResolvedComposition;
use crate::identity::{IdentityNamespace, identity_ranges};
use crate::primitive::{
    AliasRule, GatherSpec, HistogramSpec, IndexMapSpec, PrimitiveKind, RandomDistribution, ReduceOperator, ReduceResult, ScanSpec,
    ScatterSpec, SortSpec, forbidden_alias_rules, forbidden_aliases, kind_family, primitive_family,
};
use crate::types::{ByteCount, KernelTemplateId, PrimitiveFamily, ValueId};

verus! {

/// Sum of the reserved intermediate sizes.
pub open spec fn total_bytes(sizes: Seq<u64>) -> int
    decreases sizes.len(),
{
    if sizes.len() == 0 {
        0
    } else {
        total_bytes(sizes.drop_last()) + sizes.last()
    }
}

/// Identities and workspace handed out for one fragment.
#[derive(Debug)]
pub struct GraphLedger {
    namespace: IdentityNamespace,
    declared: Vec<ValueId>,
    intermediates: Vec<ValueId>,
    intermediate_bytes: Vec<u64>,
    kernels: Vec<KernelTemplateId>,
    workspace_bytes: u64,
    workspace_limit: u64,
}

impl GraphLedger {
    pub closed spec fn namespace(self) -> IdentityNamespace {
        self.namespace
    }

    /// Boundary tensors declared by the caller.
    pub closed spec fn declared(self) -> Seq<ValueId> {
        self.declared@
    }

    /// Intermediate value identities handed out, in order.
    pub closed spec fn intermediates(self) -> Seq<ValueId> {
        self.intermediates@
    }

    /// Storage bytes of each intermediate, in order.
    pub closed spec fn sizes(self) -> Seq<u64> {
        self.intermediate_bytes@
    }

    /// Kernel identities handed out, in order.
    pub closed spec fn kernels(self) -> Seq<KernelTemplateId> {
        self.kernels@
    }

    pub closed spec fn workspace(self) -> u64 {
        self.workspace_bytes
    }

    pub closed spec fn limit(self) -> u64 {
        self.workspace_limit
    }

    /// Identities are consecutive from the start of each reserved range and
    /// stay inside it; no declared tensor lies in the value range; the
    /// workspace is the exact sum of the intermediate sizes and within the
    /// limit.
    pub closed spec fn wf(self) -> bool {
        &&& self.namespace.fits()
        &&& self.intermediates@.len() <= self.namespace.value_capacity
        &&& self.kernels@.len() <= self.namespace.kernel_capacity
        &&& self.intermediate_bytes@.len() == self.intermediates@.len()
        &&& forall|i: int|
            0 <= i < self.intermediates@.len() ==> (#[trigger] self.intermediates@[i]).0
                == self.namespace.first_value.0 + i
        &&& forall|i: int|
            0 <= i < self.kernels@.len() ==> (#[trigger] self.kernels@[i]).0
                == self.namespace.first_kernel.0 + i
        &&& forall|i: int|
            0 <= i < self.declared@.len() ==> !self.namespace.reserves_value(
                (#[trigger] self.declared@[i]).0 as int,
            )
        &&& self.workspace_bytes == total_bytes(self.intermediate_bytes@)
        &&& self.workspace_bytes <= self.workspace_limit
    }

    /// Some declared tensor lies inside the reserved intermediate range.
    pub open spec fn declared_overlaps(namespace: IdentityNamespace, declared: Seq<ValueId>) -> bool {
        exists|i: int|
            0 <= i < declared.len() && namespace.reserves_value((#[trigger] declared[i]).0 as int)
    }

    /// Open a fragment over a namespace, refusing a namespace whose ranges
    /// leave `u64` or whose value range holds a declared boundary tensor.
    pub fn new(namespace: IdentityNamespace, declared: &[ValueId], workspace_limit: ByteCount) -> (ledger:
        OperationResult<GraphLedger>)
        ensures
            !namespace.fits() ==> (ledger matches Err(error) && error.kind
                == OperationErrorKind::IdentityNamespaceExhausted),
            namespace.fits() && Self::declared_overlaps(namespace, declared@) ==> (ledger matches Err(
                error,
            ) && error.kind == OperationErrorKind::IdentityNamespaceOverlap),
            namespace.fits() && !Self::declared_overlaps(namespace, declared@) ==> (ledger matches Ok(
                ledger,
            ) && ledger.wf() && ledger.namespace() == namespace && ledger.declared() == declared@
                && ledger.intermediates().len() == 0 && ledger.kernels().len() == 0
                && ledger.workspace() == 0 && ledger.limit() == workspace_limit.0),
    {
        let (first_value, value_end, _first_kernel, _kernel_end) = match identity_ranges(namespace) {
            Ok(ranges) => ranges,
            Err(error) => {
                return Err(error);
            },
        };
        let mut boundary: Vec<ValueId> = Vec::new();
        let mut index: usize = 0;
        while index < declared.len()
            invariant
                index <= declared@.len(),
                namespace.fits(),
                first_value == namespace.first_value.0,
                value_end == namespace.value_end(),
                boundary@ == declared@.subrange(0, index as int),
                forall|i: int|
                    0 <= i < index ==> !namespace.reserves_value((#[trigger] declared@[i]).0 as int),
            decreases declared.len() - index,
        {
            let id = declared[index].get();
            if id >= first_value && id < value_end {
                assert(namespace.reserves_value(declared@[index as int].0 as int));
                return Err(
                    OperationError::new(
                        OperationErrorKind::IdentityNamespaceOverlap,
                        "a declared tensor falls inside the reserved intermediate value range",
                    ),
                );
            }
            boundary.push(declared[index]);
            index = index + 1;
        }
        assert(declared@.subrange(0, declared@.len() as int) =~= declared@);
        let ledger = GraphLedger {
            namespace,
            declared: boundary,
            intermediates: Vec::new(),
            intermediate_bytes: Vec::new(),
            kernels: Vec::new(),
            workspace_bytes: 0,
            workspace_limit: workspace_limit.get(),
        };
        Ok(ledger)
    }

    /// Reserve the next intermediate value, of `bytes` storage bytes.
    pub fn intermediate(&mut self, bytes: u64) -> (value: OperationResult<ValueId>)
        requires
            old(self).wf(),
        ensures
            final(self).wf(),
            final(self).namespace() == old(self).namespace(),
            final(self).declared() == old(self).declared(),
            final(self).kernels() == old(self).kernels(),
            final(self).limit() == old(self).limit(),
            old(self).intermediates().len() == old(self).namespace().value_capacity ==> (value matches Err(
                error,
            ) && error.kind == OperationErrorKind::IdentityNamespaceExhausted),
            old(self).intermediates().len() < old(self).namespace().value_capacity
                && old(self).workspace() + bytes > u64::MAX ==> (value matches Err(error) && error.kind
                == OperationErrorKind::WorkspaceArithmeticOverflow),
            old(self).intermediates().len() < old(self).namespace().value_capacity
                && old(self).workspace() + bytes <= u64::MAX && old(self).workspace() + bytes > old(self).limit() ==> (value matches Err(error) && error.kind
                == OperationErrorKind::WorkspaceLimitExceeded),
            value is Err ==> final(self).intermediates() == old(self).intermediates() && final(self).workspace() == old(self).workspace(),
            value is Ok <==> (old(self).intermediates().len() < old(self).namespace().value_capacity
                && old(self).workspace() + bytes <= old(self).limit()),
            value matches Ok(id) ==> id.0 == old(self).namespace().first_value.0 + old(self).intermediates().len() && final(self).intermediates() == old(self).intermediates().push(
                id,
            ) && final(self).sizes() == old(self).sizes().push(bytes) && final(self).workspace()
                == old(self).workspace() + bytes,
    {
        if self.intermediates.len() as u64 == self.namespace.value_capacity {
            return Err(
                OperationError::new(
                    OperationErrorKind::IdentityNamespaceExhausted,
                    "reserved intermediate value identity range is exhausted",
                ),
            );
        }
        let total = match self.workspace_bytes.checked_add(bytes) {
            Some(total) => total,
            None => {
                return Err(
                    OperationError::new(
                        OperationErrorKind::WorkspaceArithmeticOverflow,
                        "composition workspace byte total overflowed u64",
                    ),
                );
            },
        };
        if total > self.workspace_limit {
            return Err(
                OperationError::new(
                    OperationErrorKind::WorkspaceLimitExceeded,
                    "composition needs more workspace bytes than the limit",
                ),
            );
        }
        let value = ValueId::new(self.namespace.first_value.get() + self.intermediates.len() as u64);
        let ghost old_sizes = self.intermediate_bytes@;
        self.intermediates.push(value);
        self.intermediate_bytes.push(bytes);
        self.workspace_bytes = total;
        assert(self.intermediate_bytes@.drop_last() =~= old_sizes);
        Ok(value)
    }

    /// Reserve the next kernel identity.
    pub fn emit_kernel(&mut self) -> (kernel: OperationResult<KernelTemplateId>)
        requires
            old(self).wf(),
        ensures
            final(self).wf(),
            final(self).namespace() == old(self).namespace(),
            final(self).declared() == old(self).declared(),
            final(self).intermediates() == old(self).intermediates(),
            final(self).sizes() == old(self).sizes(),
            final(self).workspace() == old(self).workspace(),
            final(self).limit() == old(self).limit(),
            kernel is Ok <==> old(self).kernels().len() < old(self).namespace().kernel_capacity,
            kernel matches Err(error) ==> error.kind == OperationErrorKind::IdentityNamespaceExhausted
                && final(self).kernels() == old(self).kernels(),
            kernel matches Ok(id) ==> id.0 == old(self).namespace().first_kernel.0 + old(self).kernels().len() && final(self).kernels() == old(self).kernels().push(id),
    {
        if self.kernels.len() as u64 == self.namespace.kernel_capacity {
            return Err(
                OperationError::new(
                    OperationErrorKind::IdentityNamespaceExhausted,
                    "reserved kernel identity range is exhausted",
                ),
            );
        }
        let kernel = KernelTemplateId::new(self.namespace.first_kernel.get() + self.kernels.len() as u64);
        self.kernels.push(kernel);
        Ok(kernel)
    }

    /// Check the emitted fragment against the identity and workspace counts
    /// its formula reserved.
    pub fn check_reservation(&self, intermediates: u64, kernels: u64, workspace: ByteCount) -> (result:
        OperationResult<()>)
        requires
            self.wf(),
        ensures
            self.intermediates().len() != intermediates ==> (result matches Err(error) && error.kind
                == OperationErrorKind::GraphMaterializationFailed),
            self.intermediates().len() == intermediates && self.kernels().len() != kernels ==> (
            result matches Err(error) && error.kind == OperationErrorKind::GraphMaterializationFailed),
            self.intermediates().len() == intermediates && self.kernels().len() == kernels
                && self.workspace() != workspace.0 ==> (result matches Err(error) && error.kind
                == OperationErrorKind::WorkspaceFormulaMismatch),
            result is Ok <==> (self.intermediates().len() == intermediates && self.kernels().len()
                == kernels && self.workspace() == workspace.0),
    {
        if self.intermediates.len() as u64 != intermediates {
            return Err(
                OperationError::new(
                    OperationErrorKind::GraphMaterializationFailed,
                    "the fragment emitted a different number of intermediates than reserved",
                ),
            );
        }
        if self.kernels.len() as u64 != kernels {
            return Err(
                OperationError::new(
                    OperationErrorKind::GraphMaterializationFailed,
                    "the fragment emitted a different number of kernels than reserved",
                ),
            );
        }
        if self.workspace_bytes != workspace.get() {
            return Err(
                OperationError::new(
                    OperationErrorKind::WorkspaceFormulaMismatch,
                    "the fragment's workspace differs from its formula",
                ),
            );
        }
        Ok(())
    }

    pub fn intermediate_values(&self) -> (values: &[ValueId])
        ensures
            values@ == self.intermediates(),
    {
        self.intermediates.as_slice()
    }

    pub fn kernel_ids(&self) -> (kernels: &[KernelTemplateId])
        ensures
            kernels@ == self.kernels(),
    {
        self.kernels.as_slice()
    }

    pub fn workspace_bytes(&self) -> (bytes: ByteCount)
        ensures
            bytes.0 == self.workspace(),
    {
        ByteCount::new(self.workspace_bytes)
    }

    /// The intermediates, kernels and workspace handed out.
    pub fn into_parts(self) -> (parts: (Vec<ValueId>, Vec<KernelTemplateId>, ByteCount))
        requires
            self.wf(),
        ensures
            parts.0@ == self.intermediates(),
            parts.1@ == self.kernels(),
            parts.2.0 == self.workspace(),
            forall|i: int| 0 <= i < parts.0@.len() ==> (#[trigger] parts.0@[i]).0 == self.namespace().first_value.0 + i,
            forall|i: int| 0 <= i < parts.1@.len() ==> (#[trigger] parts.1@[i]).0 == self.namespace().first_kernel.0 + i,
    {
        (self.intermediates, self.kernels, ByteCount::new(self.workspace_bytes))
    }

    /// The intermediates, their storage sizes and the workspace total.
    pub fn into_workspace(self) -> (parts: (Vec<ValueId>, Vec<u64>, ByteCount))
        requires
            self.wf(),
        ensures
            parts.0@ == self.intermediates(),
            parts.1@ == self.sizes(),
            parts.0@.len() == parts.1@.len(),
            parts.2.0 == self.workspace(),
            total_bytes(parts.1@) == self.workspace(),
            self.workspace() <= self.limit(),
    {
        (self.intermediates, self.intermediate_bytes, ByteCount::new(self.workspace_bytes))
    }

    /// Every identity a well-formed ledger handed out is distinct, lies in its
    /// reserved range, and is not a declared boundary tensor; the workspace
    /// never exceeds the limit.
    pub proof fn lemma_identities_fresh(self)
        requires
            self.wf(),
        ensures
            forall|i: int, j: int|
                0 <= i < j < self.intermediates().len() ==> #[trigger] self.intermediates()[i]
                    != #[trigger] self.intermediates()[j],
            forall|i: int|
                0 <= i < self.intermediates().len() ==> self.namespace().reserves_value(
                    (#[trigger] self.intermediates()[i]).0 as int,
                ),
            forall|i: int, j: int|
                0 <= i < self.intermediates().len() && 0 <= j < self.declared().len()
                    ==> #[trigger] self.intermediates()[i] != #[trigger] self.declared()[j],
            forall|i: int, j: int|
                0 <= i < j < self.kernels().len() ==> #[trigger] self.kernels()[i]
                    != #[trigger] self.kernels()[j],
            forall|i: int|
                0 <= i < self.kernels().len() ==> self.namespace().reserves_kernel(
                    (#[trigger] self.kernels()[i]).0 as int,
                ),
            self.workspace() <= self.limit(),
    {
        assert forall|i: int, j: int|
            0 <= i < self.intermediates().len() && 0 <= j < self.declared().len()
                implies #[trigger] self.intermediates()[i] != #[trigger] self.declared()[j] by {
            assert(self.namespace().reserves_value(self.intermediates()[i].0 as int));
            assert(!self.namespace().reserves_value(self.declared()[j].0 as int));
        }
    }
}

impl GraphLedger {
    /// A well-formed ledger stays within its reservation.
    pub proof fn lemma_within_reservation(self)
        requires
            self.wf(),
        ensures
            self.intermediates().len() <= self.namespace().value_capacity,
            self.kernels().len() <= self.namespace().kernel_capacity,
            self.workspace() <= self.limit(),
    {
    }
}

/// Mapping from one resolved composition step to its concrete kernels.
#[derive(Debug, PartialEq, Eq)]
pub struct StageEmission {
    pub step: usize,
    pub kernels: Vec<KernelTemplateId>,
}

impl StageEmission {
    #[must_use]
    pub fn step(&self) -> (step: usize)
        ensures
            step == self.step,
    {
        self.step
    }

    #[must_use]
    pub fn kernels(&self) -> (kernels: &[KernelTemplateId])
        ensures
            kernels@ == self.kernels@,
    {
        self.kernels.as_slice()
    }
}

/// One kernel a materializer asks to emit: its input and output tensors and
/// its primitive kind.
#[derive(Clone, Debug)]
pub struct KernelEmission {
    pub inputs: Vec<ValueId>,
    pub outputs: Vec<ValueId>,
    pub kind: PrimitiveKind,
}

/// One emitted kernel of a fragment: its identity, tensors, aliasing rules
/// and kind.
#[derive(Clone, Debug)]
pub struct CalculationNode {
    pub kernel: KernelTemplateId,
    pub inputs: Vec<ValueId>,
    pub outputs: Vec<ValueId>,
    pub alias_rules: Vec<AliasRule>,
    pub kind: PrimitiveKind,
}

/// The node emitted for `emission` under kernel identity `kernel`: no
/// output may alias any input.
pub open spec fn node_of(node: CalculationNode, kernel: KernelTemplateId, emission: KernelEmission) -> bool {
    &&& node.kernel == kernel
    &&& node.inputs@ == emission.inputs@
    &&& node.outputs@ == emission.outputs@
    &&& node.alias_rules@ == forbidden_alias_rules(
        emission.inputs@.len(),
        emission.outputs@.len(),
    )
    &&& node.kind == emission.kind
}

/// Every emission's alias table fits `usize`.
pub open spec fn emissions_bounded(emissions: Seq<KernelEmission>) -> bool {
    forall|i: int|
        0 <= i < emissions.len() ==> (#[trigger] emissions[i]).inputs@.len() * emissions[i].outputs@.len()
            <= usize::MAX
}

/// Emits exactly one stage per resolved step, in order, each ending in a
/// kernel of the step's primitive family.
pub struct StageEmitter {
    ledger: GraphLedger,
    families: Vec<PrimitiveFamily>,
    stages: Vec<StageEmission>,
    nodes: Vec<CalculationNode>,
    primaries: Ghost<Seq<PrimitiveFamily>>,
}

impl StageEmitter {
    pub closed spec fn ledger(self) -> GraphLedger {
        self.ledger
    }

    /// Primitive families of the resolved steps, in order.
    pub closed spec fn families(self) -> Seq<PrimitiveFamily> {
        self.families@
    }

    /// Stages emitted so far.
    pub closed spec fn stages(self) -> Seq<StageEmission> {
        self.stages@
    }

    /// Kernels emitted so far, in emission order.
    pub closed spec fn nodes(self) -> Seq<CalculationNode> {
        self.nodes@
    }

    /// Family of the last kernel of each emitted stage.
    pub closed spec fn primaries(self) -> Seq<PrimitiveFamily> {
        self.primaries@
    }

    /// Stage `i` belongs to resolved step `i`, ends in a kernel of that step's
    /// family, and no more stages than steps were emitted.
    pub closed spec fn wf(self) -> bool {
        &&& self.ledger.wf()
        &&& self.stages@.len() <= self.families@.len()
        &&& self.primaries@.len() == self.stages@.len()
        &&& forall|i: int|
            0 <= i < self.stages@.len() ==> (#[trigger] self.stages@[i]).step == i
                && self.stages@[i].kernels@.len() > 0 && self.primaries@[i] == self.families@[i]
    }

    /// Start emitting the stages of a resolved composition.
    pub fn new(ledger: GraphLedger, resolved: &ResolvedComposition) -> (emitter: Self)
        requires
            ledger.wf(),
        ensures
            emitter.wf(),
            emitter.ledger() == ledger,
            emitter.stages().len() == 0,
            emitter.nodes().len() == 0,
            emitter.families().len() == resolved.steps@.len(),
            forall|i: int|
                0 <= i < resolved.steps@.len() ==> #[trigger] emitter.families()[i]
                    == resolved.steps@[i].family,
    {
        let mut families: Vec<PrimitiveFamily> = Vec::new();
        let mut index: usize = 0;
        while index < resolved.steps.len()
            invariant
                index <= resolved.steps@.len(),
                families@.len() == index,
                forall|i: int| 0 <= i < index ==> #[trigger] families@[i] == resolved.steps@[i].family,
            decreases resolved.steps.len() - index,
        {
            families.push(resolved.steps[index].family);
            index = index + 1;
        }
        StageEmitter {
            ledger,
            families,
            stages: Vec::new(),
            nodes: Vec::new(),
            primaries: Ghost(Seq::empty()),
        }
    }

    /// Reserve an intermediate value through the ledger.
    pub fn intermediate(&mut self, bytes: u64) -> (value: OperationResult<ValueId>)
        requires
            old(self).wf(),
        ensures
            final(self).wf(),
            final(self).stages() == old(self).stages(),
            final(self).nodes() == old(self).nodes(),
            final(self).families() == old(self).families(),
            final(self).ledger().namespace() == old(self).ledger().namespace(),
            final(self).ledger().kernels() == old(self).ledger().kernels(),
            final(self).ledger().limit() == old(self).ledger().limit(),
            value is Ok <==> (old(self).ledger().intermediates().len() < old(self).ledger().namespace().value_capacity && old(self).ledger().workspace() + bytes <= old(self).ledger().limit()),
            value matches Ok(id) ==> id.0 == old(self).ledger().namespace().first_value.0 + old(
                self,
            ).ledger().intermediates().len() && final(self).ledger().intermediates()
                == old(self).ledger().intermediates().push(id) && final(self).ledger().workspace()
                == old(self).ledger().workspace() + bytes,
            value is Err ==> final(self).ledger().intermediates() == old(self).ledger().intermediates()
                && final(self).ledger().workspace() == old(self).ledger().workspace(),
    {
        self.ledger.intermediate(bytes)
    }

    /// Emit the kernels of the next stage, in order. The stage must end in a
    /// kernel of the next resolved step's primitive family.
    pub fn emit_stage(&mut self, kernels: Vec<KernelEmission>) -> (result: OperationResult<()>)
        requires
            old(self).wf(),
            emissions_bounded(kernels@),
        ensures
            final(self).wf(),
            final(self).families() == old(self).families(),
            final(self).ledger().namespace() == old(self).ledger().namespace(),
            final(self).ledger().intermediates() == old(self).ledger().intermediates(),
            final(self).ledger().workspace() == old(self).ledger().workspace(),
            final(self).ledger().limit() == old(self).ledger().limit(),
            old(self).stages().len() == old(self).families().len() ==> (result matches Err(error)
                && error.kind == OperationErrorKind::GraphMaterializationFailed),
            old(self).stages().len() < old(self).families().len() && kernels@.len() == 0 ==> (
            result matches Err(error) && error.kind == OperationErrorKind::GraphMaterializationFailed),
            old(self).stages().len() < old(self).families().len() && kernels@.len() > 0
                && kind_family(kernels@.last().kind) != old(self).families()[old(self).stages().len() as int]
                ==> (result matches Err(error) && error.kind
                == OperationErrorKind::GraphMaterializationFailed),
            result is Ok <==> (old(self).stages().len() < old(self).families().len()
                && kernels@.len() > 0 && kind_family(kernels@.last().kind) == old(self).families()[old(self).stages().len() as int] && old(self).ledger().kernels().len() + kernels@.len()
                <= old(self).ledger().namespace().kernel_capacity),
            old(self).stages().len() < old(self).families().len() && kernels@.len() > 0 && kind_family(
                kernels@.last().kind,
            ) == old(self).families()[old(self).stages().len() as int] ==> (result matches Err(error)
                ==> error.kind == OperationErrorKind::IdentityNamespaceExhausted),
            result is Ok ==> {
                let step = old(self).stages().len();
                let first = old(self).nodes().len();
                let stage = final(self).stages()[step as int];
                &&& final(self).stages().len() == step + 1
                &&& final(self).stages().subrange(0, step as int) == old(self).stages()
                &&& stage.step == step
                &&& stage.kernels@.len() == kernels@.len()
                &&& final(self).ledger().kernels() == old(self).ledger().kernels() + stage.kernels@
                &&& final(self).nodes().len() == first + kernels@.len()
                &&& final(self).nodes().subrange(0, first as int) == old(self).nodes()
                &&& forall|j: int|
                    0 <= j < kernels@.len() ==> {
                        &&& (#[trigger] stage.kernels@[j]).0 == old(self).ledger().namespace().first_kernel.0
                            + old(self).ledger().kernels().len() + j
                        &&& node_of(final(self).nodes()[first + j], stage.kernels@[j], kernels@[j])
                    }
            },
            result is Err ==> final(self).stages() == old(self).stages(),
    {
        let step = self.stages.len();
        if step >= self.families.len() {
            return Err(
                OperationError::new(
                    OperationErrorKind::GraphMaterializationFailed,
                    "concrete materializer emitted more kernels than the resolved recipe",
                ),
            );
        }
        if kernels.len() == 0 {
            return Err(
                OperationError::new(
                    OperationErrorKind::GraphMaterializationFailed,
                    "a resolved stage cannot emit an empty kernel sequence",
                ),
            );
        }
        let primary = primitive_family(&kernels[kernels.len() - 1].kind);
        if primary != self.families[step] {
            return Err(
                OperationError::new(
                    OperationErrorKind::GraphMaterializationFailed,
                    "the stage's concrete kernel differs from the resolved step's family",
                ),
            );
        }
        let ghost requested = kernels@;
        let ghost first_node = self.nodes@.len();
        let mut pending = kernels;
        let mut emitted: Vec<KernelTemplateId> = Vec::new();
        let mut index: usize = 0;
        while pending.len() > 0
            invariant
                index <= requested.len(),
                requested == kernels@,
                kernels.len() == requested.len(),
                pending@ == requested.subrange(index as int, requested.len() as int),
                emitted@.len() == index,
                emissions_bounded(requested),
                self.wf(),
                old(self).stages@.len() < old(self).families@.len(),
                step == old(self).stages@.len(),
                primary == old(self).families@[step as int],
                requested.len() > 0,
                primary == kind_family(requested.last().kind),
                self.stages@ == old(self).stages@,
                self.families@ == old(self).families@,
                self.primaries@ == old(self).primaries@,
                self.ledger.kernels() == old(self).ledger.kernels() + emitted@,
                self.ledger.namespace() == old(self).ledger.namespace(),
                self.ledger.intermediates() == old(self).ledger.intermediates(),
                self.ledger.workspace() == old(self).ledger.workspace(),
                self.ledger.limit() == old(self).ledger.limit(),
                first_node == old(self).nodes@.len(),
                self.nodes@.len() == first_node + index,
                self.nodes@.subrange(0, first_node as int) == old(self).nodes@,
                forall|j: int|
                    0 <= j < index ==> {
                        &&& (#[trigger] emitted@[j]).0 == old(self).ledger().namespace().first_kernel.0
                            + old(self).ledger().kernels().len() + j
                        &&& node_of(self.nodes@[first_node + j], emitted@[j], requested[j])
                    },
            decreases pending.len(),
        {
            assert(index < requested.len());
            let emission = pending.remove(0);
            assert(emission == requested[index as int]);
            let ghost before_kernels = self.ledger.kernels();
            let kernel = match self.ledger.emit_kernel() {
                Ok(kernel) => kernel,
                Err(error) => {
                    proof {
                        assert(old(self).ledger().kernels().len() + index == old(
                            self,
                        ).ledger().namespace().kernel_capacity);
                    }
                    return Err(error);
                },
            };
            let alias_rules = forbidden_aliases(emission.inputs.len(), emission.outputs.len());
            let ghost before_nodes = self.nodes@;
            self.nodes.push(
                CalculationNode {
                    kernel,
                    inputs: emission.inputs,
                    outputs: emission.outputs,
                    alias_rules,
                    kind: emission.kind,
                },
            );
            emitted.push(kernel);
            proof {
                assert(self.ledger.kernels() =~= old(self).ledger.kernels() + emitted@);
                assert(self.nodes@.subrange(0, first_node as int) =~= before_nodes.subrange(
                    0,
                    first_node as int,
                ));
                assert forall|j: int| 0 <= j < index + 1 implies {
                    &&& (#[trigger] emitted@[j]).0 == old(self).ledger().namespace().first_kernel.0
                        + old(self).ledger().kernels().len() + j
                    &&& node_of(self.nodes@[first_node + j], emitted@[j], requested[j])
                } by {
                    if j < index {
                        assert(self.nodes@[first_node + j] == before_nodes[first_node + j]);
                    }
                }
                assert(pending@ =~= requested.subrange(index + 1, requested.len() as int));
            }
            index = index + 1;
        }
        assert(index == requested.len());
        let ghost emitted_view = emitted@;
        self.stages.push(StageEmission { step, kernels: emitted });
        self.primaries = Ghost(self.primaries@.push(primary));
        proof {
            assert forall|i: int| 0 <= i < self.stages@.len() implies (#[trigger] self.stages@[i]).step
                == i && self.stages@[i].kernels@.len() > 0 && self.primaries@[i]
                == self.families@[i] by {
                if i < step {
                    assert(self.stages@[i] == old(self).stages@[i]);
                    assert(old(self).stages@[i].step == i);
                }
            }
            assert(self.stages@.subrange(0, step as int) =~= old(self).stages@);
            assert(self.stages@[step as int].kernels@ == emitted_view);
        }
        Ok(())
    }

    /// Emit a stage of one kernel.
    pub fn emit(&mut self, inputs: Vec<ValueId>, outputs: Vec<ValueId>, kind: PrimitiveKind) -> (result:
        OperationResult<()>)
        requires
            old(self).wf(),
            inputs@.len() * outputs@.len() <= usize::MAX,
        ensures
            final(self).wf(),
            final(self).families() == old(self).families(),
            final(self).ledger().namespace() == old(self).ledger().namespace(),
            final(self).ledger().intermediates() == old(self).ledger().intermediates(),
            final(self).ledger().workspace() == old(self).ledger().workspace(),
            final(self).ledger().limit() == old(self).ledger().limit(),
            result is Ok <==> (old(self).stages().len() < old(self).families().len() && kind_family(kind)
                == old(self).families()[old(self).stages().len() as int] && old(self).ledger().kernels().len()
                < old(self).ledger().namespace().kernel_capacity),
            result matches Err(error) ==> error.kind == if old(self).stages().len() < old(self).families().len()
                && kind_family(kind) == old(self).families()[old(self).stages().len() as int] {
                OperationErrorKind::IdentityNamespaceExhausted
            } else {
                OperationErrorKind::GraphMaterializationFailed
            },
            result is Ok ==> {
                let kernel = KernelTemplateId(
                    (old(self).ledger().namespace().first_kernel.0 + old(self).ledger().kernels().len()) as u64,
                );
                &&& final(self).stages().len() == old(self).stages().len() + 1
                &&& final(self).ledger().kernels() == old(self).ledger().kernels().push(kernel)
                &&& final(self).nodes().len() == old(self).nodes().len() + 1
                &&& final(self).nodes().subrange(0, old(self).nodes().len() as int) == old(self).nodes()
                &&& final(self).nodes().last().kernel == kernel
                &&& final(self).nodes().last().inputs@ == inputs@
                &&& final(self).nodes().last().outputs@ == outputs@
                &&& final(self).nodes().last().alias_rules@ == forbidden_alias_rules(
                    inputs@.len(),
                    outputs@.len(),
                )
                &&& final(self).nodes().last().kind == kind
            },
            result is Err ==> final(self).stages() == old(self).stages(),
    {
        let ghost emission = KernelEmission { inputs, outputs, kind };
        let kernels = vec![KernelEmission { inputs, outputs, kind }];
        assert(kernels@[0] == emission);
        let result = self.emit_stage(kernels);
        proof {
            if result is Ok {
                let step = old(self).stages().len();
                let stage = self.stages()[step as int];
                assert(node_of(self.nodes()[old(self).nodes().len() as int], stage.kernels@[0], emission));
                assert(stage.kernels@ =~= seq![stage.kernels@[0]]);
            }
        }
        result
    }

    /// Close the emission, refusing one that left resolved steps unemitted.
    pub fn finish(self) -> (result: OperationResult<(GraphLedger, Vec<StageEmission>, Vec<CalculationNode>)>)
        requires
            self.wf(),
        ensures
            result is Ok <==> self.stages().len() == self.families().len(),
            result matches Err(error) ==> error.kind == OperationErrorKind::GraphMaterializationFailed,
            result matches Ok((ledger, stages, nodes)) ==> ledger == self.ledger() && stages@ == self.stages()
                && nodes@ == self.nodes(),
    {
        if self.stages.len() != self.families.len() {
            return Err(
                OperationError::new(
                    OperationErrorKind::GraphMaterializationFailed,
                    "concrete materializer emitted fewer stages than resolved steps",
                ),
            );
        }
        Ok((self.ledger, self.stages, self.nodes))
    }

    /// A well-formed emitter holds a well-formed ledger.
    pub proof fn lemma_ledger_wf(self)
        requires
            self.wf(),
        ensures
            self.ledger().wf(),
    {
    }

    /// A well-formed emitter has emitted no more stages than resolved steps.
    pub proof fn lemma_within_steps(self)
        requires
            self.wf(),
        ensures
            self.stages().len() <= self.families().len(),
    {
    }

    /// In a finished emission every resolved step has exactly one nonempty
    /// stage, in order, whose last kernel has the step's primitive family.
    pub proof fn lemma_complete_emission(self)
        requires
            self.wf(),
            self.stages().len() == self.families().len(),
        ensures
            forall|i: int|
                0 <= i < self.families().len() ==> (#[trigger] self.stages()[i]).step == i
                    && self.stages()[i].kernels@.len() > 0 && self.primaries()[i] == self.families()[i],
    {
    }
}

/// A kernel kind as a value: the parameters of each primitive kind, with
/// lists as sequences.
pub enum KindModel {
    Elementwise,
    Reduce {
        operator: ReduceOperator,
        result: ReduceResult,
        axes: Seq<usize>,
        keep_dimensions: bool,
        tree_lanes: u32,
    },
    Scan(ScanSpec),
    Contraction { batch_axes: Seq<(usize, usize)>, contract_axes: Seq<(usize, usize)> },
    Gather(GatherSpec),
    Scatter(ScatterSpec),
    Histogram(HistogramSpec),
    Sort(SortSpec),
    IndexMap(IndexMapSpec),
    Random(RandomDistribution),
}

/// A kernel as a value: the tensors it reads and writes and its kind.
pub struct NodeModel {
    pub inputs: Seq<ValueId>,
    pub outputs: Seq<ValueId>,
    pub kind: KindModel,
}

/// The value of a kernel kind.
pub open spec fn kind_model(kind: PrimitiveKind) -> KindModel {
    match kind {
        PrimitiveKind::Elementwise => KindModel::Elementwise,
        PrimitiveKind::Reduce(spec) => KindModel::Reduce {
            operator: spec.operator,
            result: spec.result,
            axes: spec.axes@,
            keep_dimensions: spec.keep_dimensions,
            tree_lanes: spec.tree_lanes,
        },
        PrimitiveKind::Scan(spec) => KindModel::Scan(spec),
        PrimitiveKind::Contraction(spec) => KindModel::Contraction {
            batch_axes: spec.batch_axes@,
            contract_axes: spec.contract_axes@,
        },
        PrimitiveKind::Gather(spec) => KindModel::Gather(spec),
        PrimitiveKind::Scatter(spec) => KindModel::Scatter(spec),
        PrimitiveKind::Histogram(spec) => KindModel::Histogram(spec),
        PrimitiveKind::Sort(spec) => KindModel::Sort(spec),
        PrimitiveKind::IndexMap(spec) => KindModel::IndexMap(spec),
        PrimitiveKind::Random(distribution) => KindModel::Random(distribution),
    }
}

/// The primitive family of a kind value.
pub open spec fn model_family(kind: KindModel) -> PrimitiveFamily {
    match kind {
        KindModel::Elementwise => PrimitiveFamily::Elementwise,
        KindModel::Reduce { .. } => PrimitiveFamily::Reduce,
        KindModel::Scan(_) => PrimitiveFamily::Scan,
        KindModel::Contraction { .. } => PrimitiveFamily::Contraction,
        KindModel::Gather(_) => PrimitiveFamily::Gather,
        KindModel::Scatter(_) => PrimitiveFamily::Scatter,
        KindModel::Histogram(_) => PrimitiveFamily::Histogram,
        KindModel::Sort(_) => PrimitiveFamily::Sort,
        KindModel::IndexMap(_) => PrimitiveFamily::IndexMap,
        KindModel::Random(_) => PrimitiveFamily::Random,
    }
}

/// The value of a requested kernel.
pub open spec fn emission_model(emission: KernelEmission) -> NodeModel {
    NodeModel { inputs: emission.inputs@, outputs: emission.outputs@, kind: kind_model(emission.kind) }
}

/// The value of an emitted kernel.
pub open spec fn node_model(node: CalculationNode) -> NodeModel {
    NodeModel { inputs: node.inputs@, outputs: node.outputs@, kind: kind_model(node.kind) }
}

/// The values of one requested stage.
pub open spec fn stage_view(stage: Vec<KernelEmission>) -> Seq<NodeModel> {
    stage@.map_values(|emission: KernelEmission| emission_model(emission))
}

/// The values of a list of requested stages.
pub open spec fn plan_view(stages: Seq<Vec<KernelEmission>>) -> Seq<Seq<NodeModel>> {
    stages.map_values(|stage: Vec<KernelEmission>| stage_view(stage))
}

/// Taking the values of a part of the stages is taking that part of their
/// values.
pub proof fn lemma_plan_view_subrange(stages: Seq<Vec<KernelEmission>>, start: int, end: int)
    requires
        0 <= start <= end <= stages.len(),
    ensures
        plan_view(stages.subrange(start, end)) == plan_view(stages).subrange(start, end),
{
    assert(plan_view(stages.subrange(start, end)) =~= plan_view(stages).subrange(start, end));
}

/// The kernels of a list of stages, in emission order.
pub open spec fn plan_kernels(stages: Seq<Seq<NodeModel>>) -> Seq<NodeModel>
    decreases stages.len(),
{
    if stages.len() == 0 {
        Seq::empty()
    } else {
        plan_kernels(stages.drop_last()) + stages.last()
    }
}

/// The kernels of a prefix of the stages are a prefix of the kernels of
/// all stages.
pub proof fn lemma_plan_prefix(stages: Seq<Seq<NodeModel>>, count: int)
    requires
        0 <= count <= stages.len(),
    ensures
        plan_kernels(stages.subrange(0, count)).len() <= plan_kernels(stages).len(),
    decreases stages.len() - count,
{
    if count < stages.len() {
        lemma_plan_prefix(stages, count + 1);
        let longer = stages.subrange(0, count + 1);
        assert(longer.drop_last() =~= stages.subrange(0, count));
    } else {
        assert(stages.subrange(0, count) =~= stages);
    }
}

/// The emitter can take every stage of the plan: each stage is nonempty and
/// ends in a kernel of the next resolved step's family, and the namespace
/// holds all their kernels.
pub open spec fn plan_room(emitter: StageEmitter, stages: Seq<Seq<NodeModel>>) -> bool {
    let next = emitter.stages().len();
    &&& next + stages.len() <= emitter.families().len()
    &&& forall|i: int|
        0 <= i < stages.len() ==> (#[trigger] stages[i]).len() > 0 && emitter.families()[next + i]
            == model_family(stages[i].last().kind)
    &&& emitter.ledger().kernels().len() + plan_kernels(stages).len()
        <= emitter.ledger().namespace().kernel_capacity
}

/// The `j`-th kernel identity an emitter hands out after its current ones.
pub open spec fn kernel_after(emitter: StageEmitter, j: int) -> KernelTemplateId {
    KernelTemplateId(
        (emitter.ledger().namespace().first_kernel.0 + emitter.ledger().kernels().len() + j) as u64,
    )
}

/// `after` extends `before` with one node per planned kernel, of the
/// planned tensors and kind, under consecutive kernel identities and with
/// every aliasing forbidden, and with one stage per planned stage.
pub open spec fn plan_emitted(before: StageEmitter, after: StageEmitter, stages: Seq<Seq<NodeModel>>) -> bool {
    let first = before.nodes().len();
    let kernels = plan_kernels(stages);
    &&& after.stages().len() == before.stages().len() + stages.len()
    &&& after.nodes().len() == first + kernels.len()
    &&& after.nodes().subrange(0, first as int) == before.nodes()
    &&& forall|j: int|
        0 <= j < kernels.len() ==> {
            let node = #[trigger] after.nodes()[first + j];
            &&& node.kernel == kernel_after(before, j)
            &&& node_model(node) == kernels[j]
            &&& node.alias_rules@ == forbidden_alias_rules(kernels[j].inputs.len(), kernels[j].outputs.len())
        }
}

/// Every planned kernel's alias table fits `usize`.
pub open spec fn plan_bounded(stages: Seq<Seq<NodeModel>>) -> bool {
    forall|i: int, j: int|
        0 <= i < stages.len() && 0 <= j < stages[i].len() ==> (#[trigger] stages[i][j]).inputs.len()
            * stages[i][j].outputs.len() <= usize::MAX
}

impl StageEmitter {
    /// Emit every stage of a plan, in order.
    pub fn emit_plan(&mut self, stages: Vec<Vec<KernelEmission>>) -> (result: OperationResult<()>)
        requires
            old(self).wf(),
            plan_bounded(plan_view(stages@)),
        ensures
            final(self).wf(),
            final(self).families() == old(self).families(),
            final(self).ledger().namespace() == old(self).ledger().namespace(),
            final(self).ledger().intermediates() == old(self).ledger().intermediates(),
            final(self).ledger().workspace() == old(self).ledger().workspace(),
            final(self).ledger().limit() == old(self).ledger().limit(),
            result is Ok <==> plan_room(*old(self), plan_view(stages@)),
            result is Ok ==> plan_emitted(*old(self), *final(self), plan_view(stages@)),
            result is Ok ==> final(self).ledger().kernels().len() == old(self).ledger().kernels().len()
                + plan_kernels(plan_view(stages@)).len(),
            result is Err ==> final(self).stages().len() >= old(self).stages().len(),
    {
        let ghost start = *self;
        let ghost plan = plan_view(stages@);
        let mut pending = stages;
        let mut index: usize = 0;
        proof {
            assert(plan.subrange(0, 0) =~= Seq::<Seq<NodeModel>>::empty());
            assert(self.nodes().subrange(0, start.nodes().len() as int) =~= start.nodes());
        }
        while pending.len() > 0
            invariant
                index <= plan.len(),
                plan_view(pending@) == plan.subrange(index as int, plan.len() as int),
                plan == plan_view(stages@),
                plan.len() == stages@.len(),
                stages.len() == stages@.len(),
                plan_bounded(plan),
                self.wf(),
                self.families() == start.families(),
                self.ledger().namespace() == start.ledger().namespace(),
                self.ledger().intermediates() == start.ledger().intermediates(),
                self.ledger().workspace() == start.ledger().workspace(),
                self.ledger().limit() == start.ledger().limit(),
                start == *old(self),
                self.stages().len() == start.stages().len() + index,
                self.ledger().kernels().len() == start.ledger().kernels().len() + plan_kernels(
                    plan.subrange(0, index as int),
                ).len(),
                forall|i: int|
                    0 <= i < index ==> (#[trigger] plan[i]).len() > 0 && start.families()[start.stages().len() + i]
                        == model_family(plan[i].last().kind),
                plan_emitted(start, *self, plan.subrange(0, index as int)),
            decreases pending.len(),
        {
            assert(index < plan.len()) by {
                assert(plan_view(pending@).len() == pending@.len());
            }
            let ghost old_pending = pending@;
            let stage = pending.remove(0);
            let ghost stage_model = stage_view(stage);
            proof {
                assert(plan_view(old_pending)[0] == stage_model);
                assert(plan.subrange(index as int, plan.len() as int)[0] == plan[index as int]);
                assert(pending@ =~= old_pending.subrange(1, old_pending.len() as int));
                assert(plan_view(pending@) =~= plan.subrange(index + 1, plan.len() as int)) by {
                    lemma_plan_view_subrange(old_pending, 1, old_pending.len() as int);
                    let tail = plan.subrange(index as int, plan.len() as int);
                    assert(plan_view(old_pending) == tail);
                    assert(old_pending.len() == tail.len());
                    assert(tail.subrange(1, tail.len() as int) =~= plan.subrange(index + 1, plan.len() as int));
                    assert(plan_view(old_pending).subrange(1, old_pending.len() as int) =~= plan.subrange(
                        index + 1,
                        plan.len() as int,
                    ));
                }
                assert(stage_model == plan[index as int]);
                assert forall|i: int| 0 <= i < stage@.len() implies (#[trigger] stage@[i]).inputs@.len()
                    * stage@[i].outputs@.len() <= usize::MAX by {
                    assert(plan[index as int][i] == emission_model(stage@[i]));
                }
                if stage@.len() > 0 {
                    assert(model_family(stage_model.last().kind) == kind_family(stage@.last().kind));
                }
            }
            let ghost before = *self;
            let ghost done = plan.subrange(0, index as int);
            let ghost grown = plan.subrange(0, index + 1);
            proof {
                assert(grown.drop_last() =~= done);
                assert(plan_kernels(grown) == plan_kernels(done) + plan[index as int]);
            }
            match self.emit_stage(stage) {
                Ok(()) => {},
                Err(error) => {
                    proof {
                        if plan_room(start, plan) {
                            lemma_plan_prefix(plan, index + 1);
                            assert(plan[index as int].len() > 0);
                        }
                    }
                    return Err(error);
                },
            }
            proof {
                let first = start.nodes().len();
                let done_kernels = plan_kernels(done);
                let stage_kernels = plan[index as int];
                let all = plan_kernels(grown);
                assert(all == done_kernels + stage_kernels);
                assert(self.nodes().subrange(0, first as int) =~= start.nodes()) by {
                    assert(self.nodes().subrange(0, before.nodes().len() as int) == before.nodes());
                    assert(before.nodes().subrange(0, first as int) == start.nodes());
                }
                assert forall|j: int| 0 <= j < all.len() implies {
                    let node = #[trigger] self.nodes()[first + j];
                    &&& node.kernel == kernel_after(start, j)
                    &&& node_model(node) == all[j]
                    &&& node.alias_rules@ == forbidden_alias_rules(all[j].inputs.len(), all[j].outputs.len())
                } by {
                    if j < done_kernels.len() {
                        assert(self.nodes().subrange(0, before.nodes().len() as int) == before.nodes());
                        assert(self.nodes()[first + j] == before.nodes()[first + j]);
                        assert(all[j] == done_kernels[j]);
                    } else {
                        let k = j - done_kernels.len();
                        let new_stage = self.stages()[before.stages().len() as int];
                        assert(all[j] == stage_kernels[k]);
                        assert(stage_kernels[k] == emission_model(stage@[k]));
                        assert(node_of(self.nodes()[before.nodes().len() + k], new_stage.kernels@[k], stage@[k]));
                        assert(new_stage.kernels@[k].0 == before.ledger().namespace().first_kernel.0
                            + before.ledger().kernels().len() + k);
                    }
                }
                assert(plan_emitted(start, *self, grown));
                assert(pending@.len() == plan_view(pending@).len());
            }
            index = index + 1;
        }
        proof {
            assert(plan_view(pending@).len() == pending@.len());
            assert(plan.subrange(0, index as int) =~= plan);
        }
        Ok(())
    }
}

} // verus!
