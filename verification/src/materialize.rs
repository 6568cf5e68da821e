//! The top-level entry point: validate a request, refuse an operation
//! without a concrete materializer, expand its recipe, hand it to the family
//! that owns its source-qualified row and close a checked workspace
//! allocation.
use vstd::prelude::*;

use crate::error::{OperationError, OperationErrorKind, OperationResult};
use crate::expansion::{ResolvedComposition, ResolvedModel, StepModel, expand_composition, expand_composition_spec};
use crate::loss_metrics::{loss_metric_of, loss_outcome};
use crate::training::{training_outcome};
use crate::tree_split::{tree_split_outcome, tree_split_rows};
use crate::fragment::{CalculationNode, GraphLedger, StageEmission, StageEmitter, total_bytes};
use crate::identity::IdentityNamespace;
use crate::registry::{has_concrete_materializer, has_concrete_materializer_spec, loss_metric_rows, training_rows};
use crate::graph::{copy_tensor, tensor_model, tensor_models};
use crate::request::{MaterializationRequest, NamedTensor, TensorDecl, first_named};
use crate::training::FamilyDispatch;
use crate::types::{ByteCount, OperationId, ValueId};

verus! {

/// One intermediate tensor reserved before the run: its identity and its
/// storage bytes.
#[derive(Clone, Copy, Debug, PartialEq, Eq)]
pub struct WorkspaceObject {
    pub value: ValueId,
    pub bytes: ByteCount,
}

/// Checked, exact scratch reservation for the emitted kernels.
#[derive(Debug)]
pub struct WorkspaceAllocation {
    pub objects: Vec<WorkspaceObject>,
    pub bytes: ByteCount,
}

/// Fully concrete, validated output of composition preparation.
#[derive(Debug)]
pub struct MaterializedComposition {
    pub operation: OperationId,
    pub boundary_tensors: Vec<TensorDecl>,
    pub nodes: Vec<CalculationNode>,
    pub resolved: ResolvedComposition,
    pub stages: Vec<StageEmission>,
    pub workspace: WorkspaceAllocation,
    pub identity_namespace: IdentityNamespace,
}

impl WorkspaceObject {
    #[must_use]
    pub fn value(&self) -> (value: ValueId)
        ensures
            value == self.value,
    {
        self.value
    }

    #[must_use]
    pub fn bytes(&self) -> (bytes: ByteCount)
        ensures
            bytes == self.bytes,
    {
        self.bytes
    }
}

impl WorkspaceAllocation {
    #[must_use]
    pub fn objects(&self) -> (objects: &[WorkspaceObject])
        ensures
            objects@ == self.objects@,
    {
        self.objects.as_slice()
    }

    #[must_use]
    pub fn bytes(&self) -> (bytes: ByteCount)
        ensures
            bytes == self.bytes,
    {
        self.bytes
    }
}

impl MaterializedComposition {
    #[must_use]
    pub fn operation(&self) -> (operation: OperationId)
        ensures
            operation == self.operation,
    {
        self.operation
    }

    /// The request's boundary declarations, inputs first.
    #[must_use]
    pub fn boundary_tensors(&self) -> (tensors: &[TensorDecl])
        ensures
            tensors@ == self.boundary_tensors@,
    {
        self.boundary_tensors.as_slice()
    }

    /// The emitted kernels, in emission order.
    #[must_use]
    pub fn nodes(&self) -> (nodes: &[CalculationNode])
        ensures
            nodes@ == self.nodes@,
    {
        self.nodes.as_slice()
    }

    #[must_use]
    pub fn resolved(&self) -> (resolved: &ResolvedComposition)
        ensures
            resolved == &self.resolved,
    {
        &self.resolved
    }

    #[must_use]
    pub fn stages(&self) -> (stages: &[StageEmission])
        ensures
            stages@ == self.stages@,
    {
        self.stages.as_slice()
    }

    #[must_use]
    pub fn workspace(&self) -> (workspace: &WorkspaceAllocation)
        ensures
            workspace == &self.workspace,
    {
        &self.workspace
    }

    #[must_use]
    pub fn identity_namespace(&self) -> (namespace: IdentityNamespace)
        ensures
            namespace == self.identity_namespace,
    {
        self.identity_namespace
    }
}

/// Sum of the storage bytes of workspace objects.
pub open spec fn objects_total(objects: Seq<WorkspaceObject>) -> int {
    total_bytes(objects.map_values(|object: WorkspaceObject| object.bytes.0))
}

/// Identities of the request's boundary tensors: inputs, then outputs.
pub open spec fn declared_ids(request: MaterializationRequest) -> Seq<ValueId> {
    (request.inputs@ + request.outputs@).map_values(|named: NamedTensor| named.tensor.id)
}

/// What materialization decides before any family emits a kernel: the
/// refusal of an invalid request, of an operation without a concrete
/// materializer, of a missing iteration shape, of a failed expansion and of
/// an unusable identity namespace, in that order; otherwise the resolved
/// composition.
pub open spec fn materialization_verdict(request: MaterializationRequest) -> Result<
    ResolvedModel,
    OperationErrorKind,
> {
    if !request.boundary_valid() {
        Err(
            if request.descriptor.lowering is Composition {
                OperationErrorKind::InvalidMaterializationRequest
            } else {
                OperationErrorKind::WrongLoweringKind
            },
        )
    } else if !has_concrete_materializer_spec(request.descriptor.symbol@, request.descriptor.source@) {
        Err(OperationErrorKind::MissingConcreteFormula)
    } else {
        match first_named(request.inputs@, request.iteration_shape_input@) {
            None => Err(OperationErrorKind::InvalidMaterializationRequest),
            Some(iteration) => match expand_composition_spec(
                request.descriptor,
                iteration.extents@,
                request.parameters,
            ) {
                Err(kind) => Err(kind),
                Ok(model) => if !request.identity_namespace.fits() {
                    Err(OperationErrorKind::IdentityNamespaceExhausted)
                } else if GraphLedger::declared_overlaps(request.identity_namespace, declared_ids(request)) {
                    Err(OperationErrorKind::IdentityNamespaceOverlap)
                } else {
                    Ok(model)
                },
            },
        }
    }
}

/// The request's boundary declarations: inputs, then outputs.
pub open spec fn declared_tensors(request: MaterializationRequest) -> Seq<TensorDecl> {
    (request.inputs@ + request.outputs@).map_values(|named: NamedTensor| named.tensor)
}

/// Copies of the request's boundary declarations, inputs first.
fn boundary_declarations(request: &MaterializationRequest) -> (tensors: Vec<TensorDecl>)
    ensures
        tensor_models(tensors@) == tensor_models(declared_tensors(*request)),
{
    let ghost goal = tensor_models(declared_tensors(*request));
    let ghost all = request.inputs@ + request.outputs@;
    let mut tensors: Vec<TensorDecl> = Vec::new();
    let mut index: usize = 0;
    while index < request.inputs.len()
        invariant
            index <= request.inputs@.len(),
            all == request.inputs@ + request.outputs@,
            goal == tensor_models(declared_tensors(*request)),
            goal.len() == all.len(),
            tensor_models(tensors@) == goal.subrange(0, index as int),
        decreases request.inputs.len() - index,
    {
        let ghost before = tensors@;
        let copy = copy_tensor(&request.inputs[index].tensor);
        tensors.push(copy);
        assert(all[index as int] == request.inputs@[index as int]);
        assert(tensor_models(tensors@) =~= tensor_models(before).push(tensor_model(copy)));
        assert(goal.subrange(0, index + 1) =~= goal.subrange(0, index as int).push(goal[index as int]));
        index = index + 1;
    }
    let start = request.inputs.len();
    let mut index: usize = 0;
    while index < request.outputs.len()
        invariant
            index <= request.outputs@.len(),
            start == request.inputs@.len(),
            all == request.inputs@ + request.outputs@,
            goal == tensor_models(declared_tensors(*request)),
            goal.len() == all.len(),
            tensor_models(tensors@) == goal.subrange(0, start + index),
        decreases request.outputs.len() - index,
    {
        let ghost before = tensors@;
        let copy = copy_tensor(&request.outputs[index].tensor);
        tensors.push(copy);
        assert(all[start + index] == request.outputs@[index as int]);
        assert(tensor_models(tensors@) =~= tensor_models(before).push(tensor_model(copy)));
        assert(goal.subrange(0, start + index + 1) =~= goal.subrange(0, start + index).push(goal[start + index]));
        index = index + 1;
    }
    assert(goal.subrange(0, goal.len() as int) =~= goal);
    tensors
}

/// The boundary tensor identities of a request, inputs first.
fn boundary_ids(request: &MaterializationRequest) -> (ids: Vec<ValueId>)
    ensures
        ids@ == declared_ids(*request),
{
    let ghost all = request.inputs@ + request.outputs@;
    let mut ids: Vec<ValueId> = Vec::new();
    let mut index: usize = 0;
    while index < request.inputs.len()
        invariant
            index <= request.inputs@.len(),
            all == request.inputs@ + request.outputs@,
            ids@ == all.subrange(0, index as int).map_values(|named: NamedTensor| named.tensor.id),
        decreases request.inputs.len() - index,
    {
        ids.push(request.inputs[index].tensor.id);
        assert(all.subrange(0, index + 1).map_values(|named: NamedTensor| named.tensor.id) =~= all.subrange(
            0,
            index as int,
        ).map_values(|named: NamedTensor| named.tensor.id).push(request.inputs@[index as int].tensor.id));
        index = index + 1;
    }
    let mut index: usize = 0;
    let start = request.inputs.len();
    while index < request.outputs.len()
        invariant
            index <= request.outputs@.len(),
            start == request.inputs@.len(),
            all == request.inputs@ + request.outputs@,
            ids@ == all.subrange(0, start + index).map_values(|named: NamedTensor| named.tensor.id),
        decreases request.outputs.len() - index,
    {
        ids.push(request.outputs[index].tensor.id);
        assert(all[start + index] == request.outputs@[index as int]);
        assert(all.subrange(0, start + index + 1).map_values(|named: NamedTensor| named.tensor.id)
            =~= all.subrange(0, start + index).map_values(|named: NamedTensor| named.tensor.id).push(
            request.outputs@[index as int].tensor.id,
        ));
        index = index + 1;
    }
    assert(all.subrange(0, all.len() as int) =~= all);
    ids
}

/// Pair each intermediate with its storage bytes.
fn workspace_objects(values: Vec<ValueId>, sizes: Vec<u64>) -> (objects: Vec<WorkspaceObject>)
    requires
        values@.len() == sizes@.len(),
    ensures
        objects@.len() == values@.len(),
        forall|i: int|
            0 <= i < objects@.len() ==> (#[trigger] objects@[i]).value == values@[i] && objects@[i].bytes.0
                == sizes@[i],
        objects@.map_values(|object: WorkspaceObject| object.bytes.0) == sizes@,
{
    let mut objects: Vec<WorkspaceObject> = Vec::new();
    let mut index: usize = 0;
    while index < values.len()
        invariant
            index <= values@.len(),
            values@.len() == sizes@.len(),
            objects@.len() == index,
            forall|i: int|
                0 <= i < index ==> (#[trigger] objects@[i]).value == values@[i] && objects@[i].bytes.0
                    == sizes@[i],
        decreases values.len() - index,
    {
        objects.push(WorkspaceObject { value: values[index], bytes: ByteCount::new(sizes[index]) });
        index = index + 1;
    }
    assert(objects@.map_values(|object: WorkspaceObject| object.bytes.0) =~= sizes@);
    objects
}

/// A freshly opened emitter for the request: an empty ledger over the
/// request's namespace, boundary and workspace limit, one pending stage per
/// resolved step, nothing emitted.
pub open spec fn fresh_emitter(emitter: StageEmitter, request: MaterializationRequest, model: ResolvedModel) -> bool {
    let ledger = emitter.ledger();
    &&& emitter.wf()
    &&& ledger.namespace() == request.identity_namespace
    &&& ledger.declared() == declared_ids(request)
    &&& ledger.intermediates().len() == 0
    &&& ledger.kernels().len() == 0
    &&& ledger.workspace() == 0
    &&& ledger.limit() == request.workspace_limit.0
    &&& emitter.stages().len() == 0
    &&& emitter.nodes().len() == 0
    &&& emitter.families() == model.steps.map_values(|step: StepModel| step.family)
}

/// What the family that owns the request's source-qualified row does to
/// the emitter, or, where no family here owns it, the refusal.
pub open spec fn family_outcome(
    request: MaterializationRequest,
    before: StageEmitter,
    after: StageEmitter,
    result: OperationResult<()>,
) -> bool {
    let row = (request.descriptor.symbol@, request.descriptor.source@);
    if loss_metric_rows().contains(row) {
        loss_outcome(loss_metric_of(request.descriptor.symbol@), request, before, after, result)
    } else if training_rows().contains(row) {
        training_outcome(request, before, after, result)
    } else if tree_split_rows().contains(row) {
        tree_split_outcome(request, before, after, result)
    } else {
        result matches Err(error) && error.kind == OperationErrorKind::GraphMaterializationFailed
    }
}

/// `materialized` is the composition that `after` closes: the request's
/// boundary declarations, then the emitter's stages, kernels and workspace
/// objects, in order.
pub open spec fn closed_from(
    materialized: MaterializedComposition,
    request: MaterializationRequest,
    model: ResolvedModel,
    after: StageEmitter,
) -> bool {
    &&& materialized.operation == request.descriptor.id
    &&& tensor_models(materialized.boundary_tensors@) == tensor_models(declared_tensors(request))
    &&& materialized.resolved@ == model
    &&& materialized.stages@ == after.stages()
    &&& materialized.nodes@ == after.nodes()
    &&& materialized.workspace.objects@.map_values(|object: WorkspaceObject| object.value)
        == after.ledger().intermediates()
    &&& materialized.workspace.objects@.map_values(|object: WorkspaceObject| object.bytes.0)
        == after.ledger().sizes()
    &&& materialized.workspace.bytes.0 == after.ledger().workspace()
    &&& materialized.workspace.bytes.0 == objects_total(materialized.workspace.objects@)
    &&& materialized.workspace.bytes.0 <= request.workspace_limit.0
    &&& materialized.stages@.len() == model.steps.len()
    &&& forall|i: int|
        0 <= i < materialized.stages@.len() ==> (#[trigger] materialized.stages@[i]).step == i
            && materialized.stages@[i].kernels@.len() > 0
    &&& materialized.identity_namespace == request.identity_namespace
}

/// Materialize one supported source operation. An operation whose recipe
/// has no operation-specific tensor ABI and scalar program fails closed with
/// `MissingConcreteFormula`. Past the checks of `materialization_verdict`,
/// the family that owns the row emits into a fresh emitter; the result is
/// its refusal, or the closed composition when every resolved step has its
/// stage and the workspace fits the limit.
#[verifier::rlimit(60)]
pub fn materialize_composition(request: &MaterializationRequest) -> (result: OperationResult<
    MaterializedComposition,
>)
    ensures
        match materialization_verdict(*request) {
            Err(kind) => result matches Err(error) && error.kind == kind,
            Ok(model) => exists|before: StageEmitter, after: StageEmitter, dispatched: OperationResult<()>|
                {
                    &&& fresh_emitter(before, *request, model)
                    &&& after.wf()
                    &&& family_outcome(*request, before, after, dispatched)
                    &&& match dispatched {
                        Err(error) => result matches Err(refusal) && refusal == error,
                        Ok(()) => if after.stages().len() != after.families().len() || after.stages().len()
                            != model.steps.len() {
                            result matches Err(error) && error.kind
                                == OperationErrorKind::GraphMaterializationFailed
                        } else if after.ledger().workspace() > request.workspace_limit.0 {
                            result matches Err(error) && error.kind == OperationErrorKind::WorkspaceLimitExceeded
                        } else {
                            result matches Ok(materialized) && closed_from(materialized, *request, model, after)
                        },
                    }
                },
        },
{
    if let Err(error) = request.validate_request() {
        return Err(error);
    }
    if !has_concrete_materializer(&request.descriptor) {
        return Err(
            OperationError::new(
                OperationErrorKind::MissingConcreteFormula,
                "the operation remains in the remaining composition manifest: its tensor ABI, scalar program, primitive parameters and workspace policy are not concrete",
            ).for_operation(request.descriptor.id),
        );
    }
    let name = request.iteration_shape_input.as_str();
    assert(name@ == request.iteration_shape_input@);
    let iteration = match request.input(name) {
        Ok(tensor) => tensor,
        Err(error) => return Err(error),
    };
    let resolved = match expand_composition(&request.descriptor, iteration.extents.as_slice(), &request.parameters) {
        Ok(resolved) => resolved,
        Err(error) => return Err(error),
    };
    let declared = boundary_ids(request);
    let ledger = match GraphLedger::new(request.identity_namespace, declared.as_slice(), request.workspace_limit) {
        Ok(ledger) => ledger,
        Err(error) => return Err(error.for_operation(request.descriptor.id)),
    };
    let mut emitter = StageEmitter::new(ledger, &resolved);
    let ghost before = emitter;
    let ghost model = resolved@;
    proof {
        assert(emitter.families() =~= model.steps.map_values(|step: StepModel| step.family));
    }
    let dispatched = match crate::loss_metrics::dispatch(request, &mut emitter) {
        FamilyDispatch::Owned(result) => result,
        FamilyDispatch::NotOwned => match crate::training::dispatch(request, &mut emitter) {
            FamilyDispatch::Owned(result) => result,
            FamilyDispatch::NotOwned => match crate::tree_split::dispatch(request, &mut emitter) {
                FamilyDispatch::Owned(result) => result,
                FamilyDispatch::NotOwned => Err(
                    OperationError::new(
                        OperationErrorKind::GraphMaterializationFailed,
                        "concrete dispatch is missing for the source-qualified operation",
                    ).for_operation(request.descriptor.id),
                ),
            },
        },
    };
    let ghost after = emitter;
    proof {
        assert(family_outcome(*request, before, after, dispatched));
    }
    if let Err(error) = dispatched {
        return Err(error);
    }
    let ghost closing = emitter;
    let (ledger, stages, nodes) = match emitter.finish() {
        Ok(parts) => parts,
        Err(error) => return Err(error.for_operation(request.descriptor.id)),
    };
    proof {
        closing.lemma_complete_emission();
        closing.lemma_ledger_wf();
    }
    if stages.len() != resolved.steps.len() {
        return Err(
            OperationError::new(
                OperationErrorKind::GraphMaterializationFailed,
                "concrete materializer emitted a stage count other than the resolved step count",
            ).for_operation(request.descriptor.id),
        );
    }
    let (values, sizes, bytes) = ledger.into_workspace();
    if bytes.get() > request.workspace_limit.get() {
        return Err(
            OperationError::new(
                OperationErrorKind::WorkspaceLimitExceeded,
                "composition workspace exceeds the request's limit",
            ).for_operation(request.descriptor.id),
        );
    }
    let objects = workspace_objects(values, sizes);
    let boundary_tensors = boundary_declarations(request);
    proof {
        assert(objects@.map_values(|object: WorkspaceObject| object.value) =~= closing.ledger().intermediates());
    }
    Ok(
        MaterializedComposition {
            operation: request.descriptor.id,
            boundary_tensors,
            nodes,
            resolved,
            stages,
            workspace: WorkspaceAllocation { objects, bytes },
            identity_namespace: request.identity_namespace,
        },
    )
}

/// An operation whose source-qualified row no family materializes fails
/// closed: a valid request for it is refused with `MissingConcreteFormula`
/// before its recipe is expanded or any kernel emitted.
pub proof fn lemma_unmaterialized_fails_closed(request: MaterializationRequest)
    requires
        request.boundary_valid(),
        !has_concrete_materializer_spec(request.descriptor.symbol@, request.descriptor.source@),
    ensures
        materialization_verdict(request) == Err::<ResolvedModel, OperationErrorKind>(
            OperationErrorKind::MissingConcreteFormula,
        ),
{
}

} // verus!
