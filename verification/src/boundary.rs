//! Checks that a caller's graph declares the boundary tensors of a graph
//! fragment with the storage contracts the fragment expects.
use vstd::prelude::*;

use crate::error::{OperationError, OperationErrorKind, OperationResult};
use crate::identity::{IdentityNamespace, identity_ranges};
use crate::request::TensorDecl;
use crate::types::DType;

verus! {

/// Two declarations describe the same storage: identity, payload type,
/// extents and storage size.
pub open spec fn same_storage(left: TensorDecl, right: TensorDecl) -> bool {
    &&& left.id == right.id
    &&& left.dtype == right.dtype
    &&& left.extents@ == right.extents@
    &&& left.storage_bytes == right.storage_bytes
}

/// No two tensors share an identity.
pub open spec fn identities_distinct(tensors: Seq<TensorDecl>) -> bool {
    forall|i: int, j: int| 0 <= i < j < tensors.len() ==> #[trigger] tensors[i].id != #[trigger] tensors[j].id
}

/// Some tensor of `tensors` has the storage of `declared`.
pub open spec fn declares_storage(tensors: Seq<TensorDecl>, declared: TensorDecl) -> bool {
    exists|i: int| 0 <= i < tensors.len() && same_storage(#[trigger] tensors[i], declared)
}

pub(crate) fn storage_matches(left: &TensorDecl, right: &TensorDecl) -> (same: bool)
    ensures
        same == same_storage(*left, *right),
{
    if left.id.0 != right.id.0 || left.dtype != right.dtype || left.storage_bytes.0
        != right.storage_bytes.0 || left.extents.len() != right.extents.len() {
        return false;
    }
    let mut index: usize = 0;
    while index < left.extents.len()
        invariant
            index <= left.extents@.len() == right.extents@.len(),
            forall|i: int| 0 <= i < index ==> left.extents@[i] == right.extents@[i],
        decreases left.extents.len() - index,
    {
        if left.extents[index] != right.extents[index] {
            return false;
        }
        index = index + 1;
    }
    assert(left.extents@ =~= right.extents@);
    true
}

/// The position of the first tensor with identity `id`.
fn position_of(tensors: &Vec<TensorDecl>, id: u64) -> (position: Option<usize>)
    ensures
        match position {
            Some(j) => j < tensors@.len() && tensors@[j as int].id.0 == id && forall|i: int|
                0 <= i < j ==> (#[trigger] tensors@[i]).id.0 != id,
            None => forall|i: int| 0 <= i < tensors@.len() ==> (#[trigger] tensors@[i]).id.0 != id,
        },
{
    let mut index: usize = 0;
    while index < tensors.len()
        invariant
            index <= tensors@.len(),
            forall|i: int| 0 <= i < index ==> (#[trigger] tensors@[i]).id.0 != id,
        decreases tensors.len() - index,
    {
        if tensors[index].id.0 == id {
            return Some(index);
        }
        index = index + 1;
    }
    None
}

/// Check that the caller's graph declares every boundary tensor with the
/// storage contract the fragment expects. A graph that repeats a tensor
/// identity is refused first.
pub fn validate_boundary_storage(graph: &Vec<TensorDecl>, declared: &Vec<&TensorDecl>) -> (result:
    OperationResult<()>)
    ensures
        result is Ok <==> (identities_distinct(graph@) && forall|i: int|
            0 <= i < declared@.len() ==> declares_storage(graph@, #[trigger] tensors_of(declared@)[i])),
        result matches Err(error) ==> error.kind == if identities_distinct(graph@) {
            OperationErrorKind::InvalidMaterializationRequest
        } else {
            OperationErrorKind::GraphMaterializationFailed
        },
{
    let mut index: usize = 0;
    while index < graph.len()
        invariant
            index <= graph@.len(),
            identities_distinct(graph@.subrange(0, index as int)),
        decreases graph.len() - index,
    {
        match position_of(graph, graph[index].id.0) {
            Some(j) => {
                if j < index {
                    assert(graph@[j as int].id == graph@[index as int].id);
                    return Err(
                        OperationError::new(
                            OperationErrorKind::GraphMaterializationFailed,
                            "caller graph repeats a tensor",
                        ),
                    );
                }
            },
            None => {},
        }
        proof {
            let grown = graph@.subrange(0, index + 1);
            assert forall|i: int, j: int| 0 <= i < j < grown.len() implies #[trigger] grown[i].id
                != #[trigger] grown[j].id by {
                assert(grown[i] == graph@[i] && grown[j] == graph@[j]);
                if j == index {
                    assert(graph@[i].id.0 != graph@[index as int].id.0);
                } else {
                    assert(graph@.subrange(0, index as int)[i] == graph@[i]);
                    assert(graph@.subrange(0, index as int)[j] == graph@[j]);
                }
            }
        }
        index = index + 1;
    }
    assert(graph@.subrange(0, graph@.len() as int) =~= graph@);
    let mut index: usize = 0;
    while index < declared.len()
        invariant
            index <= declared@.len(),
            identities_distinct(graph@),
            forall|i: int| 0 <= i < index ==> declares_storage(graph@, #[trigger] tensors_of(declared@)[i]),
        decreases declared.len() - index,
    {
        let wanted: &TensorDecl = declared[index];
        assert(tensors_of(declared@)[index as int] == *wanted);
        match position_of(graph, wanted.id.0) {
            Some(j) => {
                if !storage_matches(&graph[j], wanted) {
                    proof {
                        assert forall|i: int| 0 <= i < graph@.len() implies !same_storage(
                            #[trigger] graph@[i],
                            *wanted,
                        ) by {
                            if i != j && graph@[i].id == wanted.id {
                                if i < j {
                                    assert(graph@[i].id != graph@[j as int].id);
                                } else {
                                    assert(graph@[j as int].id != graph@[i].id);
                                }
                            }
                        }
                    }
                    return Err(
                        OperationError::new(
                            OperationErrorKind::InvalidMaterializationRequest,
                            "caller graph tensor differs from the boundary storage contract",
                        ),
                    );
                }
            },
            None => {
                return Err(
                    OperationError::new(
                        OperationErrorKind::InvalidMaterializationRequest,
                        "caller graph does not declare a boundary tensor",
                    ),
                );
            },
        }
        index = index + 1;
    }
    Ok(())
}

/// Record a boundary tensor, keyed by identity: a tensor already recorded
/// with the same storage is accepted once, and one with conflicting
/// storage is refused.
pub fn insert_boundary(boundaries: &mut Vec<TensorDecl>, tensor: TensorDecl) -> (result: OperationResult<()>)
    requires
        identities_distinct(old(boundaries)@),
    ensures
        identities_distinct(final(boundaries)@),
        (exists|i: int| 0 <= i < old(boundaries)@.len() && #[trigger] old(boundaries)@[i].id == tensor.id)
            ==> final(boundaries)@ == old(boundaries)@ && (result is Ok <==> declares_storage(
            old(boundaries)@,
            tensor,
        )),
        (forall|i: int| 0 <= i < old(boundaries)@.len() ==> #[trigger] old(boundaries)@[i].id != tensor.id)
            ==> final(boundaries)@ == old(boundaries)@.push(tensor) && result is Ok,
        result matches Err(error) ==> error.kind == OperationErrorKind::InvalidMaterializationRequest,
{
    match position_of(boundaries, tensor.id.0) {
        Some(j) => {
            if storage_matches(&boundaries[j], &tensor) {
                Ok(())
            } else {
                proof {
                    assert forall|i: int| 0 <= i < boundaries@.len() implies !same_storage(
                        #[trigger] boundaries@[i],
                        tensor,
                    ) by {
                        if i != j && boundaries@[i].id == tensor.id {
                            if i < j {
                                assert(boundaries@[i].id != boundaries@[j as int].id);
                            } else {
                                assert(boundaries@[j as int].id != boundaries@[i].id);
                            }
                        }
                    }
                }
                Err(
                    OperationError::new(
                        OperationErrorKind::InvalidMaterializationRequest,
                        "boundary tensor has conflicting contracts",
                    ),
                )
            }
        },
        None => {
            let ghost before = boundaries@;
            boundaries.push(tensor);
            proof {
                assert forall|i: int, j: int| 0 <= i < j < boundaries@.len() implies #[trigger] boundaries@[i].id
                    != #[trigger] boundaries@[j].id by {
                    if j < before.len() {
                        assert(boundaries@[i] == before[i] && boundaries@[j] == before[j]);
                    } else {
                        assert(boundaries@[i] == before[i]);
                    }
                }
            }
            Ok(())
        },
    }
}

/// Check a scalar binary32 output: payload type first, then shape `[1]`.
pub fn require_scalar_output(tensor: &TensorDecl) -> (result: OperationResult<()>)
    ensures
        result is Ok <==> (tensor.dtype == DType::F32 && tensor.extents@ == seq![1u64]),
        result matches Err(error) ==> error.kind == if tensor.dtype != DType::F32 {
            OperationErrorKind::InvalidMaterializationRequest
        } else {
            OperationErrorKind::UnsupportedConcreteShape
        },
{
    if tensor.dtype != DType::F32 {
        return Err(
            OperationError::new(
                OperationErrorKind::InvalidMaterializationRequest,
                "scalar output must be F32",
            ),
        );
    }
    if tensor.extents.len() == 1 && tensor.extents[0] == 1 {
        assert(tensor.extents@ =~= seq![1u64]);
        Ok(())
    } else {
        Err(
            OperationError::new(
                OperationErrorKind::UnsupportedConcreteShape,
                "scalar output must have shape [1]",
            ),
        )
    }
}

/// Check that a tensor is a rank-two binary32 matrix.
pub fn validate_f32_matrix(tensor: &TensorDecl) -> (result: OperationResult<()>)
    ensures
        result is Ok <==> (tensor.dtype == DType::F32 && tensor.extents@.len() == 2),
        result matches Err(error) ==> error.kind == OperationErrorKind::InvalidMaterializationRequest,
{
    if tensor.dtype != DType::F32 || tensor.extents.len() != 2 {
        Err(
            OperationError::new(
                OperationErrorKind::InvalidMaterializationRequest,
                "matrix must be a rank-two f32 matrix",
            ),
        )
    } else {
        Ok(())
    }
}

/// Why a tensor is not a binary32 vector: a wrong payload type first, then
/// a rank other than one.
pub open spec fn vector_verdict(tensor: TensorDecl) -> Option<OperationErrorKind> {
    if tensor.dtype != DType::F32 {
        Some(OperationErrorKind::InvalidMaterializationRequest)
    } else if tensor.extents@.len() != 1 {
        Some(OperationErrorKind::UnsupportedConcreteShape)
    } else {
        None
    }
}

/// Why a tensor is not a binary32 scalar of shape `[1]`.
pub open spec fn scalar_verdict(tensor: TensorDecl) -> Option<OperationErrorKind> {
    if tensor.dtype != DType::F32 {
        Some(OperationErrorKind::InvalidMaterializationRequest)
    } else if tensor.extents@ != seq![1u64] {
        Some(OperationErrorKind::UnsupportedConcreteShape)
    } else {
        None
    }
}

/// Check a binary32 vector: payload type first, then rank one.
pub fn require_f32_vector(tensor: &TensorDecl) -> (result: OperationResult<()>)
    ensures
        match vector_verdict(*tensor) {
            Some(kind) => result matches Err(error) && error.kind == kind,
            None => result is Ok,
        },
{
    if tensor.dtype != DType::F32 {
        return Err(
            OperationError::new(
                OperationErrorKind::InvalidMaterializationRequest,
                "vector must be F32",
            ),
        );
    }
    if tensor.extents.len() != 1 {
        return Err(
            OperationError::new(
                OperationErrorKind::UnsupportedConcreteShape,
                "vector must be rank one",
            ),
        );
    }
    Ok(())
}

/// Whether no two tensors of `tensors` share an identity.
pub fn distinct_identities(tensors: &Vec<&TensorDecl>) -> (distinct: bool)
    ensures
        distinct == identities_distinct(tensors@.map_values(|tensor: &TensorDecl| *tensor)),
{
    let ghost all = tensors@.map_values(|tensor: &TensorDecl| *tensor);
    let mut index: usize = 0;
    while index < tensors.len()
        invariant
            index <= tensors@.len(),
            all == tensors@.map_values(|tensor: &TensorDecl| *tensor),
            forall|i: int, j: int| 0 <= i < j < index ==> #[trigger] all[i].id != #[trigger] all[j].id,
        decreases tensors.len() - index,
    {
        let mut earlier: usize = 0;
        while earlier < index
            invariant
                earlier <= index < tensors@.len(),
                all == tensors@.map_values(|tensor: &TensorDecl| *tensor),
                forall|i: int| 0 <= i < earlier ==> #[trigger] all[i].id != all[index as int].id,
            decreases index - earlier,
        {
            if tensors[earlier].id.0 == tensors[index].id.0 {
                assert(all[earlier as int].id == all[index as int].id);
                return false;
            }
            earlier = earlier + 1;
        }
        index = index + 1;
    }
    true
}

/// Why a fragment cannot be opened over `namespace` with these boundary
/// tensors: a namespace that leaves `u64`, a repeated boundary identity, or
/// a boundary tensor inside the reserved value range.
pub open spec fn fragment_boundary_verdict(namespace: IdentityNamespace, tensors: Seq<TensorDecl>) -> Option<
    OperationErrorKind,
> {
    if !namespace.fits() {
        Some(OperationErrorKind::IdentityNamespaceExhausted)
    } else if !identities_distinct(tensors) {
        Some(OperationErrorKind::InvalidMaterializationRequest)
    } else if exists|i: int|
        0 <= i < tensors.len() && namespace.reserves_value((#[trigger] tensors[i]).id.0 as int) {
        Some(OperationErrorKind::IdentityNamespaceOverlap)
    } else {
        None
    }
}

/// Check that a fragment can be opened over `namespace` with these
/// boundary tensors.
pub fn check_fragment_boundary(namespace: IdentityNamespace, tensors: &Vec<&TensorDecl>) -> (result:
    OperationResult<()>)
    ensures
        match fragment_boundary_verdict(namespace, tensors@.map_values(|tensor: &TensorDecl| *tensor)) {
            Some(kind) => result matches Err(error) && error.kind == kind,
            None => result is Ok,
        },
{
    let ghost all = tensors@.map_values(|tensor: &TensorDecl| *tensor);
    let (first_value, value_end, _first_kernel, _kernel_end) = match identity_ranges(namespace) {
        Ok(ranges) => ranges,
        Err(error) => return Err(error),
    };
    if !distinct_identities(tensors) {
        return Err(
            OperationError::new(
                OperationErrorKind::InvalidMaterializationRequest,
                "fragment boundary repeats a tensor identity",
            ),
        );
    }
    let mut index: usize = 0;
    while index < tensors.len()
        invariant
            index <= tensors@.len(),
            all == tensors@.map_values(|tensor: &TensorDecl| *tensor),
            first_value == namespace.first_value.0,
            value_end == namespace.value_end(),
            namespace.fits(),
            identities_distinct(all),
            forall|i: int| 0 <= i < index ==> !namespace.reserves_value((#[trigger] all[i]).id.0 as int),
        decreases tensors.len() - index,
    {
        let id = tensors[index].id.0;
        if id >= first_value && id < value_end {
            assert(namespace.reserves_value(all[index as int].id.0 as int));
            return Err(
                OperationError::new(
                    OperationErrorKind::IdentityNamespaceOverlap,
                    "a boundary tensor lies inside the reserved intermediate value range",
                ),
            );
        }
        index = index + 1;
    }
    Ok(())
}

/// The tensors a list of references points at.
pub open spec fn tensors_of(references: Seq<&TensorDecl>) -> Seq<TensorDecl> {
    references.map_values(|tensor: &TensorDecl| *tensor)
}

/// Whether some tensor lies inside the namespace's reserved value range.
pub fn reserves_any(namespace: IdentityNamespace, tensors: &Vec<&TensorDecl>) -> (reserved: bool)
    requires
        namespace.fits(),
    ensures
        reserved == exists|i: int|
            0 <= i < tensors@.len() && namespace.reserves_value(
                (#[trigger] tensors_of(tensors@)[i]).id.0 as int,
            ),
{
    let ghost all = tensors@.map_values(|tensor: &TensorDecl| *tensor);
    let first_value = namespace.first_value.0;
    let value_end = first_value + namespace.value_capacity;
    let mut index: usize = 0;
    while index < tensors.len()
        invariant
            index <= tensors@.len(),
            all == tensors@.map_values(|tensor: &TensorDecl| *tensor),
            first_value == namespace.first_value.0,
            value_end == namespace.value_end(),
            forall|i: int| 0 <= i < index ==> !namespace.reserves_value((#[trigger] all[i]).id.0 as int),
        decreases tensors.len() - index,
    {
        let id = tensors[index].id.0;
        if id >= first_value && id < value_end {
            assert(namespace.reserves_value(all[index as int].id.0 as int));
            return true;
        }
        index = index + 1;
    }
    false
}

} // verus!
