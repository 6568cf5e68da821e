//! Caller-reserved identity ranges for the intermediates and kernels of one
//! graph fragment, and the check that independently reserved ranges are
//! disjoint.
use vstd::prelude::*;

use crate::error::{OperationError, OperationErrorKind, OperationResult};
use crate::types::{KernelTemplateId, ValueId};

verus! {

/// Caller-reserved identities for intermediates and kernels emitted by one
/// materialized fragment. The ranges are half-open:
/// `first_* .. first_* + *_capacity`.
#[derive(Clone, Copy, Debug, PartialEq, Eq, Structural)]
pub struct IdentityNamespace {
    pub first_value: ValueId,
    pub value_capacity: u64,
    pub first_kernel: KernelTemplateId,
    pub kernel_capacity: u64,
}

impl IdentityNamespace {
    #[must_use]
    pub fn new(
        first_value: ValueId,
        value_capacity: u64,
        first_kernel: KernelTemplateId,
        kernel_capacity: u64,
    ) -> (namespace: Self)
        ensures
            namespace == (IdentityNamespace { first_value, value_capacity, first_kernel, kernel_capacity }),
    {
        IdentityNamespace { first_value, value_capacity, first_kernel, kernel_capacity }
    }

    #[must_use]
    pub fn first_value(self) -> (first: ValueId)
        ensures
            first == self.first_value,
    {
        self.first_value
    }

    #[must_use]
    pub fn value_capacity(self) -> (capacity: u64)
        ensures
            capacity == self.value_capacity,
    {
        self.value_capacity
    }

    #[must_use]
    pub fn first_kernel(self) -> (first: KernelTemplateId)
        ensures
            first == self.first_kernel,
    {
        self.first_kernel
    }

    #[must_use]
    pub fn kernel_capacity(self) -> (capacity: u64)
        ensures
            capacity == self.kernel_capacity,
    {
        self.kernel_capacity
    }

    /// Both reserved ranges end within `u64`.
    pub open spec fn fits(self) -> bool {
        &&& self.first_value.0 + self.value_capacity <= u64::MAX
        &&& self.first_kernel.0 + self.kernel_capacity <= u64::MAX
    }

    pub open spec fn value_end(self) -> int {
        self.first_value.0 + self.value_capacity
    }

    pub open spec fn kernel_end(self) -> int {
        self.first_kernel.0 + self.kernel_capacity
    }

    /// The namespace reserves value identity `value`.
    pub open spec fn reserves_value(self, value: int) -> bool {
        within(value, self.first_value.0 as int, self.value_end())
    }

    /// The namespace reserves kernel identity `kernel`.
    pub open spec fn reserves_kernel(self, kernel: int) -> bool {
        within(kernel, self.first_kernel.0 as int, self.kernel_end())
    }
}

/// `x` lies in half-open `[start, end)`.
pub open spec fn within(x: int, start: int, end: int) -> bool {
    start <= x < end
}

/// The two half-open ranges are nonempty and share an identity.
pub open spec fn ranges_overlap_spec(
    left_start: int,
    left_end: int,
    right_start: int,
    right_end: int,
) -> bool {
    left_start < left_end && right_start < right_end && left_start < right_end && right_start
        < left_end
}

/// Whether half-open `[left_start, left_end)` and `[right_start, right_end)`
/// share an identity.
pub fn ranges_overlap(left_start: u64, left_end: u64, right_start: u64, right_end: u64) -> (overlap:
    bool)
    ensures
        overlap == ranges_overlap_spec(
            left_start as int,
            left_end as int,
            right_start as int,
            right_end as int,
        ),
{
    left_start < left_end && right_start < right_end && left_start < right_end && right_start
        < left_end
}

/// Two half-open ranges overlap exactly when some identity lies in both.
pub proof fn lemma_ranges_overlap_iff_shared(
    left_start: int,
    left_end: int,
    right_start: int,
    right_end: int,
)
    ensures
        ranges_overlap_spec(left_start, left_end, right_start, right_end) <==> exists|x: int|
            #[trigger] within(x, left_start, left_end) && within(x, right_start, right_end),
{
    if ranges_overlap_spec(left_start, left_end, right_start, right_end) {
        let x = if left_start < right_start {
            right_start
        } else {
            left_start
        };
        assert(within(x, left_start, left_end) && within(x, right_start, right_end));
    }
}

/// The half-open value and kernel ranges of a namespace.
pub fn identity_ranges(namespace: IdentityNamespace) -> (ranges: OperationResult<(u64, u64, u64, u64)>)
    ensures
        namespace.fits() ==> ranges == Ok::<(u64, u64, u64, u64), OperationError>(
            (
                namespace.first_value.0,
                namespace.value_end() as u64,
                namespace.first_kernel.0,
                namespace.kernel_end() as u64,
            ),
        ),
        !namespace.fits() ==> (ranges matches Err(error) && error.kind
            == OperationErrorKind::IdentityNamespaceExhausted),
{
    let value_start = namespace.first_value.get();
    let value_end = match value_start.checked_add(namespace.value_capacity) {
        Some(end) => end,
        None => {
            return Err(
                OperationError::new(
                    OperationErrorKind::IdentityNamespaceExhausted,
                    "reserved intermediate value identity range exceeds u64",
                ),
            );
        },
    };
    let kernel_start = namespace.first_kernel.get();
    let kernel_end = match kernel_start.checked_add(namespace.kernel_capacity) {
        Some(end) => end,
        None => {
            return Err(
                OperationError::new(
                    OperationErrorKind::IdentityNamespaceExhausted,
                    "reserved kernel identity range exceeds u64",
                ),
            );
        },
    };
    Ok((value_start, value_end, kernel_start, kernel_end))
}

/// Two namespaces reserve a common value or kernel identity.
pub open spec fn namespaces_overlap(left: IdentityNamespace, right: IdentityNamespace) -> bool {
    ||| ranges_overlap_spec(
        left.first_value.0 as int,
        left.value_end(),
        right.first_value.0 as int,
        right.value_end(),
    )
    ||| ranges_overlap_spec(
        left.first_kernel.0 as int,
        left.kernel_end(),
        right.first_kernel.0 as int,
        right.kernel_end(),
    )
}

/// The verdict on a list of namespaces: any range past `u64` exhausts; then
/// any overlapping pair overlaps; otherwise the list is accepted.
pub open spec fn namespaces_verdict(namespaces: Seq<IdentityNamespace>) -> Result<
    (),
    OperationErrorKind,
> {
    if exists|i: int| 0 <= i < namespaces.len() && !(#[trigger] namespaces[i]).fits() {
        Err(OperationErrorKind::IdentityNamespaceExhausted)
    } else if exists|i: int, j: int|
        0 <= i < j < namespaces.len() && namespaces_overlap(
            #[trigger] namespaces[i],
            #[trigger] namespaces[j],
        ) {
        Err(OperationErrorKind::IdentityNamespaceOverlap)
    } else {
        Ok(())
    }
}

/// Reject overlapping caller reservations before independently materialized
/// fragments are assembled into one calculation graph.
pub fn validate_identity_namespaces(namespaces: &[IdentityNamespace]) -> (result: OperationResult<()>)
    ensures
        match namespaces_verdict(namespaces@) {
            Ok(()) => result is Ok,
            Err(kind) => result matches Err(error) && error.kind == kind,
        },
{
    let mut ranges: Vec<(u64, u64, u64, u64)> = Vec::new();
    let mut index: usize = 0;
    while index < namespaces.len()
        invariant
            index <= namespaces@.len(),
            ranges@.len() == index,
            forall|i: int| 0 <= i < index ==> (#[trigger] namespaces@[i]).fits(),
            forall|i: int|
                0 <= i < index ==> #[trigger] ranges@[i] == (
                    namespaces@[i].first_value.0,
                    namespaces@[i].value_end() as u64,
                    namespaces@[i].first_kernel.0,
                    namespaces@[i].kernel_end() as u64,
                ),
        decreases namespaces.len() - index,
    {
        match identity_ranges(namespaces[index]) {
            Ok(range) => ranges.push(range),
            Err(error) => {
                return Err(error);
            },
        }
        index = index + 1;
    }
    let count = ranges.len();
    let mut left_index: usize = 0;
    while left_index < count
        invariant
            count == ranges@.len() == namespaces@.len(),
            left_index <= count,
            forall|i: int| 0 <= i < count ==> (#[trigger] namespaces@[i]).fits(),
            forall|i: int|
                0 <= i < count ==> #[trigger] ranges@[i] == (
                    namespaces@[i].first_value.0,
                    namespaces@[i].value_end() as u64,
                    namespaces@[i].first_kernel.0,
                    namespaces@[i].kernel_end() as u64,
                ),
            forall|i: int, j: int|
                0 <= i < left_index && i < j < count ==> !namespaces_overlap(
                    #[trigger] namespaces@[i],
                    #[trigger] namespaces@[j],
                ),
        decreases count - left_index,
    {
        let mut right_index: usize = left_index + 1;
        while right_index < count
            invariant
                count == ranges@.len() == namespaces@.len(),
                left_index < count,
                left_index < right_index <= count,
                forall|i: int| 0 <= i < count ==> (#[trigger] namespaces@[i]).fits(),
                forall|i: int|
                    0 <= i < count ==> #[trigger] ranges@[i] == (
                        namespaces@[i].first_value.0,
                        namespaces@[i].value_end() as u64,
                        namespaces@[i].first_kernel.0,
                        namespaces@[i].kernel_end() as u64,
                    ),
                forall|i: int, j: int|
                    0 <= i < left_index && i < j < count ==> !namespaces_overlap(
                        #[trigger] namespaces@[i],
                        #[trigger] namespaces@[j],
                    ),
                forall|j: int|
                    left_index < j < right_index ==> !namespaces_overlap(
                        namespaces@[left_index as int],
                        #[trigger] namespaces@[j],
                    ),
            decreases count - right_index,
        {
            let left = ranges[left_index];
            let right = ranges[right_index];
            if ranges_overlap(left.0, left.1, right.0, right.1) {
                assert(namespaces_overlap(
                    namespaces@[left_index as int],
                    namespaces@[right_index as int],
                ));
                return Err(
                    OperationError::new(
                        OperationErrorKind::IdentityNamespaceOverlap,
                        "intermediate value ranges of two namespaces overlap",
                    ),
                );
            }
            if ranges_overlap(left.2, left.3, right.2, right.3) {
                assert(namespaces_overlap(
                    namespaces@[left_index as int],
                    namespaces@[right_index as int],
                ));
                return Err(
                    OperationError::new(
                        OperationErrorKind::IdentityNamespaceOverlap,
                        "kernel ranges of two namespaces overlap",
                    ),
                );
            }
            right_index = right_index + 1;
        }
        left_index = left_index + 1;
    }
    Ok(())
}

/// `reordered` lists the namespaces of `namespaces` in the order `order`:
/// `order` is a bijection of the positions.
pub open spec fn is_reordering(
    namespaces: Seq<IdentityNamespace>,
    reordered: Seq<IdentityNamespace>,
    order: Seq<int>,
) -> bool {
    &&& reordered.len() == namespaces.len()
    &&& order.len() == namespaces.len()
    &&& forall|k: int| 0 <= k < order.len() ==> 0 <= #[trigger] order[k] < namespaces.len()
    &&& forall|k: int| 0 <= k < order.len() ==> #[trigger] reordered[k] == namespaces[order[k]]
    &&& forall|k1: int, k2: int|
        0 <= k1 < order.len() && 0 <= k2 < order.len() && k1 != k2 ==> #[trigger] order[k1]
            != #[trigger] order[k2]
    &&& forall|i: int| 0 <= i < namespaces.len() ==> #[trigger] order_reaches(order, i)
}

/// Some position of `order` holds `i`.
pub open spec fn order_reaches(order: Seq<int>, i: int) -> bool {
    exists|k: int| 0 <= k < order.len() && #[trigger] order[k] == i
}

/// Overlap of two namespaces does not depend on which is named first.
pub proof fn lemma_namespaces_overlap_symmetric(left: IdentityNamespace, right: IdentityNamespace)
    ensures
        namespaces_overlap(left, right) == namespaces_overlap(right, left),
{
}

/// Direction of `lemma_namespaces_verdict_order_independent`: a fault of the
/// original list is a fault of the reordered one.
proof fn lemma_verdict_fault_carries(
    namespaces: Seq<IdentityNamespace>,
    reordered: Seq<IdentityNamespace>,
    order: Seq<int>,
)
    requires
        is_reordering(namespaces, reordered, order),
    ensures
        (exists|i: int| 0 <= i < namespaces.len() && !(#[trigger] namespaces[i]).fits()) ==> (exists|k: int|
            0 <= k < reordered.len() && !(#[trigger] reordered[k]).fits()),
        (exists|i: int, j: int|
            0 <= i < j < namespaces.len() && namespaces_overlap(
                #[trigger] namespaces[i],
                #[trigger] namespaces[j],
            )) ==> (exists|a: int, b: int|
            0 <= a < b < reordered.len() && namespaces_overlap(
                #[trigger] reordered[a],
                #[trigger] reordered[b],
            )),
{
    if exists|i: int| 0 <= i < namespaces.len() && !(#[trigger] namespaces[i]).fits() {
        let i = choose|i: int| 0 <= i < namespaces.len() && !(#[trigger] namespaces[i]).fits();
        assert(order_reaches(order, i));
        let k = choose|k: int| 0 <= k < order.len() && #[trigger] order[k] == i;
        assert(reordered[k] == namespaces[i]);
    }
    if exists|i: int, j: int|
        0 <= i < j < namespaces.len() && namespaces_overlap(
            #[trigger] namespaces[i],
            #[trigger] namespaces[j],
        ) {
        let (i, j) = choose|i: int, j: int|
            0 <= i < j < namespaces.len() && namespaces_overlap(
                #[trigger] namespaces[i],
                #[trigger] namespaces[j],
            );
        assert(order_reaches(order, i));
        assert(order_reaches(order, j));
        let ki = choose|k: int| 0 <= k < order.len() && #[trigger] order[k] == i;
        let kj = choose|k: int| 0 <= k < order.len() && #[trigger] order[k] == j;
        assert(reordered[ki] == namespaces[i]);
        assert(reordered[kj] == namespaces[j]);
        lemma_namespaces_overlap_symmetric(namespaces[i], namespaces[j]);
        if ki < kj {
            assert(namespaces_overlap(reordered[ki], reordered[kj]));
        } else {
            assert(namespaces_overlap(reordered[kj], reordered[ki]));
        }
    }
}

/// The inverse of a reordering is a reordering back.
proof fn lemma_reordering_inverse(
    namespaces: Seq<IdentityNamespace>,
    reordered: Seq<IdentityNamespace>,
    order: Seq<int>,
) -> (inverse: Seq<int>)
    requires
        is_reordering(namespaces, reordered, order),
    ensures
        is_reordering(reordered, namespaces, inverse),
{
    let inverse = Seq::new(
        namespaces.len(),
        |i: int| choose|k: int| 0 <= k < order.len() && #[trigger] order[k] == i,
    );
    assert forall|i: int| 0 <= i < inverse.len() implies 0 <= #[trigger] inverse[i] < reordered.len()
        && order[inverse[i]] == i by {
        assert(order_reaches(order, i));
        let k = choose|k: int| 0 <= k < order.len() && #[trigger] order[k] == i;
    }
    assert forall|i: int| 0 <= i < inverse.len() implies #[trigger] namespaces[i] == reordered[inverse[i]] by {
        assert(order[inverse[i]] == i);
    }
    assert forall|i1: int, i2: int|
        0 <= i1 < inverse.len() && 0 <= i2 < inverse.len() && i1 != i2 implies #[trigger] inverse[i1]
        != #[trigger] inverse[i2] by {
        assert(order[inverse[i1]] == i1);
        assert(order[inverse[i2]] == i2);
    }
    assert forall|k: int| 0 <= k < reordered.len() implies #[trigger] order_reaches(inverse, k) by {
        let i = order[k];
        assert(order[inverse[i]] == i);
        if inverse[i] != k {
            assert(order[inverse[i]] != order[k]);
        }
        assert(inverse[i] == k);
    }
    inverse
}

/// The namespace check does not depend on the order of the namespaces:
/// listing the same namespaces in any order gives the same verdict.
pub proof fn lemma_namespaces_verdict_order_independent(
    namespaces: Seq<IdentityNamespace>,
    reordered: Seq<IdentityNamespace>,
    order: Seq<int>,
)
    requires
        is_reordering(namespaces, reordered, order),
    ensures
        namespaces_verdict(reordered) == namespaces_verdict(namespaces),
{
    lemma_verdict_fault_carries(namespaces, reordered, order);
    let inverse = lemma_reordering_inverse(namespaces, reordered, order);
    lemma_verdict_fault_carries(reordered, namespaces, inverse);
}

/// Accepted namespaces reserve pairwise disjoint identities: no value or
/// kernel identity belongs to two of them.
pub proof fn lemma_accepted_namespaces_disjoint(namespaces: Seq<IdentityNamespace>, i: int, j: int)
    requires
        namespaces_verdict(namespaces) is Ok,
        0 <= i < namespaces.len(),
        0 <= j < namespaces.len(),
        i != j,
    ensures
        forall|value: int|
            !(namespaces[i].reserves_value(value) && namespaces[j].reserves_value(value)),
        forall|kernel: int|
            !(namespaces[i].reserves_kernel(kernel) && namespaces[j].reserves_kernel(kernel)),
{
    let (a, b) = if i < j {
        (i, j)
    } else {
        (j, i)
    };
    assert(!namespaces_overlap(namespaces[a], namespaces[b]));
    lemma_ranges_overlap_iff_shared(
        namespaces[a].first_value.0 as int,
        namespaces[a].value_end(),
        namespaces[b].first_value.0 as int,
        namespaces[b].value_end(),
    );
    lemma_ranges_overlap_iff_shared(
        namespaces[a].first_kernel.0 as int,
        namespaces[a].kernel_end(),
        namespaces[b].first_kernel.0 as int,
        namespaces[b].kernel_end(),
    );
}

} // verus!
