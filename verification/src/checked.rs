//! Overflow-checked folds over unsigned counts.
use vstd::prelude::*;

verus! {

/// Product of the values.
pub open spec fn product(values: Seq<u64>) -> int
    decreases values.len(),
{
    if values.len() == 0 {
        1
    } else {
        product(values.drop_last()) * values.last()
    }
}

/// Sum of the values.
pub open spec fn sum(values: Seq<u64>) -> int
    decreases values.len(),
{
    if values.len() == 0 {
        0
    } else {
        sum(values.drop_last()) + values.last()
    }
}

/// Left-to-right product that stops at the first partial product past
/// `u64::MAX`.
pub open spec fn checked_product_spec(values: Seq<u64>) -> Option<u64>
    decreases values.len(),
{
    if values.len() == 0 {
        Some(1)
    } else {
        match checked_product_spec(values.drop_last()) {
            Some(partial) => if partial * values.last() <= u64::MAX {
                Some((partial * values.last()) as u64)
            } else {
                None
            },
            None => None,
        }
    }
}

/// Left-to-right sum that stops at the first partial sum past `u64::MAX`.
pub open spec fn checked_sum_spec(values: Seq<u64>) -> Option<u64>
    decreases values.len(),
{
    if values.len() == 0 {
        Some(0)
    } else {
        match checked_sum_spec(values.drop_last()) {
            Some(partial) => if partial + values.last() <= u64::MAX {
                Some((partial + values.last()) as u64)
            } else {
                None
            },
            None => None,
        }
    }
}

/// Multiply the values left to right, failing at the first overflow.
pub fn checked_product(values: &[u64]) -> (result: Option<u64>)
    ensures
        result == checked_product_spec(values@),
{
    let mut product: u64 = 1;
    let mut index: usize = 0;
    assert(values@.subrange(0, 0) =~= Seq::<u64>::empty());
    while index < values.len()
        invariant
            index <= values@.len(),
            checked_product_spec(values@.subrange(0, index as int)) == Some(product),
        decreases values.len() - index,
    {
        assert(values@.subrange(0, index + 1).drop_last() =~= values@.subrange(0, index as int));
        match product.checked_mul(values[index]) {
            Some(next) => product = next,
            None => {
                assert(values@.subrange(0, values@.len() as int) =~= values@);
                proof {
                    lemma_checked_product_stops(values@, index as int);
                }
                return None;
            },
        }
        index = index + 1;
    }
    assert(values@.subrange(0, values@.len() as int) =~= values@);
    Some(product)
}

/// Once a prefix overflows, the whole product overflows.
proof fn lemma_checked_product_stops(values: Seq<u64>, failed: int)
    requires
        0 <= failed < values.len(),
        checked_product_spec(values.subrange(0, failed + 1)) is None,
    ensures
        checked_product_spec(values) is None,
    decreases values.len(),
{
    if values.len() > failed + 1 {
        assert(values.drop_last().subrange(0, failed + 1) =~= values.subrange(0, failed + 1));
        lemma_checked_product_stops(values.drop_last(), failed);
    } else {
        assert(values.subrange(0, failed + 1) =~= values);
    }
}

/// Add the values left to right, failing at the first overflow.
pub fn checked_sum(values: &[u64]) -> (result: Option<u64>)
    ensures
        result == checked_sum_spec(values@),
{
    let mut total: u64 = 0;
    let mut index: usize = 0;
    assert(values@.subrange(0, 0) =~= Seq::<u64>::empty());
    while index < values.len()
        invariant
            index <= values@.len(),
            checked_sum_spec(values@.subrange(0, index as int)) == Some(total),
        decreases values.len() - index,
    {
        assert(values@.subrange(0, index + 1).drop_last() =~= values@.subrange(0, index as int));
        match total.checked_add(values[index]) {
            Some(next) => total = next,
            None => {
                proof {
                    lemma_checked_sum_stops(values@, index as int);
                }
                return None;
            },
        }
        index = index + 1;
    }
    assert(values@.subrange(0, values@.len() as int) =~= values@);
    Some(total)
}

proof fn lemma_checked_sum_stops(values: Seq<u64>, failed: int)
    requires
        0 <= failed < values.len(),
        checked_sum_spec(values.subrange(0, failed + 1)) is None,
    ensures
        checked_sum_spec(values) is None,
    decreases values.len(),
{
    if values.len() > failed + 1 {
        assert(values.drop_last().subrange(0, failed + 1) =~= values.subrange(0, failed + 1));
        lemma_checked_sum_stops(values.drop_last(), failed);
    } else {
        assert(values.subrange(0, failed + 1) =~= values);
    }
}

/// A checked sum fails exactly when the exact sum leaves `u64`.
pub proof fn lemma_checked_sum_exact(values: Seq<u64>)
    ensures
        checked_sum_spec(values) == (if sum(values) <= u64::MAX {
            Some(sum(values) as u64)
        } else {
            None
        }),
        sum(values) >= 0,
    decreases values.len(),
{
    if values.len() > 0 {
        lemma_checked_sum_exact(values.drop_last());
    }
}

/// With every factor positive, a checked product fails exactly when the
/// exact product leaves `u64`.
pub proof fn lemma_checked_product_exact(values: Seq<u64>)
    requires
        forall|i: int| 0 <= i < values.len() ==> #[trigger] values[i] >= 1,
    ensures
        checked_product_spec(values) == (if product(values) <= u64::MAX {
            Some(product(values) as u64)
        } else {
            None
        }),
        product(values) >= 1,
    decreases values.len(),
{
    if values.len() > 0 {
        let prefix = values.drop_last();
        assert forall|i: int| 0 <= i < prefix.len() implies #[trigger] prefix[i] >= 1 by {
            assert(prefix[i] == values[i]);
        }
        lemma_checked_product_exact(prefix);
        let p = product(prefix);
        let l = values.last() as int;
        assert(l >= 1);
        assert(p * l >= p) by (nonlinear_arith)
            requires
                p >= 1,
                l >= 1,
        ;
    }
}

/// A product of unsigned values is not negative.
pub proof fn lemma_product_nonnegative(values: Seq<u64>)
    ensures
        product(values) >= 0,
    decreases values.len(),
{
    if values.len() > 0 {
        lemma_product_nonnegative(values.drop_last());
        let prefix = product(values.drop_last());
        let last = values.last() as int;
        assert(prefix * last >= 0) by (nonlinear_arith)
            requires
                prefix >= 0,
                last >= 0,
        ;
    }
}

} // verus!
