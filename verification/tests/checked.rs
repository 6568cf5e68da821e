use recipe_ops::checked::{checked_product, checked_sum};

#[test]
fn checked_sum_adds_counts() {
    assert_eq!(checked_sum(&[]), Some(0));
    assert_eq!(checked_sum(&[3, 4, 5]), Some(12));
    assert_eq!(checked_sum(&[u64::MAX, 0]), Some(u64::MAX));
}

#[test]
fn checked_sum_reports_overflow() {
    assert_eq!(checked_sum(&[u64::MAX, 1]), None);
    assert_eq!(checked_sum(&[u64::MAX - 1, 1, 1]), None);
}

#[test]
fn checked_product_multiplies_counts() {
    assert_eq!(checked_product(&[]), Some(1));
    assert_eq!(checked_product(&[2, 3, 7]), Some(42));
    assert_eq!(checked_product(&[0, u64::MAX, u64::MAX]), Some(0));
    assert_eq!(checked_product(&[u64::MAX, 0]), Some(0));
    assert_eq!(checked_product(&[1u64 << 32, 1u64 << 32]), None);
}
