use ledger_modules::tools::sum_u32;

#[test]
fn test_sum_u32() {
    let sum = sum_u32(&vec![2, u32::MAX]);
    assert_eq!(sum, Option::None);
    let sum = sum_u32(&vec![2, 3, 4, 5, 6, 7, 8]);
    assert_eq!(sum.unwrap(), 35);
}

#[test]
fn sum_of_nothing_is_zero() {
    assert_eq!(sum_u32(&[]), Some(0));
}

#[test]
fn sum_reaches_the_largest_value_and_no_further() {
    assert_eq!(sum_u32(&[u32::MAX - 1, 1]), Some(u32::MAX));
    assert_eq!(sum_u32(&[u32::MAX - 1, 1, 0]), Some(u32::MAX));
    assert_eq!(sum_u32(&[u32::MAX - 1, 1, 1]), None);
    assert_eq!(sum_u32(&[u32::MAX, 1, 0, 0]), None);
}
