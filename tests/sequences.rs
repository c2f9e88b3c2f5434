use sigma_types::{
    All, AllPairs, Describe, NonZeroInvariant, OutOfOrder, PairTest, PositiveInvariant, Sigma,
    Sorted, SortedInvariant, SortedPair, Test,
};

type AllPositive = All<PositiveInvariant<i32>, Vec<i32>>;

#[test]
fn all_empty_succeeds() {
    assert!(<AllPositive as Test<Vec<i32>>>::test(&vec![]).is_ok());
}

#[test]
fn all_valid_succeeds() {
    assert!(<AllPositive as Test<Vec<i32>>>::test(&vec![1, 2, 3]).is_ok());
}

#[test]
fn all_reports_leftmost_failure() {
    let v = vec![1, -2, 3, 0, -7];
    let e = <AllPositive as Test<Vec<i32>>>::test(&v).unwrap_err();
    assert_eq!(e.index, 1);
    assert_eq!(e.element, "-2");
    assert_eq!(e.error.0, -2);
}

#[test]
fn all_message() {
    let v = vec![5, 6, 7, 8, 9, 10, 11, 12, 13, 14, 15, 0];
    let e = <AllPositive as Test<Vec<i32>>>::test(&v).unwrap_err();
    assert_eq!(e.describe(), "Element #11 (0) was not positive: 0 <= 0");
}

#[test]
fn sigma_of_all_nonzero() {
    type NonZeros = Sigma<Vec<i64>, All<NonZeroInvariant<i64>, Vec<i64>>>;
    assert!(NonZeros::try_new(vec![1, -1, 2]).is_ok());
    assert_eq!(NonZeros::try_new(vec![1, 0]).err(), Some(vec![1, 0]));
}

#[test]
fn sorted_pair_three_way_split() {
    assert_eq!(
        <SortedPair<false> as PairTest<i32>>::test(&3, &1),
        Err(OutOfOrder::Reversed)
    );
    assert_eq!(
        <SortedPair<false> as PairTest<i32>>::test(&1, &1),
        Err(OutOfOrder::Duplicate)
    );
    assert_eq!(<SortedPair<true> as PairTest<i32>>::test(&1, &1), Ok(()));
    assert_eq!(<SortedPair<false> as PairTest<i32>>::test(&1, &3), Ok(()));
}

#[test]
fn sorted_sequences_report_kind() {
    let e = <SortedInvariant<Vec<i32>, false> as Test<Vec<i32>>>::test(&vec![3, 1]).unwrap_err();
    assert_eq!(e.error, OutOfOrder::Reversed);
    assert_eq!(e.index_of_fst, 0);
    let e = <SortedInvariant<Vec<i32>, false> as Test<Vec<i32>>>::test(&vec![1, 1]).unwrap_err();
    assert_eq!(e.error, OutOfOrder::Duplicate);
}

#[test]
fn sorted_with_and_without_duplicates() {
    assert!(Sorted::<Vec<u8>, true>::try_new(vec![1, 2, 2, 3]).is_ok());
    assert!(Sorted::<Vec<u8>, false>::try_new(vec![1, 2, 2, 3]).is_err());
    assert!(Sorted::<Vec<u8>, false>::try_new(vec![1, 2, 3]).is_ok());
    assert!(Sorted::<Vec<u8>, false>::try_new(vec![]).is_ok());
    assert!(Sorted::<Vec<u8>, false>::try_new(vec![9]).is_ok());
}

#[test]
fn all_pairs_reports_leftmost_pair() {
    let v = vec![1, 2, 5, 4, 3];
    let e = <AllPairs<SortedPair<true>, Vec<i32>> as Test<Vec<i32>>>::test(&v).unwrap_err();
    assert_eq!(e.index_of_fst, 2);
    assert_eq!(e.elem_fst, "5");
    assert_eq!(e.elem_snd, "4");
}

#[test]
fn all_pairs_message() {
    let v = vec![3, 1];
    let e = <SortedInvariant<Vec<i32>, false> as Test<Vec<i32>>>::test(&v).unwrap_err();
    assert_eq!(
        e.describe(),
        "Elements #0 and #1 (3 and 1) were not sorted: reversed"
    );
}

#[test]
fn out_of_order_messages() {
    assert_eq!(
        OutOfOrder::Duplicate.describe(),
        "duplicate element (not allowed since `ALLOW_DUPLICATES = false`)"
    );
    assert_eq!(
        OutOfOrder::NoDefinedComparison.describe(),
        "no defined comparison"
    );
    assert_eq!(OutOfOrder::Reversed.describe(), "reversed");
}

#[test]
fn all_error_is_inner_tests_error() {
    let v = vec![4, -9];
    let e = <AllPositive as Test<Vec<i32>>>::test(&v).unwrap_err();
    let inner = <PositiveInvariant<i32> as Test<i32>>::test(&v[e.index]).unwrap_err();
    assert_eq!(e.error, inner);
    assert_eq!(e.describe(), format!("Element #1 (-9) was not positive: {}", inner.describe()));
}
