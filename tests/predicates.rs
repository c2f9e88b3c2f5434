use sigma_types::{
    Describe, NegativeInvariant, NonNegativeInvariant, NonPositiveInvariant, NonZeroInvariant,
    NotNegative, NotNonZero, NotOnUnit, NotPositive, OnUnitInvariant,
    PositiveInvariant, Test,
};

#[test]
fn sign_predicates_decide_by_comparison_to_zero() {
    for v in [-2_i8, -1, 0, 1, 2] {
        assert_eq!(<PositiveInvariant<i8> as Test<i8>>::test(&v).is_ok(), v > 0);
        assert_eq!(<NegativeInvariant<i8> as Test<i8>>::test(&v).is_ok(), v < 0);
        assert_eq!(<NonNegativeInvariant<i8> as Test<i8>>::test(&v).is_ok(), v >= 0);
        assert_eq!(<NonPositiveInvariant<i8> as Test<i8>>::test(&v).is_ok(), v <= 0);
        assert_eq!(<NonZeroInvariant<i8> as Test<i8>>::test(&v).is_ok(), v != 0);
    }
}

#[test]
fn unsigned_extremes() {
    assert!(<PositiveInvariant<u64> as Test<u64>>::test(&u64::MAX).is_ok());
    assert!(<NegativeInvariant<u64> as Test<u64>>::test(&0).is_err());
    assert!(<NonNegativeInvariant<usize> as Test<usize>>::test(&0).is_ok());
    assert!(<NonZeroInvariant<u128> as Test<u128>>::test(&0).is_err());
}

#[test]
fn errors_carry_rejected_value() {
    let e = <PositiveInvariant<i32> as Test<i32>>::test(&-4).unwrap_err();
    assert_eq!(e, NotPositive(-4));
    let e = <NegativeInvariant<i32> as Test<i32>>::test(&4).unwrap_err();
    assert_eq!(e, NotNegative(4));
    let e = <NonZeroInvariant<i32> as Test<i32>>::test(&0).unwrap_err();
    assert_eq!(e, NotNonZero(0));
}

#[test]
fn sign_messages() {
    assert_eq!(NotPositive(-4_i32).describe(), "-4 <= 0");
    assert_eq!(NotNegative(4_i32).describe(), "4 >= 0");
    let e = <NonNegativeInvariant<i32> as Test<i32>>::test(&-1).unwrap_err();
    assert_eq!(e.describe(), "-1 < 0");
    let e = <NonPositiveInvariant<i32> as Test<i32>>::test(&1).unwrap_err();
    assert_eq!(e.describe(), "1 > 0");
    assert_eq!(NotNonZero(0_u8).describe(), "0 == 0");
}

#[test]
fn on_unit_messages_show_inclusive_ends() {
    let e = <OnUnitInvariant<i32, true, false> as Test<i32>>::test(&1).unwrap_err();
    assert_eq!(e.describe(), "Not on [0, 1): 1");
    let e: NotOnUnit<i32, false, true> = NotOnUnit(5);
    assert_eq!(e.describe(), "Not on (0, 1]: 5");
}

#[test]
fn adjectives() {
    assert_eq!(<PositiveInvariant<i32> as Test<i32>>::ADJECTIVE, "positive");
    assert_eq!(<NegativeInvariant<i32> as Test<i32>>::ADJECTIVE, "negative");
    assert_eq!(<NonNegativeInvariant<i32> as Test<i32>>::ADJECTIVE, "non-negative");
    assert_eq!(<NonPositiveInvariant<i32> as Test<i32>>::ADJECTIVE, "non-positive");
    assert_eq!(<NonZeroInvariant<i32> as Test<i32>>::ADJECTIVE, "nonzero");
    assert_eq!(
        <OnUnitInvariant<i32, true, true> as Test<i32>>::ADJECTIVE,
        "on the unit interval"
    );
}
