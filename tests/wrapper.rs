use sigma_types::{
    Negative, NegativeInvariant, NonNegative, NonNegativeInvariant, NonZeroInvariant, OnUnit,
    Positive, PositiveInvariant, Test,
};

#[test]
fn new_then_get_round_trips() {
    assert_eq!(Positive::<i32>::new(7).get(), 7);
    assert_eq!(NonNegative::<u8>::new(0).get(), 0);
    assert_eq!(Negative::<i64>::new(i64::MIN).get(), i64::MIN);
}

#[test]
fn try_new_agrees_with_test() {
    for v in [i32::MIN, -5, -1, 0, 1, 5, i32::MAX] {
        let tested = <PositiveInvariant<i32> as Test<i32>>::test(&v).is_ok();
        assert_eq!(Positive::<i32>::try_new(v).is_ok(), tested);
        assert_eq!(tested, v > 0);
    }
}

#[test]
fn try_new_hands_back_rejected_value() {
    assert_eq!(Positive::<i32>::try_new(-3).err(), Some(-3));
}

#[test]
fn non_negative_scenario() {
    assert_eq!(NonNegative::<i32>::try_new(-1).err(), Some(-1));
    let zero = NonNegative::<i32>::try_new(0).unwrap();
    assert_eq!(zero.get(), 0);
}

#[test]
fn positive_rejects_zero() {
    assert!(Positive::<i32>::try_new(0).is_err());
    assert!(Positive::<i32>::try_new(1).is_ok());
}

#[test]
fn on_unit_boundaries() {
    assert!(OnUnit::<i32, true, false>::try_new(1).is_err());
    assert!(OnUnit::<i32, true, false>::try_new(0).is_ok());
    assert!(OnUnit::<i32, false, true>::try_new(0).is_err());
    assert!(OnUnit::<i32, false, true>::try_new(1).is_ok());
    assert!(OnUnit::<i32, true, true>::try_new(2).is_err());
    assert!(OnUnit::<i32, true, true>::try_new(-1).is_err());
    assert!(OnUnit::<u8, false, false>::try_new(0).is_err());
}

#[test]
fn also_under_same_invariant_keeps_value() {
    let p = Positive::<i32>::new(9);
    let same = p.try_also::<PositiveInvariant<i32>>().ok().unwrap();
    assert_eq!(same.get(), 9);
    let again = Positive::<i32>::new(9).also::<PositiveInvariant<i32>>();
    assert_eq!(again.get(), 9);
}

#[test]
fn try_also_other_invariant() {
    let p = Positive::<i32>::new(4);
    let nn = p.try_also::<NonNegativeInvariant<i32>>().ok().unwrap();
    assert_eq!(nn.get(), 4);
    let back = NonNegative::<i32>::new(0).try_also::<PositiveInvariant<i32>>();
    assert_eq!(back.err().map(|s| s.get()), Some(0));
}

#[test]
fn try_also_ref_reports_error() {
    let p = NonNegative::<i32>::new(0);
    let e = p.try_also_ref::<PositiveInvariant<i32>>().err().unwrap();
    assert_eq!(e.0, 0);
    let ok = p.try_also_ref::<NonZeroInvariant<i32>>();
    assert!(ok.is_err());
    let q = Positive::<i32>::new(2).try_also_ref::<NonZeroInvariant<i32>>().ok().unwrap();
    assert_eq!(q.get(), 2);
}

#[test]
fn also_ref_and_wrap_copy_the_value() {
    let p = Positive::<i32>::new(3);
    let nz = p.also_ref::<NonZeroInvariant<i32>>();
    assert_eq!(*nz.get_ref(), 3);
    assert_eq!(p.get(), 3);
    let raw = 6_u16;
    assert_eq!(Positive::<u16>::wrap(&raw).get(), 6);
}

#[test]
fn modify_negating_positive_fails() {
    let mut p = Positive::<i32>::new(5);
    let r = p.modify(|x| -*x);
    assert_eq!(r, Err(-5));
    assert_eq!(p.get(), 5);
}

#[test]
fn modify_keeping_invariant_succeeds() {
    let mut p = Positive::<i32>::new(5);
    assert_eq!(p.modify(|x| *x * 2), Ok(()));
    assert_eq!(p.get(), 10);
}

#[test]
fn map_mut_mutates_in_place() {
    let mut p = Positive::<i32>::new(5);
    let before = p.map_mut(|x| {
        let b = *x;
        *x += 1;
        b
    });
    assert_eq!(before, 5);
    assert_eq!(p.get(), 6);
}

#[test]
fn get_by_mut_mutates_in_place() {
    let mut p = NonNegative::<u32>::new(7);
    p.get_by_mut(|x| *x *= 3);
    assert_eq!(*p, 21);
}

#[test]
fn all_wraps_each_element() {
    let wrapped = Positive::<i32>::all(&[1, 2, 3]);
    assert_eq!(wrapped.len(), 3);
    assert_eq!(wrapped[2].get(), 3);
}

#[test]
fn map_changes_invariant() {
    let n = Positive::<i32>::new(3).map::<i32, NegativeInvariant<i32>, _>(|x| -x);
    assert_eq!(n.get(), -3);
    let p = Positive::<i32>::new(3);
    let m = p.map_ref::<i64, PositiveInvariant<i64>, _>(|x| i64::from(*x) * 1000);
    assert_eq!(m.get(), 3000);
    assert_eq!(p.get(), 3);
}

#[test]
fn get_by_variants() {
    assert_eq!(Positive::<i32>::new(8).get_by(|x| x + 1), 9);
    let p = Positive::<i32>::new(8);
    assert_eq!(p.get_by_ref(|x| *x * 3), 24);
}

#[test]
fn checks_pass_on_valid_values() {
    let p = Positive::<i32>::new(1);
    p.check();
    assert!(p.try_check().is_ok());
}

#[test]
fn copies_compare_by_raw_value() {
    let a = Positive::<i32>::new(2);
    let b = a.clone();
    let c = a;
    assert_eq!(a, b);
    assert_eq!(b, c);
    assert!(Positive::<i32>::new(1) < Positive::<i32>::new(2));
}

#[test]
fn debug_string_names_invariant_when_asked() {
    let p = Positive::<i32>::new(5);
    assert_eq!(p.debug_string(true), "(positive) 5");
    assert_eq!(p.debug_string(false), "5");
}

#[test]
fn try_also_ref_error_is_target_tests_error() {
    let p = NonNegative::<i32>::new(0);
    let e = p.try_also_ref::<PositiveInvariant<i32>>().err().unwrap();
    assert_eq!(e, <PositiveInvariant<i32> as Test<i32>>::test(&0).unwrap_err());
}
