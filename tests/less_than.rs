use sigma_types::less_than::{u128, u8, usize};
use sigma_types::{Describe, Test};

#[test]
fn less_than_is_strict() {
    assert!(u8::LessThan::<10>::try_new(9).is_ok());
    assert_eq!(u8::LessThan::<10>::try_new(10).err(), Some(10));
    assert!(usize::LessThan::<0>::try_new(0).is_err());
}

#[test]
fn less_than_error_carries_value() {
    let e = <u8::LessThanInvariant<3> as Test<::core::primitive::u8>>::test(&200).unwrap_err();
    assert_eq!(e.0, 200);
    assert_eq!(e.describe(), "200 >= 3");
}

#[test]
fn less_than_largest_width() {
    let e = u128::NotLessThan::<7>(::core::primitive::u128::MAX);
    assert_eq!(
        e.describe(),
        "340282366920938463463374607431768211455 >= 7"
    );
    assert_eq!(
        <u128::LessThanInvariant<7> as Test<::core::primitive::u128>>::ADJECTIVE,
        "less than the bound"
    );
}
