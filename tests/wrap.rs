use discortp::wrap::{Wrap16, Wrap32};

#[test]
fn wrap16_max_plus_one_is_zero() {
    assert_eq!(Wrap16(65535) + 1, Wrap16(0));
    assert_eq!(Wrap16::new(65535) + 1, Wrap16::new(0));
}

#[test]
fn wrap32_max_plus_one_is_zero() {
    assert_eq!(Wrap32(4294967295) + 1, Wrap32(0));
}

#[test]
fn wrap_subtraction_below_zero() {
    assert_eq!(Wrap16(0) - 1, Wrap16(65535));
    assert_eq!(Wrap32(2) - 5, Wrap32(4294967293));
}

#[test]
fn wrap_assign_operators() {
    let mut a = Wrap16(65530);
    a += 10;
    assert_eq!(a, Wrap16(4));
    a -= 5;
    assert_eq!(a, Wrap16(65535));
    let mut b = Wrap32(7);
    b += 3;
    assert_eq!(b, Wrap32(10));
    b -= 11;
    assert_eq!(b, Wrap32(4294967295));
}

#[test]
fn wrap_conversions() {
    let a: Wrap16 = 1234u16.into();
    let x: u16 = a.into();
    assert_eq!(x, 1234);
    let b: Wrap32 = Wrap32::from(99u32);
    assert_eq!(u32::from(b), 99);
}

#[test]
fn wrap_primitive_values() {
    assert_eq!(Wrap16(513).to_primitive_values(), (513,));
    assert_eq!(Wrap32(70000).to_primitive_values(), (70000,));
}
