use frame_loop::scalar::{
    in_unit_interval, is_zero, HALF, NEG_HALF, NEG_ZERO, ONE, TENTH, THREE_TENTHS, TWO_TENTHS, ZERO,
};

#[test]
fn constants_are_the_encodings_of_their_numbers() {
    assert_eq!(ZERO, 0.0f32.to_bits());
    assert_eq!(NEG_ZERO, (-0.0f32).to_bits());
    assert_eq!(ONE, 1.0f32.to_bits());
    assert_eq!(HALF, 0.5f32.to_bits());
    assert_eq!(NEG_HALF, (-0.5f32).to_bits());
    assert_eq!(TENTH, 0.1f32.to_bits());
    assert_eq!(TWO_TENTHS, 0.2f32.to_bits());
    assert_eq!(THREE_TENTHS, 0.3f32.to_bits());
}

#[test]
fn zero_of_either_sign_is_zero() {
    assert!(is_zero(0.0f32.to_bits()));
    assert!(is_zero((-0.0f32).to_bits()));
    assert!(!is_zero(1.0f32.to_bits()));
    assert!(!is_zero(f32::MIN_POSITIVE.to_bits()));
    assert!(!is_zero(f32::NAN.to_bits()));
    assert!(!is_zero(1));
}

#[test]
fn unit_interval_has_its_end_points() {
    assert!(in_unit_interval(0.0f32.to_bits()));
    assert!(in_unit_interval((-0.0f32).to_bits()));
    assert!(in_unit_interval(1.0f32.to_bits()));
    assert!(in_unit_interval(0.5f32.to_bits()));
    assert!(in_unit_interval(f32::MIN_POSITIVE.to_bits()));
}

#[test]
fn unit_interval_leaves_out_what_is_outside() {
    let above_one = f32::from_bits(1.0f32.to_bits() + 1);
    assert!(above_one > 1.0);
    assert!(!in_unit_interval(above_one.to_bits()));
    assert!(!in_unit_interval(2.0f32.to_bits()));
    assert!(!in_unit_interval((-0.5f32).to_bits()));
    assert!(!in_unit_interval((-f32::MIN_POSITIVE).to_bits()));
    assert!(!in_unit_interval(f32::INFINITY.to_bits()));
    assert!(!in_unit_interval(f32::NEG_INFINITY.to_bits()));
    assert!(!in_unit_interval(f32::NAN.to_bits()));
    assert!(!in_unit_interval((-f32::NAN).to_bits()));
}

#[test]
fn unit_interval_agrees_with_comparison_of_the_numbers() {
    let mut bits: u32 = 0;
    let mut checked = 0u32;
    loop {
        let x = f32::from_bits(bits);
        assert_eq!(in_unit_interval(bits), 0.0 <= x && x <= 1.0, "bits {:#010x}", bits);
        checked += 1;
        match bits.checked_add(0x0001_0003) {
            Some(next) => bits = next,
            None => break,
        }
    }
    assert!(checked > 60_000);
}
