use rbrt_core::geometry::clamp;
use rbrt_core::montecarlo::reverse_bits_32;
use rbrt_core::geometry::is_power_of_2;
use rbrt_core::geometry::round_up_pow_2;

#[test]
fn clamp_returns_value_inside_range() {
    assert_eq!(clamp(5, 0, 10), 5);
}

#[test]
fn clamp_pins_to_low_bound() {
    assert_eq!(clamp(-3, 0, 10), 0);
}

#[test]
fn clamp_pins_to_high_bound() {
    assert_eq!(clamp(42, 0, 10), 10);
}

#[test]
fn power_of_two_recognized() {
    assert!(is_power_of_2(64));
    assert!(is_power_of_2(1));
    assert!(is_power_of_2(2));
    assert!(is_power_of_2(1 << 40));
}

#[test]
fn non_power_of_two_rejected() {
    assert!(!is_power_of_2(63));
    assert!(!is_power_of_2(0));
    assert!(!is_power_of_2(12));
}

#[test]
fn round_up_pow_2_rounds_17_to_32() {
    assert_eq!(round_up_pow_2(17), 32);
}

#[test]
fn round_up_pow_2_keeps_powers_fixed() {
    assert_eq!(round_up_pow_2(1), 1);
    assert_eq!(round_up_pow_2(2), 2);
    assert_eq!(round_up_pow_2(32), 32);
    assert_eq!(round_up_pow_2(1 << 20), 1 << 20);
}

#[test]
fn bit_reversal_mirrors_the_word() {
    assert_eq!(reverse_bits_32(0), 0);
    assert_eq!(reverse_bits_32(1), 1 << 31);
    assert_eq!(reverse_bits_32(1 << 31), 1);
    assert_eq!(reverse_bits_32(0x0000ffff), 0xffff0000);
    assert_eq!(reverse_bits_32(0x12345678), 0x1e6a2c48);
    for v in [0u32, 7, 0xdeadbeef, 0x80000001] {
        assert_eq!(reverse_bits_32(reverse_bits_32(v)), v);
    }
}

#[test]
fn round_up_pow_2_rounds_just_past_a_power() {
    assert_eq!(round_up_pow_2(3), 4);
    assert_eq!(round_up_pow_2(33), 64);
    assert_eq!(round_up_pow_2(1000), 1024);
    assert_eq!(round_up_pow_2((1 << 40) + 1), 1 << 41);
}
