use sc16is752::baud::{compute_divisor, divisor_bytes, prescaler_from_mcr};

#[test]
fn divisor_standard_crystal_no_prescaler() {
    // 1_843_200 / (16 * 9600) = 12
    assert_eq!(compute_divisor(1_843_200, 1, 9600), 12);
}

#[test]
fn divisor_standard_crystal_prescaler_four() {
    // (1_843_200 / 4) / (16 * 9600) = 3
    assert_eq!(compute_divisor(1_843_200, 4, 9600), 3);
}

#[test]
fn divisor_truncates_instead_of_rounding() {
    // 1_843_200 / (16 * 115200) = 1 exactly
    assert_eq!(compute_divisor(1_843_200, 1, 115_200), 1);
    // 1_843_200 / (16 * 115201) = 0.999... -> truncated to 0
    assert_eq!(compute_divisor(1_843_200, 1, 115_201), 0);
    // 14_745_600 / (16 * 9601) = 95.99... -> truncated to 95
    assert_eq!(compute_divisor(14_745_600, 1, 9601), 95);
}

#[test]
fn prescaler_comes_from_modem_control_read_back() {
    assert_eq!(prescaler_from_mcr(0x00), 1);
    assert_eq!(prescaler_from_mcr(0x01), 4);
    assert_eq!(prescaler_from_mcr(0xFF), 4);
}

#[test]
fn divisor_splits_into_high_and_low_bytes() {
    assert_eq!(divisor_bytes(12), (0x00, 0x0C));
    assert_eq!(divisor_bytes(0x1234), (0x12, 0x34));
    assert_eq!(divisor_bytes(0xFFFF), (0xFF, 0xFF));
}
