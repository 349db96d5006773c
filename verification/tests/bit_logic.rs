use rpgbe::bit_logic::{bit_value, check_bit, compose_bytes, decompose_bytes, reset_bit, set_bit, set_bit_to};

#[test]
fn check_bit_reads_single_bits() {
    assert!(check_bit(0b1010_0000, 7));
    assert!(!check_bit(0b1010_0000, 6));
    assert!(check_bit(0b1010_0000, 5));
    assert!(!check_bit(0, 0));
    assert!(check_bit(1, 0));
}

#[test]
fn bit_value_is_zero_or_one() {
    assert_eq!(bit_value(0b0000_0100, 2), 1);
    assert_eq!(bit_value(0b0000_0100, 3), 0);
    assert_eq!(bit_value(0xff, 7), 1);
}

#[test]
fn set_and_reset_bits() {
    assert_eq!(set_bit(0, 7), 0x80);
    assert_eq!(set_bit(0x80, 7), 0x80);
    assert_eq!(reset_bit(0xff, 0), 0xfe);
    assert_eq!(reset_bit(0x00, 3), 0x00);
    assert_eq!(set_bit_to(true, 0x10, 0), 0x11);
    assert_eq!(set_bit_to(false, 0x11, 4), 0x01);
}

#[test]
fn set_then_reset_then_check() {
    for byte in 0..=255u8 {
        for position in 0..8u8 {
            assert!(check_bit(set_bit(byte, position), position));
            assert!(!check_bit(reset_bit(byte, position), position));
            assert_eq!(set_bit_to(check_bit(byte, position), byte, position), byte);
        }
    }
}

#[test]
fn compose_and_decompose_words() {
    assert_eq!(compose_bytes(0x34, 0x12), 0x1234);
    assert_eq!(compose_bytes(0xff, 0x00), 0x00ff);
    assert_eq!(decompose_bytes(0x1234), (0x34, 0x12));
    assert_eq!(decompose_bytes(0xff00), (0x00, 0xff));
    for word in [0u16, 1, 0x00ff, 0x0100, 0xabcd, 0xffff] {
        let (lower, upper) = decompose_bytes(word);
        assert_eq!(compose_bytes(lower, upper), word);
    }
}
