use emurom::bits::{deposit, extract, fits, replace};

#[test]
fn extract_reads_nibbles() {
    assert_eq!(extract(0xA5, 0, 4), 0x5);
    assert_eq!(extract(0xA5, 4, 4), 0xA);
}

#[test]
fn extract_reads_single_bits() {
    // 0b1010_0101
    let expected = [1u8, 0, 1, 0, 0, 1, 0, 1];
    for bit in 0..8u32 {
        assert_eq!(extract(0xA5, bit, 1), expected[bit as usize]);
    }
}

#[test]
fn extract_reads_inner_field() {
    // bits 2..5 of 0b0101_1100 are 0b111
    assert_eq!(extract(0b0101_1100, 2, 3), 0b111);
    assert_eq!(extract(0b0101_1100, 5, 3), 0b010);
}

#[test]
fn extract_of_whole_byte_is_identity() {
    for byte in 0..=255u8 {
        assert_eq!(extract(byte, 0, 8), byte);
    }
}

#[test]
fn extract_is_quotient_and_remainder_on_every_byte() {
    for byte in 0..=255u8 {
        for offset in 0..8u32 {
            for width in 1..=(8 - offset) {
                let expected = ((byte as u32) >> offset) % (1u32 << width);
                assert_eq!(extract(byte, offset, width) as u32, expected);
            }
        }
    }
}

#[test]
fn fits_compares_with_the_width() {
    assert!(fits(0, 1));
    assert!(fits(1, 1));
    assert!(!fits(2, 1));
    assert!(fits(15, 4));
    assert!(!fits(16, 4));
    assert!(fits(127, 7));
    assert!(!fits(128, 7));
    assert!(fits(255, 8));
}

#[test]
fn deposit_sets_only_the_field() {
    assert_eq!(deposit(0xA, 4, 4), 0xA0);
    assert_eq!(deposit(0x5, 0, 4), 0x05);
    assert_eq!(deposit(1, 7, 1), 0x80);
    assert_eq!(deposit(0b11, 2, 2), 0b1100);
}

#[test]
fn deposit_then_extract_gives_the_value_back() {
    for offset in 0..8u32 {
        for width in 1..=(8 - offset) {
            for value in 0..(1u32 << width) {
                let byte = deposit(value as u8, offset, width);
                assert_eq!(extract(byte, offset, width), value as u8);
                assert_eq!(byte as u32, value << offset);
            }
        }
    }
}

#[test]
fn replace_changes_the_field_and_nothing_else() {
    assert_eq!(replace(0xFF, 0, 4, 4), 0x0F);
    assert_eq!(replace(0x00, 0xF, 4, 4), 0xF0);
    assert_eq!(replace(0b1010_0101, 0b11, 1, 2), 0b1010_0111);
    for byte in 0..=255u8 {
        let out = replace(byte, 0b10, 2, 2);
        assert_eq!(extract(out, 2, 2), 0b10);
        assert_eq!(extract(out, 0, 2), extract(byte, 0, 2));
        assert_eq!(extract(out, 4, 4), extract(byte, 4, 4));
    }
}
