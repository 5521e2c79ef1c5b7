use stm32_lessons::lcd::{
    busy_flag_4pin, busy_flag_8pin, control_levels, data_line_levels, is_busy, nibble_line_levels,
    split_byte, systick_count_flag,
};

#[test]
fn control_levels_follow_rs_and_rw() {
    assert_eq!(control_levels(0, 0), (false, false));
    assert_eq!(control_levels(1, 0), (true, false));
    assert_eq!(control_levels(0, 1), (false, true));
    assert_eq!(control_levels(1, 1), (true, true));
}

#[test]
fn data_lines_of_a_byte() {
    assert_eq!(
        data_line_levels(0b0100_1101),
        vec![true, false, true, true, false, false, true, false]
    );
    assert_eq!(data_line_levels(0), vec![false; 8]);
    assert_eq!(data_line_levels(0xFF), vec![true; 8]);
}

#[test]
fn nibble_lines_and_split() {
    assert_eq!(split_byte(0b0010_1000), (0b0010, 0b1000));
    assert_eq!(nibble_line_levels(0b0010), vec![false, true, false, false]);
    assert_eq!(nibble_line_levels(0b1000), vec![false, false, false, true]);
    // The two nibbles carry the byte's upper and lower data lines.
    for data in 0..=255u8 {
        let (high, low) = split_byte(data);
        assert_eq!(high * 16 + low, data);
        let lines = data_line_levels(data);
        assert_eq!(nibble_line_levels(high), lines[4..8].to_vec());
        assert_eq!(nibble_line_levels(low), lines[0..4].to_vec());
    }
}

#[test]
fn busy_flag_reads() {
    assert_eq!(busy_flag_8pin(0xABCD), 0xCD);
    assert!(is_busy(0x80));
    assert!(is_busy(0xFF));
    assert!(!is_busy(0x7F));
    // 4-line wiring: D4..D7 are port bits 4..7; busy flag 1, address 0x23.
    assert_eq!(busy_flag_4pin(0b1010_0000, 0b0011_0000), 0b1010_0011);
    assert_eq!(busy_flag_4pin(0xF0F0, 0x0050), 0xF5);
    // Only port bits 4..7 carry data: bits 8..11 (and the rest) are ignored.
    assert_eq!(busy_flag_4pin(0, 0x100), 0);
    assert_eq!(busy_flag_4pin(0x0F0F, 0xFF0F), 0x00);
    assert_eq!(busy_flag_4pin(0x7F70, 0x0FFF), 0x7F);
    assert!(!is_busy(busy_flag_4pin(0x0070, 0x0F00)));
}

#[test]
fn systick_count_flag_is_bit_16() {
    assert!(systick_count_flag(1 << 16));
    assert!(systick_count_flag(0x1_0001));
    assert!(!systick_count_flag(0xFFFF));
    assert!(!systick_count_flag(1 << 17));
}
