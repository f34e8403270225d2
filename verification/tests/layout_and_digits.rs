use hexview::hex_digits::byte_to_hex;
use hexview::hex_digits::hex_digit;
use hexview::layout::compute_layout;
use hexview::layout::compute_max_row_offset;
use hexview::layout::total_rows;

/// The nibble value a hex digit character stands for.
fn digit_value(c: char) -> u8 {
    match c {
        '0' => 0x0,
        '1' => 0x1,
        '2' => 0x2,
        '3' => 0x3,
        '4' => 0x4,
        '5' => 0x5,
        '6' => 0x6,
        '7' => 0x7,
        '8' => 0x8,
        '9' => 0x9,
        'A' => 0xA,
        'B' => 0xB,
        'C' => 0xC,
        'D' => 0xD,
        'E' => 0xE,
        'F' => 0xF,
        _ => panic!("not a hex digit: {}", c),
    }
}

#[test]
fn layout_standard_terminal() {
    // 80 columns, 20 of them gutter: (80 - 20 + 1) / 3 = 20 bytes.
    assert_eq!(compute_layout(80, 20), 20);
}

#[test]
fn layout_narrow_but_usable() {
    // One column past the gutter still fits one byte per row.
    assert_eq!(compute_layout(21, 20), 1);
    assert_eq!(compute_layout(22, 20), 1);
}

#[test]
fn layout_degenerate_viewport() {
    assert_eq!(compute_layout(20, 20), 0);
    assert_eq!(compute_layout(5, 20), 0);
    assert_eq!(compute_layout(0, 20), 0);
}

#[test]
fn layout_monotone_in_width() {
    let mut prev: u16 = 0;
    for cols in 21..=200u16 {
        let bpr = compute_layout(cols, 20);
        assert!(bpr >= 1);
        assert!(bpr >= prev);
        prev = bpr;
    }
}

#[test]
fn total_rows_exact_values() {
    assert_eq!(total_rows(0, 16), 0);
    assert_eq!(total_rows(1, 16), 1);
    assert_eq!(total_rows(16, 16), 1);
    assert_eq!(total_rows(17, 16), 2);
    assert_eq!(total_rows(32, 16), 2);
    assert_eq!(total_rows(33, 16), 3);
    assert_eq!(total_rows(100, 0), 0);
}

#[test]
fn total_rows_covers_length() {
    for length in 1..200u64 {
        for bpr in 1..20u16 {
            let rows = total_rows(length, bpr);
            assert!(rows * (bpr as u64) >= length);
            assert!((rows - 1) * (bpr as u64) < length);
        }
    }
}

#[test]
fn max_row_offset_values() {
    assert_eq!(compute_max_row_offset(0, 16), 0);
    assert_eq!(compute_max_row_offset(16, 16), 0);
    assert_eq!(compute_max_row_offset(17, 16), 1);
    assert_eq!(compute_max_row_offset(100, 0), 0);
}

#[test]
fn hex_digits_all_nibbles() {
    let expected = [
        '0', '1', '2', '3', '4', '5', '6', '7', '8', '9', 'A', 'B', 'C', 'D', 'E', 'F',
    ];
    for n in 0..16u8 {
        assert_eq!(hex_digit(n), expected[n as usize]);
    }
}

#[test]
fn byte_to_hex_high_nibble_first() {
    assert_eq!(byte_to_hex(0xF0), ('F', '0'));
    assert_eq!(byte_to_hex(0x0F), ('0', 'F'));
    assert_eq!(byte_to_hex(0xAB), ('A', 'B'));
    assert_eq!(byte_to_hex(0x00), ('0', '0'));
    assert_eq!(byte_to_hex(0xFF), ('F', 'F'));
}

#[test]
fn hex_pair_round_trips_every_byte() {
    for b in 0..=255u8 {
        let (hi, lo) = byte_to_hex(b);
        assert_eq!(digit_value(hi) * 16 + digit_value(lo), b);
    }
}
