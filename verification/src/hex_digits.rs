//! Rendering a byte as its two hexadecimal digit characters: the high
//! nibble (bits 4-7) first, the low nibble (bits 0-3) second.

use vstd::prelude::*;

verus! {

/// The hexadecimal digit character for a nibble value `0..16`:
/// `0-9` map to `'0'..'9'`, `10-15` map to `'A'..'F'`.
pub open spec fn hex_digit_char(n: int) -> char
    recommends
        0 <= n < 16,
{
    if n == 0x0 {
        '0'
    } else if n == 0x1 {
        '1'
    } else if n == 0x2 {
        '2'
    } else if n == 0x3 {
        '3'
    } else if n == 0x4 {
        '4'
    } else if n == 0x5 {
        '5'
    } else if n == 0x6 {
        '6'
    } else if n == 0x7 {
        '7'
    } else if n == 0x8 {
        '8'
    } else if n == 0x9 {
        '9'
    } else if n == 0xA {
        'A'
    } else if n == 0xB {
        'B'
    } else if n == 0xC {
        'C'
    } else if n == 0xD {
        'D'
    } else if n == 0xE {
        'E'
    } else {
        'F'
    }
}

/// The nibble value a hexadecimal digit character stands for: the
/// inverse of `hex_digit_char` on `'0'..'9'` and `'A'..'F'`.
pub open spec fn hex_digit_value(c: char) -> int {
    if c == '0' {
        0x0
    } else if c == '1' {
        0x1
    } else if c == '2' {
        0x2
    } else if c == '3' {
        0x3
    } else if c == '4' {
        0x4
    } else if c == '5' {
        0x5
    } else if c == '6' {
        0x6
    } else if c == '7' {
        0x7
    } else if c == '8' {
        0x8
    } else if c == '9' {
        0x9
    } else if c == 'A' {
        0xA
    } else if c == 'B' {
        0xB
    } else if c == 'C' {
        0xC
    } else if c == 'D' {
        0xD
    } else if c == 'E' {
        0xE
    } else {
        0xF
    }
}

/// The two hex digit characters of a byte, high nibble first.
pub open spec fn byte_hex_pair(b: u8) -> (char, char) {
    (hex_digit_char(b as int / 16), hex_digit_char(b as int % 16))
}

/// The hex digit character for one nibble value.
pub fn hex_digit(nibble: u8) -> (r: char)
    requires
        nibble < 16,
    ensures
        r == hex_digit_char(nibble as int),
{
    match nibble {
        0x0 => '0',
        0x1 => '1',
        0x2 => '2',
        0x3 => '3',
        0x4 => '4',
        0x5 => '5',
        0x6 => '6',
        0x7 => '7',
        0x8 => '8',
        0x9 => '9',
        0xA => 'A',
        0xB => 'B',
        0xC => 'C',
        0xD => 'D',
        0xE => 'E',
        _ => 'F',
    }
}

/// Both hex digit characters of a byte, high nibble first.
pub fn byte_to_hex(b: u8) -> (r: (char, char))
    ensures
        r == byte_hex_pair(b),
{
    let hi: u8 = b >> 4;
    let lo: u8 = b & 0x0F;
    proof {
        assert(b >> 4 == b / 16 && b & 0x0F == b % 16 && b / 16 < 16 && b % 16 < 16)
            by (bit_vector);
    }
    (hex_digit(hi), hex_digit(lo))
}

/// Law: the two hex digits of a byte determine the byte. Reading the
/// nibble values back from the characters and recombining them as
/// `hi * 16 + lo` reconstructs the original byte.
pub proof fn lemma_hex_round_trip(b: u8)
    ensures
        hex_digit_value(byte_hex_pair(b).0) * 16 + hex_digit_value(byte_hex_pair(b).1) == b,
{
    let hi = b as int / 16;
    let lo = b as int % 16;
    assert(0 <= hi < 16 && 0 <= lo < 16);
    assert(hex_digit_value(hex_digit_char(hi)) == hi);
    assert(hex_digit_value(hex_digit_char(lo)) == lo);
    vstd::arithmetic::div_mod::lemma_fundamental_div_mod(b as int, 16);
}

} // verus!
