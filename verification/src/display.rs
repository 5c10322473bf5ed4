//! Hexadecimal presentation of numbers.
//!
//! Immediates and addresses are shown the way a disassembly expects them:
//! unsigned values as their `0x`-prefixed hex digits, signed values either
//! as the hex bit pattern of their width or, when built from a negative
//! value, as a `-` followed by the hex digits of the magnitude.

use vstd::prelude::*;
use vstd::string::*;

verus! {

/// How a number should be rendered: signed or unsigned, decimal or
/// hexadecimal, and whether an explicit sign is written ahead of it.
pub enum NumberStyleHint {
    Signed,
    HexSigned,
    SignedWithSign,
    HexSignedWithSign,
    SignedWithSignSplit,
    HexSignedWithSignSplit,
    Unsigned,
    HexUnsigned,
    UnsignedWithSign,
    HexUnsignedWithSign,
}

/// The lowercase hexadecimal digit character for `d`.
pub open spec fn spec_hex_char(d: int) -> char {
    if d == 0 {
        '0'
    } else if d == 1 {
        '1'
    } else if d == 2 {
        '2'
    } else if d == 3 {
        '3'
    } else if d == 4 {
        '4'
    } else if d == 5 {
        '5'
    } else if d == 6 {
        '6'
    } else if d == 7 {
        '7'
    } else if d == 8 {
        '8'
    } else if d == 9 {
        '9'
    } else if d == 10 {
        'a'
    } else if d == 11 {
        'b'
    } else if d == 12 {
        'c'
    } else if d == 13 {
        'd'
    } else if d == 14 {
        'e'
    } else {
        'f'
    }
}

/// The minimal lowercase hexadecimal digit string of `n`, most significant
/// digit first; `0` is written as the single digit `0`.
pub open spec fn spec_hex_digits(n: nat) -> Seq<char>
    decreases n,
{
    if n < 16 {
        seq![spec_hex_char(n as int)]
    } else {
        spec_hex_digits(n / 16).push(spec_hex_char((n % 16) as int))
    }
}

/// The `{:#x}` rendering of an unsigned value: `0x`, then the minimal
/// hex digits.
pub open spec fn spec_unsigned_hex(n: nat) -> Seq<char> {
    seq!['0', 'x'] + spec_hex_digits(n)
}

/// The rendering of a hex number carrying a sign flag: the magnitude's
/// `{:#x}` form, preceded by `-` when the flag is set.
pub open spec fn spec_signed_hex(negative: bool, magnitude: nat) -> Seq<char> {
    if negative {
        seq!['-'] + spec_unsigned_hex(magnitude)
    } else {
        spec_unsigned_hex(magnitude)
    }
}

/// The representative of `v` in `[0, m)` under two's complement of
/// modulus `m`, for `-m <= v < m`.
pub open spec fn spec_bits(v: int, m: int) -> int {
    if v >= 0 {
        v
    } else {
        v + m
    }
}

/// The signed reading of a bit pattern `b` in `[0, m)` under two's
/// complement of modulus `m`.
pub open spec fn spec_signed_of(b: int, m: int) -> int {
    if b < m / 2 {
        b
    } else {
        b - m
    }
}

/// The magnitude whose hex digits are shown for a value `v` of modulus
/// `m`: the bit pattern of `v` itself, or of its wrapped negation when
/// the number is displayed as negative.
pub open spec fn spec_hex_magnitude(v: int, negative: bool, m: int) -> int {
    let b = spec_bits(v, m);
    if negative {
        if b == 0 {
            0
        } else {
            m - b
        }
    } else {
        b
    }
}

/// The single-character string for the hex digit `d`.
fn hex_digit_str(d: u8) -> (r: &'static str)
    requires
        d < 16,
    ensures
        r@ == seq![spec_hex_char(d as int)],
{
    proof {
        reveal_strlit("0");
        reveal_strlit("1");
        reveal_strlit("2");
        reveal_strlit("3");
        reveal_strlit("4");
        reveal_strlit("5");
        reveal_strlit("6");
        reveal_strlit("7");
        reveal_strlit("8");
        reveal_strlit("9");
        reveal_strlit("a");
        reveal_strlit("b");
        reveal_strlit("c");
        reveal_strlit("d");
        reveal_strlit("e");
        reveal_strlit("f");
    }
    match d {
        0 => "0",
        1 => "1",
        2 => "2",
        3 => "3",
        4 => "4",
        5 => "5",
        6 => "6",
        7 => "7",
        8 => "8",
        9 => "9",
        10 => "a",
        11 => "b",
        12 => "c",
        13 => "d",
        14 => "e",
        _ => "f",
    }
}

/// The minimal hex digit string of `n`.
fn hex_digits_string(n: u64) -> (s: String)
    ensures
        s@ == spec_hex_digits(n as nat),
    decreases n,
{
    if n < 16 {
        String::from_str(hex_digit_str(n as u8))
    } else {
        let mut s = hex_digits_string(n / 16);
        let d = hex_digit_str((n % 16) as u8);
        proof {
            assert(s@ + d@ =~= s@.push(spec_hex_char((n % 16) as int)));
        }
        s.append(d);
        s
    }
}

/// The `{:#x}` rendering of `v`.
pub fn unsigned_hex_string(v: u64) -> (s: String)
    ensures
        s@ == spec_unsigned_hex(v as nat),
{
    let mut s = String::from_str("0x");
    proof {
        reveal_strlit("0x");
        assert("0x"@ =~= seq!['0', 'x']);
    }
    let digits = hex_digits_string(v);
    s.append(digits.as_str());
    s
}

/// A number destined for hexadecimal display, with a flag that asks for a
/// `-` sign and the magnitude's digits instead of the raw bit pattern.
pub struct SignedHexDisplay<T> {
    pub value: T,
    pub negative: bool,
}

impl SignedHexDisplay<i8> {
    /// The text this value displays as: the hex bit pattern of `value`,
    /// or `-` and the hex magnitude when `negative` is set.
    pub fn display_string(&self) -> (s: String)
        ensures
            s@ == spec_signed_hex(
                self.negative,
                spec_hex_magnitude(self.value as int, self.negative, 0x100) as nat,
            ),
    {
        let bits = 0u8.wrapping_add_signed(self.value);
        if self.negative {
            let magnitude = 0u8.wrapping_sub(bits);
            let mut s = String::from_str("-");
            proof {
                reveal_strlit("-");
                assert("-"@ =~= seq!['-']);
            }
            let rest = unsigned_hex_string(magnitude as u64);
            s.append(rest.as_str());
            s
        } else {
            unsigned_hex_string(bits as u64)
        }
    }
}

impl SignedHexDisplay<i16> {
    /// The text this value displays as: the hex bit pattern of `value`,
    /// or `-` and the hex magnitude when `negative` is set.
    pub fn display_string(&self) -> (s: String)
        ensures
            s@ == spec_signed_hex(
                self.negative,
                spec_hex_magnitude(self.value as int, self.negative, 0x10000) as nat,
            ),
    {
        let bits = 0u16.wrapping_add_signed(self.value);
        if self.negative {
            let magnitude = 0u16.wrapping_sub(bits);
            let mut s = String::from_str("-");
            proof {
                reveal_strlit("-");
                assert("-"@ =~= seq!['-']);
            }
            let rest = unsigned_hex_string(magnitude as u64);
            s.append(rest.as_str());
            s
        } else {
            unsigned_hex_string(bits as u64)
        }
    }
}

impl SignedHexDisplay<i32> {
    /// The text this value displays as: the hex bit pattern of `value`,
    /// or `-` and the hex magnitude when `negative` is set.
    pub fn display_string(&self) -> (s: String)
        ensures
            s@ == spec_signed_hex(
                self.negative,
                spec_hex_magnitude(self.value as int, self.negative, 0x1_0000_0000) as nat,
            ),
    {
        let bits = 0u32.wrapping_add_signed(self.value);
        if self.negative {
            let magnitude = 0u32.wrapping_sub(bits);
            let mut s = String::from_str("-");
            proof {
                reveal_strlit("-");
                assert("-"@ =~= seq!['-']);
            }
            let rest = unsigned_hex_string(magnitude as u64);
            s.append(rest.as_str());
            s
        } else {
            unsigned_hex_string(bits as u64)
        }
    }
}

impl SignedHexDisplay<i64> {
    /// The text this value displays as: the hex bit pattern of `value`,
    /// or `-` and the hex magnitude when `negative` is set.
    pub fn display_string(&self) -> (s: String)
        ensures
            s@ == spec_signed_hex(
                self.negative,
                spec_hex_magnitude(self.value as int, self.negative, 0x1_0000_0000_0000_0000) as nat,
            ),
    {
        let bits = 0u64.wrapping_add_signed(self.value);
        if self.negative {
            let magnitude = 0u64.wrapping_sub(bits);
            let mut s = String::from_str("-");
            proof {
                reveal_strlit("-");
                assert("-"@ =~= seq!['-']);
            }
            let rest = unsigned_hex_string(magnitude);
            s.append(rest.as_str());
            s
        } else {
            unsigned_hex_string(bits)
        }
    }
}

/// `value` as hex, always unsigned: the bit pattern of the byte.
pub fn u8_hex(value: u8) -> (r: SignedHexDisplay<i8>)
    ensures
        r.value as int == spec_signed_of(value as int, 0x100),
        r.negative == false,
{
    SignedHexDisplay { value: 0i8.wrapping_add_unsigned(value), negative: false }
}

/// `imm` as hex, signed: negative values show a `-` and their magnitude.
pub fn signed_i8_hex(imm: i8) -> (r: SignedHexDisplay<i8>)
    ensures
        r.value == imm,
        r.negative == (imm < 0),
{
    SignedHexDisplay { value: imm, negative: imm < 0 }
}

/// `value` as hex, always unsigned: the bit pattern of the word.
pub fn u16_hex(value: u16) -> (r: SignedHexDisplay<i16>)
    ensures
        r.value as int == spec_signed_of(value as int, 0x10000),
        r.negative == false,
{
    SignedHexDisplay { value: 0i16.wrapping_add_unsigned(value), negative: false }
}

/// `imm` as hex, signed: negative values show a `-` and their magnitude.
pub fn signed_i16_hex(imm: i16) -> (r: SignedHexDisplay<i16>)
    ensures
        r.value == imm,
        r.negative == (imm < 0),
{
    SignedHexDisplay { value: imm, negative: imm < 0 }
}

/// `value` as hex, always unsigned: the bit pattern of the word.
pub fn u32_hex(value: u32) -> (r: SignedHexDisplay<i32>)
    ensures
        r.value as int == spec_signed_of(value as int, 0x1_0000_0000),
        r.negative == false,
{
    SignedHexDisplay { value: 0i32.wrapping_add_unsigned(value), negative: false }
}

/// `imm` as hex, signed: negative values show a `-` and their magnitude.
pub fn signed_i32_hex(imm: i32) -> (r: SignedHexDisplay<i32>)
    ensures
        r.value == imm,
        r.negative == (imm < 0),
{
    SignedHexDisplay { value: imm, negative: imm < 0 }
}

/// `value` as hex, always unsigned: the bit pattern of the word.
pub fn u64_hex(value: u64) -> (r: SignedHexDisplay<i64>)
    ensures
        r.value as int == spec_signed_of(value as int, 0x1_0000_0000_0000_0000),
        r.negative == false,
{
    SignedHexDisplay { value: 0i64.wrapping_add_unsigned(value), negative: false }
}

/// `imm` as hex, signed: negative values show a `-` and their magnitude.
pub fn signed_i64_hex(imm: i64) -> (r: SignedHexDisplay<i64>)
    ensures
        r.value == imm,
        r.negative == (imm < 0),
{
    SignedHexDisplay { value: imm, negative: imm < 0 }
}

} // verus!
