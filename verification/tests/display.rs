use yaxpeax_arch::display::{
    signed_i16_hex, signed_i32_hex, signed_i64_hex, signed_i8_hex, u16_hex, u32_hex, u64_hex,
    u8_hex, unsigned_hex_string,
};
use yaxpeax_arch::AddressDisplay;

#[test]
fn unsigned_hex_strings() {
    assert_eq!(unsigned_hex_string(0), "0x0");
    assert_eq!(unsigned_hex_string(1), "0x1");
    assert_eq!(unsigned_hex_string(10), "0xa");
    assert_eq!(unsigned_hex_string(16), "0x10");
    assert_eq!(unsigned_hex_string(0xdead_beef), "0xdeadbeef");
    assert_eq!(unsigned_hex_string(u64::MAX), "0xffffffffffffffff");
}

#[test]
fn unsigned_value_hex_displays() {
    assert_eq!(u8_hex(0).display_string(), "0x0");
    assert_eq!(u8_hex(0xc8).display_string(), "0xc8");
    assert_eq!(u16_hex(0xffff).display_string(), "0xffff");
    assert_eq!(u32_hex(0xdead_beef).display_string(), "0xdeadbeef");
    assert_eq!(u64_hex(u64::MAX).display_string(), "0xffffffffffffffff");
}

#[test]
fn signed_value_hex_displays() {
    assert_eq!(signed_i8_hex(5).display_string(), "0x5");
    assert_eq!(signed_i8_hex(-5).display_string(), "-0x5");
    assert_eq!(signed_i8_hex(-128).display_string(), "-0x80");
    assert_eq!(signed_i8_hex(127).display_string(), "0x7f");
    assert_eq!(signed_i16_hex(-1).display_string(), "-0x1");
    assert_eq!(signed_i16_hex(0x1234).display_string(), "0x1234");
    assert_eq!(signed_i32_hex(i32::MIN).display_string(), "-0x80000000");
    assert_eq!(signed_i32_hex(-0x100).display_string(), "-0x100");
    assert_eq!(signed_i64_hex(i64::MIN).display_string(), "-0x8000000000000000");
    assert_eq!(signed_i64_hex(0).display_string(), "0x0");
}

#[test]
fn addresses_show_as_hex() {
    assert_eq!(0x10u16.show().to_hex_string(), "0x10");
    assert_eq!(0xdead_beefu32.show().to_hex_string(), "0xdeadbeef");
    assert_eq!(0x1234_5678_9abc_def0u64.show().to_hex_string(), "0x123456789abcdef0");
    assert_eq!(0usize.show().to_hex_string(), "0x0");
}
