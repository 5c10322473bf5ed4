use yaxpeax_arch::{
    AddrParseError, AddrParse, Address, AddressBase, AddressDiff, Arch, DecodeError, Decoder,
    Instruction, LengthedInstruction, NoColors, NullSink, ReadError, Reader, StandardDecodeError,
    StandardPartialDecoderError, U8Reader, VecSink, YaxColors, Colored, DescriptionSink,
};

#[test]
fn test_u16() {
    for l in 0u16..100 {
        for r in 0..=core::u16::MAX {
            assert_eq!(
                r.wrapping_offset(l.diff(&r).expect("u16 addresses always have valid diffs")),
                l
            );
        }
    }
}

struct TestIsa {}

#[derive(Debug, Default)]
struct TestInst {}

impl Arch for TestIsa {
    type Word = u8;
    type Address = u64;
    type Instruction = TestInst;
    type Decoder = TestIsaDecoder;
    type DecodeError = StandardDecodeError;
    type Operand = ();
}

impl Instruction for TestInst {
    fn well_defined(&self) -> bool {
        true
    }
}

impl LengthedInstruction for TestInst {
    type Unit = AddressDiff<u64>;
    fn len(&self) -> Self::Unit {
        AddressDiff::from_const(1)
    }
    fn min_size() -> Self::Unit {
        AddressDiff::from_const(1)
    }
}

struct TestIsaDecoder {}

impl Default for TestIsaDecoder {
    fn default() -> Self {
        TestIsaDecoder {}
    }
}

impl Decoder<TestIsa> for TestIsaDecoder {
    fn decode_into<T: Reader<u64, u8>>(
        &self,
        _inst: &mut TestInst,
        _words: &mut T,
    ) -> Result<(), StandardDecodeError> {
        Err(StandardDecodeError::ExhaustedInput)
    }
}

#[derive(Debug, PartialEq)]
pub enum Error {
    TestDecode(StandardDecodeError),
}

impl From<StandardDecodeError> for Error {
    fn from(e: StandardDecodeError) -> Error {
        Error::TestDecode(e)
    }
}

fn exercise_eq() -> Result<(), Error> {
    let mut reader = U8Reader::new(&[]);
    TestIsaDecoder::default().decode(&mut reader)?;
    Ok(())
}

#[test]
fn error_can_bail() {
    assert_eq!(
        exercise_eq(),
        Err(Error::TestDecode(StandardDecodeError::ExhaustedInput))
    );
}

#[test]
fn diff_offset_round_trip_sampled() {
    let pairs32: [(u32, u32); 6] = [
        (0, 0),
        (1, u32::MAX),
        (u32::MAX, 1),
        (0x8000_0000, 0x7fff_ffff),
        (12345, 54321),
        (u32::MAX, u32::MAX),
    ];
    for (l, r) in pairs32 {
        let d = l.diff(&r).expect("u32 addresses always have valid diffs");
        assert_eq!(r.wrapping_offset(d), l);
    }
    let pairs64: [(u64, u64); 6] = [
        (0, 0),
        (1, u64::MAX),
        (u64::MAX, 1),
        (0x8000_0000_0000_0000, 0x7fff_ffff_ffff_ffff),
        (1234567890123, 9876543210987),
        (u64::MAX, u64::MAX),
    ];
    for (l, r) in pairs64 {
        let d = l.diff(&r).expect("u64 addresses always have valid diffs");
        assert_eq!(r.wrapping_offset(d), l);
    }
}

#[test]
fn checked_offset_refuses_overflow() {
    let one: AddressDiff<u16> = AddressDiff::one();
    assert_eq!(u16::MAX.checked_offset(one), None);
    assert_eq!(0xfffeu16.checked_offset(one), Some(0xffff));
    assert_eq!(u16::MAX.wrapping_offset(one), 0);
    let zero: AddressDiff<u64> = AddressDiff::zero();
    assert_eq!(u64::MAX.checked_offset(zero), Some(u64::MAX));
}

#[test]
fn address_diff_constructors() {
    let d: AddressDiff<u32> = AddressDiff::from_const(7);
    assert_eq!(10u32.wrapping_offset(d), 17);
    let one: AddressDiff<u32> = AddressDiff::one();
    assert_eq!(10u32.wrapping_offset(one), 11);
    let zero: AddressDiff<u32> = AddressDiff::zero();
    assert_eq!(10u32.wrapping_offset(zero), 10);
}

#[test]
fn plain_ops_move_by_the_diff() {
    let d: AddressDiff<u32> = AddressDiff::from_const(5);
    assert_eq!(10u32 + d, 15);
    assert_eq!(10u32 - d, 5);
    let d: AddressDiff<u16> = AddressDiff::one();
    assert_eq!(7u16 + d, 8);
    assert_eq!(7u16 - d, 6);
    let d: AddressDiff<u64> = AddressDiff::from_const(1 << 40);
    assert_eq!((1u64 << 41) + d, 3 << 40);
    let d: AddressDiff<usize> = AddressDiff::zero();
    assert_eq!(9usize + d, 9);
    assert_eq!(9usize - d, 9);
}

#[test]
fn to_linear_is_the_value() {
    assert_eq!(0u16.to_linear(), 0);
    assert_eq!(0xffffu16.to_linear(), 0xffff);
    assert_eq!(0x1234_5678u32.to_linear(), 0x1234_5678);
    assert_eq!(42u64.to_linear(), 42);
    assert_eq!(42usize.to_linear(), 42);
}

#[test]
fn standard_decode_error_answers() {
    assert!(StandardDecodeError::ExhaustedInput.data_exhausted());
    assert!(!StandardDecodeError::ExhaustedInput.bad_opcode());
    assert!(!StandardDecodeError::ExhaustedInput.bad_operand());
    assert!(StandardDecodeError::InvalidOpcode.bad_opcode());
    assert!(StandardDecodeError::InvalidOperand.bad_operand());
    assert_eq!(
        StandardDecodeError::ExhaustedInput.description(),
        "exhausted input"
    );
    assert_eq!(
        StandardDecodeError::InvalidOpcode.description(),
        "invalid opcode"
    );
    assert_eq!(
        StandardDecodeError::InvalidOperand.description(),
        "invalid operand"
    );
}

#[test]
fn standard_partial_decode_error_answers() {
    assert!(StandardPartialDecoderError::ExhaustedInput.data_exhausted());
    assert!(StandardPartialDecoderError::InvalidOpcode.bad_opcode());
    assert!(StandardPartialDecoderError::InvalidOperand.bad_operand());
    assert!(!StandardPartialDecoderError::IncompleteDecoder.data_exhausted());
    assert!(!StandardPartialDecoderError::IncompleteDecoder.bad_opcode());
    assert!(!StandardPartialDecoderError::IncompleteDecoder.bad_operand());
    assert_eq!(
        StandardPartialDecoderError::IncompleteDecoder.description(),
        "incomplete decoder"
    );
}

#[test]
fn read_error_becomes_exhausted_input() {
    assert_eq!(
        StandardDecodeError::from(ReadError::ExhaustedInput),
        StandardDecodeError::ExhaustedInput
    );
    assert_eq!(
        StandardDecodeError::from(ReadError::IOError("broken pipe")),
        StandardDecodeError::ExhaustedInput
    );
}

#[test]
fn sinks_record_and_discard() {
    let mut collected: VecSink<u32> = VecSink::new();
    assert!(collected.records.is_empty());
    collected.record(0, 3, 17);
    collected.record(4, 7, 18);
    assert_eq!(collected.records, vec![(0, 3, 17), (4, 7, 18)]);
    let mut null = NullSink;
    null.record(0, 3, 17u32);
}

#[test]
fn no_colors_passes_text_through() {
    let colors = NoColors;
    match colors.number(42u8) {
        Colored::Just(v) => assert_eq!(v, 42),
    }
    match colors.register("rax") {
        Colored::Just(v) => assert_eq!(v, "rax"),
    }
}

#[test]
fn parse_addresses() {
    assert_eq!(u64::parse_from("1234"), Ok(1234));
    assert_eq!(u64::parse_from("0x10"), Ok(16));
    assert_eq!(u64::parse_from("+10"), Ok(10));
    assert_eq!(u64::parse_from("0x+10"), Ok(16));
    assert_eq!(u64::parse_from("0xfFeE"), Ok(0xffee));
    assert_eq!(u64::parse_from(""), Err(AddrParseError::Empty));
    assert_eq!(u64::parse_from("0x"), Err(AddrParseError::Empty));
    assert_eq!(u64::parse_from("+"), Err(AddrParseError::InvalidDigit));
    assert_eq!(u64::parse_from("12z4"), Err(AddrParseError::InvalidDigit));
    assert_eq!(u64::parse_from("-5"), Err(AddrParseError::InvalidDigit));
    assert_eq!(u64::parse_from("0xgg"), Err(AddrParseError::InvalidDigit));
    assert_eq!(
        u64::parse_from("18446744073709551616"),
        Err(AddrParseError::Overflow)
    );
    assert_eq!(u64::parse_from("18446744073709551615"), Ok(u64::MAX));

    assert_eq!(u16::parse_from("0xffff"), Ok(0xffff));
    assert_eq!(u16::parse_from("65535"), Ok(65535));
    assert_eq!(u16::parse_from("65536"), Err(AddrParseError::Overflow));
    assert_eq!(u16::parse_from("0x10000"), Err(AddrParseError::Overflow));

    assert_eq!(u32::parse_from("0xdeadbeef"), Ok(0xdead_beef));
    assert_eq!(u32::parse_from("4294967296"), Err(AddrParseError::Overflow));

    assert_eq!(usize::parse_from("0x1000"), Ok(0x1000));
}
