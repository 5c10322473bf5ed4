//! A foundational substrate for instruction-set decoders: an address
//! arithmetic model that lets a decoder reason about positions and offsets
//! in an instruction stream independent of address width, and a reader
//! abstraction that pulls fixed-width words out of a byte buffer with
//! bounds-checked, endianness-aware access while tracking stream position.

use vstd::prelude::*;

mod address;
mod color;
pub mod display;
mod reader;

pub use address::{Address, AddressBase, AddressDiff, AddressDiffAmount, AddressDisplay};
pub use address::{AddressDisplayU16, AddressDisplayU32, AddressDisplayU64, AddressDisplayUsize};
pub use address::{AddrParse, AddrParseError};
pub use color::{Colored, Colorize, NoColors, YaxColors};
pub use reader::{ReadError, Reader, ReaderBuilder, U8Reader, Word};
pub use reader::{U16be, U16le, U32be, U32le, U64be, U64le};
pub use reader::{lemma_zero_offset_at_mark, spec_be_value, spec_le_value, spec_next, spec_next_n};

verus! {

/// The minimum set of errors a decoder may produce.
///
/// It is permissible for an implementor's errors to answer `false` to all
/// three questions: decoders may fail in ways this crate does not know
/// about.
pub trait DecodeError: PartialEq + Send + Sync + 'static {
    /// Whether the decoder failed because it reached the end of input.
    spec fn spec_data_exhausted(&self) -> bool;

    /// Whether the decoder failed because the instruction's opcode is
    /// invalid.
    spec fn spec_bad_opcode(&self) -> bool;

    /// Whether the decoder failed because an operand of the instruction is
    /// invalid.
    spec fn spec_bad_operand(&self) -> bool;

    /// The short, machine-oriented description of this error.
    spec fn spec_description(&self) -> Seq<char>;

    /// Did the decoder fail because it reached the end of input?
    fn data_exhausted(&self) -> (r: bool)
        ensures
            r == self.spec_data_exhausted(),
    ;

    /// Did the decoder error because the instruction's opcode is invalid?
    ///
    /// The opcode/operand distinction is often fuzzy and left as a
    /// best-effort judgement for decoder implementors.
    fn bad_opcode(&self) -> (r: bool)
        ensures
            r == self.spec_bad_opcode(),
    ;

    /// Did the decoder error because an operand of the instruction to
    /// decode is invalid?
    fn bad_operand(&self) -> (r: bool)
        ensures
            r == self.spec_bad_operand(),
    ;

    /// A human-friendly description of this decode error.
    fn description(&self) -> (r: &'static str)
        ensures
            r@ == self.spec_description(),
    ;
}

/// A minimal enum implementing `DecodeError`: a low-effort, low-fidelity
/// error taxonomy without the boilerplate of a custom implementation.
#[derive(Debug, PartialEq, Eq, Copy, Clone, Structural)]
pub enum StandardDecodeError {
    ExhaustedInput,
    InvalidOpcode,
    InvalidOperand,
}

/// A slightly less minimal `DecodeError`: it additionally provides
/// `IncompleteDecoder`, for decoders that are not yet complete.
#[derive(Debug, PartialEq, Eq, Copy, Clone, Structural)]
pub enum StandardPartialDecoderError {
    ExhaustedInput,
    InvalidOpcode,
    InvalidOperand,
    IncompleteDecoder,
}

impl DecodeError for StandardDecodeError {
    open spec fn spec_data_exhausted(&self) -> bool {
        *self is ExhaustedInput
    }

    open spec fn spec_bad_opcode(&self) -> bool {
        *self is InvalidOpcode
    }

    open spec fn spec_bad_operand(&self) -> bool {
        *self is InvalidOperand
    }

    open spec fn spec_description(&self) -> Seq<char> {
        match *self {
            StandardDecodeError::ExhaustedInput => "exhausted input"@,
            StandardDecodeError::InvalidOpcode => "invalid opcode"@,
            StandardDecodeError::InvalidOperand => "invalid operand"@,
        }
    }

    fn data_exhausted(&self) -> (r: bool) {
        *self == StandardDecodeError::ExhaustedInput
    }

    fn bad_opcode(&self) -> (r: bool) {
        *self == StandardDecodeError::InvalidOpcode
    }

    fn bad_operand(&self) -> (r: bool) {
        *self == StandardDecodeError::InvalidOperand
    }

    fn description(&self) -> (r: &'static str) {
        match self {
            StandardDecodeError::ExhaustedInput => "exhausted input",
            StandardDecodeError::InvalidOpcode => "invalid opcode",
            StandardDecodeError::InvalidOperand => "invalid operand",
        }
    }
}

impl DecodeError for StandardPartialDecoderError {
    open spec fn spec_data_exhausted(&self) -> bool {
        *self is ExhaustedInput
    }

    open spec fn spec_bad_opcode(&self) -> bool {
        *self is InvalidOpcode
    }

    open spec fn spec_bad_operand(&self) -> bool {
        *self is InvalidOperand
    }

    open spec fn spec_description(&self) -> Seq<char> {
        match *self {
            StandardPartialDecoderError::ExhaustedInput => "exhausted input"@,
            StandardPartialDecoderError::InvalidOpcode => "invalid opcode"@,
            StandardPartialDecoderError::InvalidOperand => "invalid operand"@,
            StandardPartialDecoderError::IncompleteDecoder => "incomplete decoder"@,
        }
    }

    fn data_exhausted(&self) -> (r: bool) {
        *self == StandardPartialDecoderError::ExhaustedInput
    }

    fn bad_opcode(&self) -> (r: bool) {
        *self == StandardPartialDecoderError::InvalidOpcode
    }

    fn bad_operand(&self) -> (r: bool) {
        *self == StandardPartialDecoderError::InvalidOperand
    }

    fn description(&self) -> (r: &'static str) {
        match self {
            StandardPartialDecoderError::ExhaustedInput => "exhausted input",
            StandardPartialDecoderError::InvalidOpcode => "invalid opcode",
            StandardPartialDecoderError::InvalidOperand => "invalid operand",
            StandardPartialDecoderError::IncompleteDecoder => "incomplete decoder",
        }
    }
}

/// An interface to decode `A::Instruction` words from a reader of
/// `A::Word`s. Errors are the architecture-defined `DecodeError`
/// implementation.
pub trait Decoder<A: Arch + ?Sized> {
    /// Decode one instruction for this architecture from `words`.
    fn decode<T: Reader<A::Address, A::Word>>(&self, words: &mut T) -> Result<
        A::Instruction,
        A::DecodeError,
    > {
        let mut inst = A::Instruction::default();
        match self.decode_into(&mut inst, words) {
            Ok(()) => Ok(inst),
            Err(e) => Err(e),
        }
    }

    /// Decode one instruction from `words`, writing into the provided
    /// `inst`.
    ///
    /// While `inst` must be left in a memory-safe state, implementors are
    /// not obligated to leave it semantically meaningful when decoding
    /// fails: callers may find contradictory, useless or stale data in it
    /// and must discard it on error.
    fn decode_into<T: Reader<A::Address, A::Word>>(
        &self,
        inst: &mut A::Instruction,
        words: &mut T,
    ) -> Result<(), A::DecodeError>;
}

/// Implementors of `DescriptionSink` receive descriptions of an
/// instruction's disassembly process and relevant offsets in the bitstream
/// being decoded.
pub trait DescriptionSink<Descriptor> {
    /// Inform this sink of a `description` informed by bits `start` to
    /// `end`, inclusive, counted from the start of the instruction being
    /// decoded; the positions bear no relation to earlier or later
    /// instructions in the underlying stream.
    fn record(&mut self, start: u32, end: u32, description: Descriptor);
}

/// A sink that discards everything it is told.
pub struct NullSink;

impl<T> DescriptionSink<T> for NullSink {
    fn record(&mut self, _start: u32, _end: u32, _description: T) {
    }
}

/// A sink that collects every record into a vector, in the order they were
/// reported.
pub struct VecSink<T: Clone> {
    pub records: Vec<(u32, u32, T)>,
}

impl<T: Clone> VecSink<T> {
    pub fn new() -> (r: Self)
        ensures
            r.records@ == Seq::<(u32, u32, T)>::empty(),
    {
        VecSink { records: Vec::new() }
    }
}

impl<T: Clone> DescriptionSink<T> for VecSink<T> {
    fn record(&mut self, start: u32, end: u32, description: T)
        ensures
            final(self).records@ == old(self).records@.push((start, end, description)),
    {
        self.records.push((start, end, description));
    }
}

/// One record a decoder may report about bits of an instruction.
pub trait FieldDescription {
    /// The identifier shared by the records that describe one logical
    /// field, possibly across non-contiguous bit ranges.
    spec fn spec_id(&self) -> u32;

    /// Whether this record marks the boundary after its bit rather than
    /// describing content.
    spec fn spec_is_separator(&self) -> bool;

    fn id(&self) -> (r: u32)
        ensures
            r == self.spec_id(),
    ;

    fn is_separator(&self) -> (r: bool)
        ensures
            r == self.spec_is_separator(),
    ;
}

/// An interface to decode `A::Instruction` words from a reader of
/// `A::Word`s, with the decoder able to report descriptions of bits or
/// fields of the instruction to a `DescriptionSink`. The sink may be
/// `NullSink`, which discards the reports: decoding with a `NullSink` must
/// behave identically to `Decoder::decode_into`.
pub trait AnnotatingDecoder<A: Arch + ?Sized> {
    type FieldDescription: FieldDescription + Clone + PartialEq;

    fn decode_with_annotation<
        T: Reader<A::Address, A::Word>,
        S: DescriptionSink<Self::FieldDescription>,
    >(&self, inst: &mut A::Instruction, words: &mut T, sink: &mut S) -> Result<
        (),
        A::DecodeError,
    >;
}

/// The bounds an `Arch::Address` must satisfy.
pub trait AddressBounds: Address {

}

impl<T: Address> AddressBounds for T {

}

/// The bounds an `Arch::DecodeError` must satisfy.
pub trait DecodeErrorBounds: DecodeError {

}

impl<T: DecodeError> DecodeErrorBounds for T {

}

/// A collection of associated type parameters that constitute the
/// definitions for an instruction set: an `Instruction` with its
/// `Operand`s, decodable by this architecture's `Decoder` from a
/// `Reader<Arch::Address, Arch::Word>`. The `Decoder` can always be
/// constructed through its `Default` implementation.
pub trait Arch {
    type Word: PartialEq + Eq;

    type Address: AddressBounds;

    type Instruction: Instruction + LengthedInstruction<
        Unit = AddressDiff<Self::Address>,
    > + Default;

    type DecodeError: DecodeErrorBounds;

    /// The decoder for this architecture; constructible through `Default`
    /// and expected to implement `Decoder<Self>`.
    type Decoder: Default;

    type Operand;
}

/// Instructions have lengths, and minimum possible sizes for advancing a
/// decoder on error.
pub trait LengthedInstruction {
    type Unit;

    /// The length, in terms of `Unit`, of this instruction. Because `Unit`
    /// will be a diff of an architecture's `Address` type, this is almost
    /// always a number of bytes.
    fn len(&self) -> Self::Unit;

    /// The length, in terms of `Unit`, of the shortest possible
    /// instruction in the architecture.
    fn min_size() -> Self::Unit;
}

pub trait Instruction {
    fn well_defined(&self) -> bool;
}

/// Writing a value into `out` in a context-aware way, colored by `Y`.
pub trait ShowContextual<Addr, Ctx: ?Sized, T, Y: YaxColors> {
    fn contextualize(&self, colors: &Y, address: Addr, context: Option<&Ctx>, out: &mut T) -> Result<
        (),
        core::fmt::Error,
    >;
}

} // verus!
