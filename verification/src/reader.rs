//! Words and the byte-backed word reader.
//!
//! A [`Reader`] is a cursor over an immutable word stream: it yields
//! successive fixed-width words, fails with a typed error when too few
//! bytes remain, and tracks two reference points (the stream start and the
//! last [`Reader::mark`]) so a decoder can measure instruction lengths in
//! word units. [`U8Reader`] is the byte-slice-backed implementation: a
//! borrowed slice and two indices, with every read bounds-checked.

use vstd::prelude::*;
use vstd::pervasive::VecAdditionalExecFns;
use vstd::slice::slice_subrange;
use vstd::arithmetic::div_mod::lemma_fundamental_div_mod;

use crate::address::AddressBase;
use crate::StandardDecodeError;

verus! {

/// A failed read is a decode failure for exhausted input, whatever the
/// read error's own kind.
impl vstd::std_specs::convert::FromSpecImpl<ReadError> for StandardDecodeError {
    open spec fn obeys_from_spec() -> bool {
        true
    }

    open spec fn from_spec(e: ReadError) -> Self {
        StandardDecodeError::ExhaustedInput
    }
}

impl From<ReadError> for StandardDecodeError {
    fn from(e: ReadError) -> (r: StandardDecodeError) {
        StandardDecodeError::ExhaustedInput
    }
}

/// Why a read failed: the buffer ran out of bytes, or a non-memory data
/// source reported a failure with a short description.
#[derive(Debug, PartialEq, Eq, Copy, Clone)]
pub enum ReadError {
    ExhaustedInput,
    IOError(&'static str),
}

/// 256 to the power `n`: the number of values `n` bytes can take.
pub open spec fn pow256(n: nat) -> nat
    decreases n,
{
    if n == 0 {
        1
    } else {
        (256 * pow256((n - 1) as nat)) as nat
    }
}

/// The value of `bytes` read as a little-endian number: the first byte is
/// the least significant.
pub open spec fn spec_le_value(bytes: Seq<u8>) -> nat
    decreases bytes.len(),
{
    if bytes.len() == 0 {
        0
    } else {
        (bytes[0] + 256 * spec_le_value(bytes.drop_first())) as nat
    }
}

/// The value of `bytes` read as a big-endian number: the last byte is the
/// least significant.
pub open spec fn spec_be_value(bytes: Seq<u8>) -> nat
    decreases bytes.len(),
{
    if bytes.len() == 0 {
        0
    } else {
        (256 * spec_be_value(bytes.drop_last()) + bytes.last()) as nat
    }
}

pub proof fn lemma_pow256_values()
    ensures
        pow256(0) == 1,
        pow256(1) == 0x100,
        pow256(2) == 0x10000,
        pow256(3) == 0x100_0000,
        pow256(4) == 0x1_0000_0000,
        pow256(5) == 0x100_0000_0000,
        pow256(6) == 0x1_0000_0000_0000,
        pow256(7) == 0x100_0000_0000_0000,
        pow256(8) == 0x1_0000_0000_0000_0000,
{
    reveal_with_fuel(pow256, 9);
}

pub proof fn lemma_pow256_mono(a: nat, b: nat)
    requires
        a <= b,
    ensures
        pow256(a) <= pow256(b),
    decreases b,
{
    if a < b {
        lemma_pow256_mono(a, (b - 1) as nat);
    }
}

/// A little-endian number of `n` bytes is below `256^n`.
pub proof fn lemma_le_value_bound(bytes: Seq<u8>)
    ensures
        spec_le_value(bytes) < pow256(bytes.len()),
    decreases bytes.len(),
{
    if bytes.len() > 0 {
        lemma_le_value_bound(bytes.drop_first());
    }
}

/// A big-endian number of `n` bytes is below `256^n`.
pub proof fn lemma_be_value_bound(bytes: Seq<u8>)
    ensures
        spec_be_value(bytes) < pow256(bytes.len()),
    decreases bytes.len(),
{
    if bytes.len() > 0 {
        lemma_be_value_bound(bytes.drop_last());
    }
}

/// Read `w` bytes at `pos` as one little-endian number.
fn read_le_bytes(data: &[u8], pos: usize, w: usize) -> (v: u64)
    requires
        pos + w <= data@.len(),
        w <= 8,
    ensures
        v == spec_le_value(data@.subrange(pos as int, pos as int + w)),
{
    let n = data.len();
    let mut v: u64 = 0;
    let mut i: usize = w;
    while i > 0
        invariant
            i <= w,
            w <= 8,
            n == data@.len(),
            pos + w <= data@.len(),
            v == spec_le_value(data@.subrange(pos + i, pos as int + w)),
            v < pow256((w - i) as nat),
        decreases i,
    {
        i = i - 1;
        let b = data[pos + i];
        proof {
            let cur = data@.subrange(pos + i, pos as int + w);
            assert(cur.drop_first() =~= data@.subrange(pos + i + 1, pos as int + w));
            assert(cur[0] == data@[pos + i]);
            lemma_pow256_mono((w - i - 1) as nat, 7);
            lemma_pow256_values();
        }
        v = (b as u64) + v * 256;
    }
    v
}

/// Read `w` bytes at `pos` as one big-endian number.
fn read_be_bytes(data: &[u8], pos: usize, w: usize) -> (v: u64)
    requires
        pos + w <= data@.len(),
        w <= 8,
    ensures
        v == spec_be_value(data@.subrange(pos as int, pos as int + w)),
{
    let n = data.len();
    let mut v: u64 = 0;
    let mut i: usize = 0;
    while i < w
        invariant
            i <= w,
            w <= 8,
            n == data@.len(),
            pos + w <= data@.len(),
            v == spec_be_value(data@.subrange(pos as int, pos + i)),
            v < pow256(i as nat),
        decreases w - i,
    {
        let b = data[pos + i];
        proof {
            let cur = data@.subrange(pos as int, pos + i + 1);
            assert(cur.drop_last() =~= data@.subrange(pos as int, pos + i));
            assert(cur.last() == data@[pos + i]);
            lemma_pow256_mono(i as nat, 7);
            lemma_pow256_values();
        }
        v = v * 256 + (b as u64);
        i = i + 1;
    }
    v
}

/// A fixed-width, fixed-endianness unit that a reader yields per read.
/// Distinct endianness variants are distinct types, so decoders for
/// big-endian and little-endian instruction sets cannot be confused.
pub trait Word: Sized + Copy {
    /// The number of bytes one word occupies.
    spec fn width() -> nat;

    /// The word that a `width()`-byte stretch of the stream denotes, in
    /// this word type's declared endianness.
    spec fn decode_spec(bytes: Seq<u8>) -> Self;

    /// A word is one to eight bytes wide.
    proof fn lemma_width()
        ensures
            1 <= Self::width() <= 8,
    ;

    fn width_exec() -> (w: usize)
        ensures
            w == Self::width(),
            1 <= w <= 8,
    ;

    /// Read one word from `data` at byte position `pos`.
    fn read_at(data: &[u8], pos: usize) -> (w: Self)
        requires
            pos + Self::width() <= data@.len(),
        ensures
            w == Self::decode_spec(data@.subrange(pos as int, pos as int + Self::width())),
    ;
}

impl Word for u8 {
    open spec fn width() -> nat {
        1
    }

    open spec fn decode_spec(bytes: Seq<u8>) -> Self {
        bytes[0]
    }

    proof fn lemma_width() {
    }

    fn width_exec() -> (w: usize) {
        1
    }

    fn read_at(data: &[u8], pos: usize) -> (w: Self) {
        data[pos]
    }
}

/// A 16-bit little-endian word.
#[derive(Debug, PartialEq, Eq, Hash, PartialOrd, Ord, Copy, Clone, Structural)]
pub struct U16le(pub u16);

impl Word for U16le {
    open spec fn width() -> nat {
        2
    }

    open spec fn decode_spec(bytes: Seq<u8>) -> Self {
        U16le(spec_le_value(bytes) as u16)
    }

    proof fn lemma_width() {
    }

    fn width_exec() -> (w: usize) {
        2
    }

    fn read_at(data: &[u8], pos: usize) -> (w: Self) {
        let v = read_le_bytes(data, pos, 2);
        proof {
            lemma_le_value_bound(data@.subrange(pos as int, pos as int + 2));
            lemma_pow256_values();
        }
        U16le(v as u16)
    }
}

/// A 16-bit big-endian word.
#[derive(Debug, PartialEq, Eq, Hash, PartialOrd, Ord, Copy, Clone, Structural)]
pub struct U16be(pub u16);

impl Word for U16be {
    open spec fn width() -> nat {
        2
    }

    open spec fn decode_spec(bytes: Seq<u8>) -> Self {
        U16be(spec_be_value(bytes) as u16)
    }

    proof fn lemma_width() {
    }

    fn width_exec() -> (w: usize) {
        2
    }

    fn read_at(data: &[u8], pos: usize) -> (w: Self) {
        let v = read_be_bytes(data, pos, 2);
        proof {
            lemma_be_value_bound(data@.subrange(pos as int, pos as int + 2));
            lemma_pow256_values();
        }
        U16be(v as u16)
    }
}

/// A 32-bit little-endian word.
#[derive(Debug, PartialEq, Eq, Hash, PartialOrd, Ord, Copy, Clone, Structural)]
pub struct U32le(pub u32);

impl Word for U32le {
    open spec fn width() -> nat {
        4
    }

    open spec fn decode_spec(bytes: Seq<u8>) -> Self {
        U32le(spec_le_value(bytes) as u32)
    }

    proof fn lemma_width() {
    }

    fn width_exec() -> (w: usize) {
        4
    }

    fn read_at(data: &[u8], pos: usize) -> (w: Self) {
        let v = read_le_bytes(data, pos, 4);
        proof {
            lemma_le_value_bound(data@.subrange(pos as int, pos as int + 4));
            lemma_pow256_values();
        }
        U32le(v as u32)
    }
}

/// A 32-bit big-endian word.
#[derive(Debug, PartialEq, Eq, Hash, PartialOrd, Ord, Copy, Clone, Structural)]
pub struct U32be(pub u32);

impl Word for U32be {
    open spec fn width() -> nat {
        4
    }

    open spec fn decode_spec(bytes: Seq<u8>) -> Self {
        U32be(spec_be_value(bytes) as u32)
    }

    proof fn lemma_width() {
    }

    fn width_exec() -> (w: usize) {
        4
    }

    fn read_at(data: &[u8], pos: usize) -> (w: Self) {
        let v = read_be_bytes(data, pos, 4);
        proof {
            lemma_be_value_bound(data@.subrange(pos as int, pos as int + 4));
            lemma_pow256_values();
        }
        U32be(v as u32)
    }
}

/// A 64-bit little-endian word.
#[derive(Debug, PartialEq, Eq, Hash, PartialOrd, Ord, Copy, Clone, Structural)]
pub struct U64le(pub u64);

impl Word for U64le {
    open spec fn width() -> nat {
        8
    }

    open spec fn decode_spec(bytes: Seq<u8>) -> Self {
        U64le(spec_le_value(bytes) as u64)
    }

    proof fn lemma_width() {
    }

    fn width_exec() -> (w: usize) {
        8
    }

    fn read_at(data: &[u8], pos: usize) -> (w: Self) {
        let v = read_le_bytes(data, pos, 8);
        proof {
            lemma_le_value_bound(data@.subrange(pos as int, pos as int + 8));
            lemma_pow256_values();
        }
        U64le(v)
    }
}

/// A 64-bit big-endian word.
#[derive(Debug, PartialEq, Eq, Hash, PartialOrd, Ord, Copy, Clone, Structural)]
pub struct U64be(pub u64);

impl Word for U64be {
    open spec fn width() -> nat {
        8
    }

    open spec fn decode_spec(bytes: Seq<u8>) -> Self {
        U64be(spec_be_value(bytes) as u64)
    }

    proof fn lemma_width() {
    }

    fn width_exec() -> (w: usize) {
        8
    }

    fn read_at(data: &[u8], pos: usize) -> (w: Self) {
        let v = read_be_bytes(data, pos, 8);
        proof {
            lemma_be_value_bound(data@.subrange(pos as int, pos as int + 8));
            lemma_pow256_values();
        }
        U64be(v)
    }
}

/// How `Item`-sized words are read at `Address`-positioned offsets from
/// some stream of data. For most uses [`U8Reader`] is sufficient; other
/// data sources can implement this trait themselves.
pub trait Reader<Address, Item> {
    fn next(&mut self) -> Result<Item, ReadError>;

    /// Read `buf.len()` words from this reader in bulk. When the reader
    /// cannot supply that many words it reports `ReadError::ExhaustedInput`
    /// and reads nothing at all.
    fn next_n(&mut self, buf: &mut Vec<Item>) -> Result<(), ReadError>;

    /// Mark the current position as where to measure `offset` against.
    fn mark(&mut self);

    /// The distance, in whole words expressed as an `Address`, between the
    /// last `mark` and the current position. A freshly built reader is
    /// marked at its start, so an immediate `offset` is the address zero.
    fn offset(&mut self) -> Address;

    /// The distance, in whole words expressed as an `Address`, between the
    /// stream start and the current position.
    fn total_offset(&mut self) -> Address;
}

/// How to build a `Reader<Address, Item>` from some data source (`Self`),
/// positioned at an arbitrary starting address within the source.
pub trait ReaderBuilder<Address: AddressBase, Item>: Sized {
    type Output: Reader<Address, Item>;

    /// Whether a reader over `data` may start at `addr`.
    spec fn read_at_ok(data: Self, addr: Address) -> bool;

    /// What the built reader is: which bytes it ranges over and where its
    /// cursor and mark stand, for a start at `addr` within `data`.
    spec fn built_ok(data: Self, addr: Address, r: Self::Output) -> bool;

    /// Construct a reader from `data` beginning at `addr` from its start.
    fn read_at(data: Self, addr: Address) -> (r: Self::Output)
        requires
            Self::read_at_ok(data, addr),
        ensures
            Self::built_ok(data, addr, r),
    ;

    /// Construct a reader from `data` beginning at the start of `data`.
    fn read_from(data: Self) -> (r: Self::Output)
        requires
            Self::read_at_ok(data, Address::zero_spec()),
        ensures
            Self::built_ok(data, Address::zero_spec(), r),
    {
        Self::read_at(data, Address::zero())
    }
}

/// A reader over a borrowed byte slice: the stream start is the start of
/// the slice, and two plain indices track the current position and the
/// last mark. Every read validates the remaining length first, so no
/// access ever leaves the slice, whatever the input.
pub struct U8Reader<'a> {
    data: &'a [u8],
    pos: usize,
    mark: usize,
}

/// What one single-word read does: with enough bytes ahead, the word at
/// the cursor is decoded in its own endianness and the cursor advances
/// past it; otherwise the reader reports exhausted input and the cursor
/// stays put. The mark and the underlying bytes never change.
pub open spec fn spec_next<W: Word>(pre: U8Reader, post: U8Reader, r: Result<W, ReadError>) -> bool {
    &&& post.spec_data() == pre.spec_data()
    &&& post.spec_mark() == pre.spec_mark()
    &&& if W::width() <= pre.spec_remaining() {
        &&& r matches Ok(w) && w == W::decode_spec(
            pre.spec_data().subrange(pre.spec_pos(), pre.spec_pos() + W::width()),
        )
        &&& post.spec_pos() == pre.spec_pos() + W::width()
    } else {
        &&& r == Err::<W, ReadError>(ReadError::ExhaustedInput)
        &&& post.spec_pos() == pre.spec_pos()
    }
}

/// What one bulk read does: either every slot of the buffer is filled with
/// the successive words at the cursor and the cursor advances past all of
/// them, or — when fewer bytes remain than the whole buffer needs — the
/// read fails as one atomic unit: the buffer keeps its old contents and
/// the cursor stays put. The mark and the underlying bytes never change.
pub open spec fn spec_next_n<W: Word>(
    pre: U8Reader,
    post: U8Reader,
    buf_pre: Seq<W>,
    buf_post: Seq<W>,
    r: Result<(), ReadError>,
) -> bool {
    &&& post.spec_data() == pre.spec_data()
    &&& post.spec_mark() == pre.spec_mark()
    &&& buf_post.len() == buf_pre.len()
    &&& if buf_pre.len() * W::width() <= pre.spec_remaining() {
        &&& r == Ok::<(), ReadError>(())
        &&& post.spec_pos() == pre.spec_pos() + buf_pre.len() * W::width()
        &&& forall|k: int|
            0 <= k < buf_pre.len() ==> #[trigger] buf_post[k] == W::decode_spec(
                pre.spec_data().subrange(
                    pre.spec_pos() + k * W::width(),
                    pre.spec_pos() + (k + 1) * W::width(),
                ),
            )
    } else {
        &&& r == Err::<(), ReadError>(ReadError::ExhaustedInput)
        &&& post.spec_pos() == pre.spec_pos()
        &&& buf_post == buf_pre
    }
}

/// Zero offset on a fresh mark: a reader whose mark sits at its cursor —
/// as right after construction or a call to `mark` — measures an offset of
/// the address type's zero value, whatever the word width.
pub proof fn lemma_zero_offset_at_mark<A: AddressBase, W: Word>(r: U8Reader)
    requires
        r.spec_pos() == r.spec_mark(),
    ensures
        A::from_linear_spec((r.spec_pos() - r.spec_mark()) / W::width() as int)
            == A::zero_spec(),
{
    A::lemma_from_linear_zero();
    W::lemma_width();
}

impl<'a> U8Reader<'a> {
    #[verifier::type_invariant]
    spec fn type_inv(self) -> bool {
        self.mark <= self.pos <= self.data@.len()
    }

    /// The bytes the reader ranges over.
    pub closed spec fn spec_data(self) -> Seq<u8> {
        self.data@
    }

    /// The current byte position of the cursor.
    pub closed spec fn spec_pos(self) -> int {
        self.pos as int
    }

    /// The byte position of the last mark.
    pub closed spec fn spec_mark(self) -> int {
        self.mark as int
    }

    /// The bytes still ahead of the cursor.
    pub open spec fn spec_remaining(self) -> int {
        self.spec_data().len() - self.spec_pos()
    }

    /// A reader over `data`, positioned at its start with the mark there
    /// too, so an immediate offset query answers zero.
    pub fn new(data: &'a [u8]) -> (r: U8Reader<'a>)
        ensures
            r.spec_data() == data@,
            r.spec_pos() == 0,
            r.spec_mark() == 0,
    {
        U8Reader { data, pos: 0, mark: 0 }
    }

    /// Read the next word: see [`spec_next`].
    pub fn next_word<W: Word>(&mut self) -> (r: Result<W, ReadError>)
        ensures
            spec_next::<W>(*old(self), *final(self), r),
            final(self).spec_mark() <= final(self).spec_pos() <= final(self).spec_data().len(),
    {
        proof {
            use_type_invariant(&*self);
        }
        let w = W::width_exec();
        if w > self.data.len() - self.pos {
            return Err(ReadError::ExhaustedInput);
        }
        let word = W::read_at(self.data, self.pos);
        self.pos = self.pos + w;
        Ok(word)
    }

    /// Read `buf.len()` words in bulk, all or none: see [`spec_next_n`].
    pub fn next_n_words<W: Word>(&mut self, buf: &mut Vec<W>) -> (r: Result<(), ReadError>)
        ensures
            spec_next_n::<W>(*old(self), *final(self), old(buf)@, final(buf)@, r),
            final(self).spec_mark() <= final(self).spec_pos() <= final(self).spec_data().len(),
    {
        proof {
            use_type_invariant(&*self);
        }
        let w = W::width_exec();
        let rem = self.data.len() - self.pos;
        let avail = rem / w;
        let rm = rem % w;
        proof {
            lemma_fundamental_div_mod(rem as int, w as int);
        }
        let count = buf.len();
        if count > avail {
            proof {
                assert(count * w > rem) by (nonlinear_arith)
                    requires
                        count >= avail + 1,
                        w >= 1,
                        rem == w * avail + rm,
                        rm < w,
                ;
            }
            return Err(ReadError::ExhaustedInput);
        }
        proof {
            assert(count * w <= rem) by (nonlinear_arith)
                requires
                    count <= avail,
                    w >= 1,
                    rem == w * avail + rm,
                    rm >= 0,
            ;
        }
        let ghost d = self.data@;
        let ghost p0 = self.pos as int;
        let mut i: usize = 0;
        while i < count
            invariant
                i <= count,
                count == buf@.len(),
                w == W::width(),
                1 <= w <= 8,
                self.data@ == d,
                self.pos == p0,
                self.mark == old(self).mark,
                d.len() <= usize::MAX,
                p0 + count * w <= d.len(),
                forall|k: int|
                    0 <= k < i ==> #[trigger] buf@[k] == W::decode_spec(
                        d.subrange(p0 + k * w, p0 + (k + 1) * w),
                    ),
            decreases count - i,
        {
            proof {
                assert(i * w + w <= count * w && i * w >= 0) by (nonlinear_arith)
                    requires
                        i < count,
                        w >= 1,
                ;
                assert((i + 1) * w == i * w + w) by (nonlinear_arith);
            }
            let word = W::read_at(self.data, self.pos + i * w);
            buf.set(i, word);
            i = i + 1;
        }
        self.pos = self.pos + count * w;
        Ok(())
    }

    /// Move the mark to the current position; the cursor itself does not
    /// move, so an offset query right after answers zero.
    pub fn set_mark(&mut self)
        ensures
            final(self).spec_data() == old(self).spec_data(),
            final(self).spec_pos() == old(self).spec_pos(),
            final(self).spec_mark() == old(self).spec_pos(),
    {
        proof {
            use_type_invariant(&*self);
        }
        self.mark = self.pos;
    }

    /// The distance from the last mark to the cursor in whole words of
    /// `W`, as an address of `A`: word granularity, not bytes. With the
    /// mark at the cursor — as right after construction or a `set_mark` —
    /// this is the zero address.
    pub fn offset_in<A: AddressBase, W: Word>(&self) -> (r: A)
        ensures
            r == A::from_linear_spec((self.spec_pos() - self.spec_mark()) / W::width() as int),
            self.spec_pos() == self.spec_mark() ==> r == A::zero_spec(),
    {
        proof {
            use_type_invariant(&*self);
            A::lemma_from_linear_zero();
        }
        let d = self.pos - self.mark;
        let w = W::width_exec();
        A::from_linear(d / w)
    }

    /// The distance from the stream start to the cursor in whole words of
    /// `W`, as an address of `A`.
    pub fn total_offset_in<A: AddressBase, W: Word>(&self) -> (r: A)
        ensures
            r == A::from_linear_spec(self.spec_pos() / W::width() as int),
    {
        proof {
            use_type_invariant(&*self);
        }
        let w = W::width_exec();
        A::from_linear(self.pos / w)
    }
}

impl<'a, A: AddressBase, W: Word> Reader<A, W> for U8Reader<'a> {
    fn next(&mut self) -> Result<W, ReadError> {
        self.next_word()
    }

    fn next_n(&mut self, buf: &mut Vec<W>) -> Result<(), ReadError> {
        self.next_n_words(buf)
    }

    fn mark(&mut self) {
        self.set_mark();
    }

    fn offset(&mut self) -> A {
        self.offset_in::<A, W>()
    }

    fn total_offset(&mut self) -> A {
        self.total_offset_in::<A, W>()
    }
}

impl<'data, A: AddressBase, W: Word> ReaderBuilder<A, W> for &'data [u8] {
    type Output = U8Reader<'data>;

    open spec fn read_at_ok(data: Self, addr: A) -> bool {
        0 <= addr.lin_spec() <= data@.len()
    }

    open spec fn built_ok(data: Self, addr: A, r: Self::Output) -> bool {
        &&& r.spec_data() == data@.subrange(addr.lin_spec(), data@.len() as int)
        &&& r.spec_pos() == 0
        &&& r.spec_mark() == 0
    }

    fn read_at(data: Self, addr: A) -> Self::Output {
        let start = addr.to_linear();
        U8Reader::new(slice_subrange(data, start, data.len()))
    }
}

} // verus!
