//! Address arithmetic for instruction streams.
//!
//! An address is a fixed-width unsigned integer naming a position in a
//! stream of words. The distance between two addresses of the same type is
//! an [`AddressDiff`], and the central law of this module is that `diff`
//! and `wrapping_offset` are exact inverses whenever `diff` is defined:
//! applying `l.diff(&r)` to `r` lands back on `l`.

use vstd::prelude::*;
use vstd::string::*;

verus! {

/// The scalar that measures the distance between two addresses of one
/// address type: the amount an [`AddressDiff`] carries.
pub trait AddressDiffAmount: Sized + Copy + PartialEq + Eq + PartialOrd + Ord {
    /// The distinguished zero distance.
    spec fn zero_spec() -> Self;

    /// The distinguished unit distance.
    spec fn one_spec() -> Self;

    fn zero() -> (r: Self)
        ensures
            r == Self::zero_spec(),
    ;

    fn one() -> (r: Self)
        ensures
            r == Self::one_spec(),
    ;
}

impl AddressDiffAmount for u16 {
    open spec fn zero_spec() -> Self {
        0u16
    }

    open spec fn one_spec() -> Self {
        1u16
    }

    fn zero() -> (r: Self) {
        0
    }

    fn one() -> (r: Self) {
        1
    }
}

impl AddressDiffAmount for u32 {
    open spec fn zero_spec() -> Self {
        0u32
    }

    open spec fn one_spec() -> Self {
        1u32
    }

    fn zero() -> (r: Self) {
        0
    }

    fn one() -> (r: Self) {
        1
    }
}

impl AddressDiffAmount for u64 {
    open spec fn zero_spec() -> Self {
        0u64
    }

    open spec fn one_spec() -> Self {
        1u64
    }

    fn zero() -> (r: Self) {
        0
    }

    fn one() -> (r: Self) {
        1
    }
}

impl AddressDiffAmount for usize {
    open spec fn zero_spec() -> Self {
        0usize
    }

    open spec fn one_spec() -> Self {
        1usize
    }

    fn zero() -> (r: Self) {
        0
    }

    fn one() -> (r: Self) {
        1
    }
}

/// The difference between some pair of `A: Address`. This is primarily
/// useful in describing the size of an instruction, or the relative offset
/// of a branch.
///
/// For any address type `A` the round-trip law holds: if `l.diff(&r)`
/// yields `Some(d)`, then `r.wrapping_offset(d) == l`. The law is stated
/// and proved as [`AddressBase::lemma_diff_offset_inverse`].
#[derive(Clone, Copy, PartialEq, Eq, PartialOrd, Ord)]
pub struct AddressDiff<T: AddressBase> {
    pub amount: T::Diff,
}

impl<T: Address> AddressDiff<T> {
    pub fn from_const(amount: T::Diff) -> (r: Self)
        ensures
            r.amount == amount,
    {
        AddressDiff { amount }
    }

    pub fn one() -> (r: Self)
        ensures
            r.amount == <<T as AddressBase>::Diff as AddressDiffAmount>::one_spec(),
    {
        AddressDiff { amount: <<T as AddressBase>::Diff as AddressDiffAmount>::one() }
    }

    pub fn zero() -> (r: Self)
        ensures
            r.amount == <<T as AddressBase>::Diff as AddressDiffAmount>::zero_spec(),
    {
        AddressDiff { amount: <<T as AddressBase>::Diff as AddressDiffAmount>::zero() }
    }
}

/// Adding an [`AddressDiff`] to an address with the plain `+` moves it
/// forward by the diff's amount, and subtracting one with the plain `-`
/// moves it back; the caller owes that the result stays in range. The
/// wraparound and checked variants live on [`AddressBase`].
impl core::ops::Add<AddressDiff<u16>> for u16 {
    type Output = Self;

    fn add(self, other: AddressDiff<Self>) -> Self::Output {
        self + other.amount
    }
}

impl vstd::std_specs::ops::AddSpecImpl<AddressDiff<u16>> for u16 {
    open spec fn obeys_add_spec() -> bool {
        true
    }

    open spec fn add_req(self, rhs: AddressDiff<u16>) -> bool {
        self + rhs.amount <= u16::MAX
    }

    open spec fn add_spec(self, rhs: AddressDiff<u16>) -> u16 {
        (self + rhs.amount) as u16
    }
}

impl core::ops::Sub<AddressDiff<u16>> for u16 {
    type Output = Self;

    fn sub(self, other: AddressDiff<Self>) -> Self::Output {
        self - other.amount
    }
}

impl vstd::std_specs::ops::SubSpecImpl<AddressDiff<u16>> for u16 {
    open spec fn obeys_sub_spec() -> bool {
        true
    }

    open spec fn sub_req(self, rhs: AddressDiff<u16>) -> bool {
        self >= rhs.amount
    }

    open spec fn sub_spec(self, rhs: AddressDiff<u16>) -> u16 {
        (self - rhs.amount) as u16
    }
}

impl core::ops::Add<AddressDiff<u32>> for u32 {
    type Output = Self;

    fn add(self, other: AddressDiff<Self>) -> Self::Output {
        self + other.amount
    }
}

impl vstd::std_specs::ops::AddSpecImpl<AddressDiff<u32>> for u32 {
    open spec fn obeys_add_spec() -> bool {
        true
    }

    open spec fn add_req(self, rhs: AddressDiff<u32>) -> bool {
        self + rhs.amount <= u32::MAX
    }

    open spec fn add_spec(self, rhs: AddressDiff<u32>) -> u32 {
        (self + rhs.amount) as u32
    }
}

impl core::ops::Sub<AddressDiff<u32>> for u32 {
    type Output = Self;

    fn sub(self, other: AddressDiff<Self>) -> Self::Output {
        self - other.amount
    }
}

impl vstd::std_specs::ops::SubSpecImpl<AddressDiff<u32>> for u32 {
    open spec fn obeys_sub_spec() -> bool {
        true
    }

    open spec fn sub_req(self, rhs: AddressDiff<u32>) -> bool {
        self >= rhs.amount
    }

    open spec fn sub_spec(self, rhs: AddressDiff<u32>) -> u32 {
        (self - rhs.amount) as u32
    }
}

impl core::ops::Add<AddressDiff<u64>> for u64 {
    type Output = Self;

    fn add(self, other: AddressDiff<Self>) -> Self::Output {
        self + other.amount
    }
}

impl vstd::std_specs::ops::AddSpecImpl<AddressDiff<u64>> for u64 {
    open spec fn obeys_add_spec() -> bool {
        true
    }

    open spec fn add_req(self, rhs: AddressDiff<u64>) -> bool {
        self + rhs.amount <= u64::MAX
    }

    open spec fn add_spec(self, rhs: AddressDiff<u64>) -> u64 {
        (self + rhs.amount) as u64
    }
}

impl core::ops::Sub<AddressDiff<u64>> for u64 {
    type Output = Self;

    fn sub(self, other: AddressDiff<Self>) -> Self::Output {
        self - other.amount
    }
}

impl vstd::std_specs::ops::SubSpecImpl<AddressDiff<u64>> for u64 {
    open spec fn obeys_sub_spec() -> bool {
        true
    }

    open spec fn sub_req(self, rhs: AddressDiff<u64>) -> bool {
        self >= rhs.amount
    }

    open spec fn sub_spec(self, rhs: AddressDiff<u64>) -> u64 {
        (self - rhs.amount) as u64
    }
}

impl core::ops::Add<AddressDiff<usize>> for usize {
    type Output = Self;

    fn add(self, other: AddressDiff<Self>) -> Self::Output {
        self + other.amount
    }
}

impl vstd::std_specs::ops::AddSpecImpl<AddressDiff<usize>> for usize {
    open spec fn obeys_add_spec() -> bool {
        true
    }

    open spec fn add_req(self, rhs: AddressDiff<usize>) -> bool {
        self + rhs.amount <= usize::MAX
    }

    open spec fn add_spec(self, rhs: AddressDiff<usize>) -> usize {
        (self + rhs.amount) as usize
    }
}

impl core::ops::Sub<AddressDiff<usize>> for usize {
    type Output = Self;

    fn sub(self, other: AddressDiff<Self>) -> Self::Output {
        self - other.amount
    }
}

impl vstd::std_specs::ops::SubSpecImpl<AddressDiff<usize>> for usize {
    open spec fn obeys_sub_spec() -> bool {
        true
    }

    open spec fn sub_req(self, rhs: AddressDiff<usize>) -> bool {
        self >= rhs.amount
    }

    open spec fn sub_spec(self, rhs: AddressDiff<usize>) -> usize {
        (self - rhs.amount) as usize
    }
}

/// What an address type must support: conversion to a flat linear index,
/// a directed distance between two addresses, and application of a
/// distance with either wraparound or overflow-checked semantics.
pub trait AddressBase: AddressDisplay + Sized + Copy {
    type Diff: AddressDiffAmount;

    /// The numeric value of this address as seen by `to_linear`.
    spec fn lin_spec(self) -> int;

    /// The distinguished zero address.
    spec fn zero_spec() -> Self;

    /// The address whose linear value is `n`, truncated to this address
    /// type's width: the inverse of `lin_spec` for in-range values.
    spec fn from_linear_spec(n: int) -> Self;

    /// The directed distance from `other` to `self`, when the two are
    /// comparable. Address types that cover several disjoint spaces may
    /// answer `None` for pairs that no scalar can connect.
    spec fn diff_spec(self, other: Self) -> Option<AddressDiff<Self>>;

    /// The address reached from `self` by `amount` with two's-complement
    /// wraparound.
    spec fn wrapping_offset_spec(self, amount: AddressDiff<Self>) -> Self;

    /// The address reached from `self` by `amount`, or `None` when the sum
    /// leaves the address type's range.
    spec fn checked_offset_spec(self, amount: AddressDiff<Self>) -> Option<Self>;

    /// The diff/offset round-trip law: whenever `self.diff_spec(other)` is
    /// defined, applying the resulting distance to `other` with wraparound
    /// lands back on `self`.
    proof fn lemma_diff_offset_inverse(self, other: Self)
        ensures
            self.diff_spec(other) matches Some(d) ==> other.wrapping_offset_spec(d) == self,
    ;

    /// A zero linear value names the zero address.
    proof fn lemma_from_linear_zero()
        ensures
            Self::from_linear_spec(0) == Self::zero_spec(),
    ;

    fn zero() -> (r: Self)
        ensures
            r == Self::zero_spec(),
    ;

    fn from_linear(n: usize) -> (r: Self)
        ensures
            r == Self::from_linear_spec(n as int),
    ;

    fn to_linear(&self) -> (r: usize)
        ensures
            r == self.lin_spec(),
    ;

    /// Compute the `AddressDiff` between `self` and `other`.
    ///
    /// May return `None` if the two addresses aren't comparable; plain
    /// unsigned integer addresses always answer `Some`.
    fn diff(&self, other: &Self) -> (r: Option<AddressDiff<Self>>)
        ensures
            r == self.diff_spec(*other),
    ;

    fn wrapping_offset(&self, other: AddressDiff<Self>) -> (r: Self)
        ensures
            r == self.wrapping_offset_spec(other),
    ;

    fn checked_offset(&self, other: AddressDiff<Self>) -> (r: Option<Self>)
        ensures
            r == self.checked_offset_spec(other),
    ;
}

/// An address that can also be parsed from text.
pub trait Address: AddressBase + AddrParse {

}

impl AddressBase for u16 {
    type Diff = Self;

    open spec fn lin_spec(self) -> int {
        self as int
    }

    open spec fn zero_spec() -> Self {
        0u16
    }

    open spec fn from_linear_spec(n: int) -> Self {
        n as u16
    }

    open spec fn diff_spec(self, other: Self) -> Option<AddressDiff<Self>> {
        Some(AddressDiff { amount: self.wrapping_sub(other) })
    }

    open spec fn wrapping_offset_spec(self, amount: AddressDiff<Self>) -> Self {
        self.wrapping_add(amount.amount)
    }

    open spec fn checked_offset_spec(self, amount: AddressDiff<Self>) -> Option<Self> {
        if self + amount.amount > u16::MAX {
            None
        } else {
            Some((self + amount.amount) as u16)
        }
    }

    proof fn lemma_diff_offset_inverse(self, other: Self) {
    }

    proof fn lemma_from_linear_zero() {
    }

    fn zero() -> (r: Self) {
        0
    }

    fn from_linear(n: usize) -> (r: Self) {
        n as u16
    }

    fn to_linear(&self) -> (r: usize) {
        *self as usize
    }

    fn diff(&self, other: &Self) -> (r: Option<AddressDiff<Self>>) {
        Some(AddressDiff { amount: (*self).wrapping_sub(*other) })
    }

    fn wrapping_offset(&self, other: AddressDiff<Self>) -> (r: Self) {
        (*self).wrapping_add(other.amount)
    }

    fn checked_offset(&self, other: AddressDiff<Self>) -> (r: Option<Self>) {
        (*self).checked_add(other.amount)
    }
}

impl Address for u16 {

}

impl AddressBase for u32 {
    type Diff = Self;

    open spec fn lin_spec(self) -> int {
        self as int
    }

    open spec fn zero_spec() -> Self {
        0u32
    }

    open spec fn from_linear_spec(n: int) -> Self {
        n as u32
    }

    open spec fn diff_spec(self, other: Self) -> Option<AddressDiff<Self>> {
        Some(AddressDiff { amount: self.wrapping_sub(other) })
    }

    open spec fn wrapping_offset_spec(self, amount: AddressDiff<Self>) -> Self {
        self.wrapping_add(amount.amount)
    }

    open spec fn checked_offset_spec(self, amount: AddressDiff<Self>) -> Option<Self> {
        if self + amount.amount > u32::MAX {
            None
        } else {
            Some((self + amount.amount) as u32)
        }
    }

    proof fn lemma_diff_offset_inverse(self, other: Self) {
    }

    proof fn lemma_from_linear_zero() {
    }

    fn zero() -> (r: Self) {
        0
    }

    fn from_linear(n: usize) -> (r: Self) {
        n as u32
    }

    fn to_linear(&self) -> (r: usize) {
        *self as usize
    }

    fn diff(&self, other: &Self) -> (r: Option<AddressDiff<Self>>) {
        Some(AddressDiff { amount: (*self).wrapping_sub(*other) })
    }

    fn wrapping_offset(&self, other: AddressDiff<Self>) -> (r: Self) {
        (*self).wrapping_add(other.amount)
    }

    fn checked_offset(&self, other: AddressDiff<Self>) -> (r: Option<Self>) {
        (*self).checked_add(other.amount)
    }
}

impl Address for u32 {

}

impl AddressBase for u64 {
    type Diff = Self;

    open spec fn lin_spec(self) -> int {
        self as usize as int
    }

    open spec fn zero_spec() -> Self {
        0u64
    }

    open spec fn from_linear_spec(n: int) -> Self {
        n as u64
    }

    open spec fn diff_spec(self, other: Self) -> Option<AddressDiff<Self>> {
        Some(AddressDiff { amount: self.wrapping_sub(other) })
    }

    open spec fn wrapping_offset_spec(self, amount: AddressDiff<Self>) -> Self {
        self.wrapping_add(amount.amount)
    }

    open spec fn checked_offset_spec(self, amount: AddressDiff<Self>) -> Option<Self> {
        if self + amount.amount > u64::MAX {
            None
        } else {
            Some((self + amount.amount) as u64)
        }
    }

    proof fn lemma_diff_offset_inverse(self, other: Self) {
    }

    proof fn lemma_from_linear_zero() {
    }

    fn zero() -> (r: Self) {
        0
    }

    fn from_linear(n: usize) -> (r: Self) {
        n as u64
    }

    fn to_linear(&self) -> (r: usize) {
        *self as usize
    }

    fn diff(&self, other: &Self) -> (r: Option<AddressDiff<Self>>) {
        Some(AddressDiff { amount: (*self).wrapping_sub(*other) })
    }

    fn wrapping_offset(&self, other: AddressDiff<Self>) -> (r: Self) {
        (*self).wrapping_add(other.amount)
    }

    fn checked_offset(&self, other: AddressDiff<Self>) -> (r: Option<Self>) {
        (*self).checked_add(other.amount)
    }
}

impl Address for u64 {

}

impl AddressBase for usize {
    type Diff = Self;

    open spec fn lin_spec(self) -> int {
        self as int
    }

    open spec fn zero_spec() -> Self {
        0usize
    }

    open spec fn from_linear_spec(n: int) -> Self {
        n as usize
    }

    open spec fn diff_spec(self, other: Self) -> Option<AddressDiff<Self>> {
        Some(AddressDiff { amount: self.wrapping_sub(other) })
    }

    open spec fn wrapping_offset_spec(self, amount: AddressDiff<Self>) -> Self {
        self.wrapping_add(amount.amount)
    }

    open spec fn checked_offset_spec(self, amount: AddressDiff<Self>) -> Option<Self> {
        if self + amount.amount > usize::MAX {
            None
        } else {
            Some((self + amount.amount) as usize)
        }
    }

    proof fn lemma_diff_offset_inverse(self, other: Self) {
    }

    proof fn lemma_from_linear_zero() {
    }

    fn zero() -> (r: Self) {
        0
    }

    fn from_linear(n: usize) -> (r: Self) {
        n as usize
    }

    fn to_linear(&self) -> (r: usize) {
        *self
    }

    fn diff(&self, other: &Self) -> (r: Option<AddressDiff<Self>>) {
        Some(AddressDiff { amount: (*self).wrapping_sub(*other) })
    }

    fn wrapping_offset(&self, other: AddressDiff<Self>) -> (r: Self) {
        (*self).wrapping_add(other.amount)
    }

    fn checked_offset(&self, other: AddressDiff<Self>) -> (r: Option<Self>) {
        (*self).checked_add(other.amount)
    }
}

impl Address for usize {

}

/// How an address renders itself for presentation: `show` hands back a
/// value that can be turned into a hexadecimal string.
pub trait AddressDisplay {
    type Show;

    fn show(&self) -> Self::Show;
}

impl AddressDisplay for usize {
    type Show = AddressDisplayUsize;

    fn show(&self) -> (r: AddressDisplayUsize)
        ensures
            r.0 == *self,
    {
        AddressDisplayUsize(*self)
    }
}

pub struct AddressDisplayUsize(pub usize);

impl AddressDisplayUsize {
    /// The `{:#x}` rendering of the address.
    pub fn to_hex_string(&self) -> (s: String)
        ensures
            s@ == crate::display::spec_unsigned_hex(self.0 as nat),
    {
        crate::display::unsigned_hex_string(self.0 as u64)
    }
}

impl AddressDisplay for u64 {
    type Show = AddressDisplayU64;

    fn show(&self) -> (r: AddressDisplayU64)
        ensures
            r.0 == *self,
    {
        AddressDisplayU64(*self)
    }
}

pub struct AddressDisplayU64(pub u64);

impl AddressDisplayU64 {
    /// The `{:#x}` rendering of the address.
    pub fn to_hex_string(&self) -> (s: String)
        ensures
            s@ == crate::display::spec_unsigned_hex(self.0 as nat),
    {
        crate::display::unsigned_hex_string(self.0)
    }
}

impl AddressDisplay for u32 {
    type Show = AddressDisplayU32;

    fn show(&self) -> (r: AddressDisplayU32)
        ensures
            r.0 == *self,
    {
        AddressDisplayU32(*self)
    }
}

pub struct AddressDisplayU32(pub u32);

impl AddressDisplayU32 {
    /// The `{:#x}` rendering of the address.
    pub fn to_hex_string(&self) -> (s: String)
        ensures
            s@ == crate::display::spec_unsigned_hex(self.0 as nat),
    {
        crate::display::unsigned_hex_string(self.0 as u64)
    }
}

impl AddressDisplay for u16 {
    type Show = AddressDisplayU16;

    fn show(&self) -> (r: AddressDisplayU16)
        ensures
            r.0 == *self,
    {
        AddressDisplayU16(*self)
    }
}

pub struct AddressDisplayU16(pub u16);

impl AddressDisplayU16 {
    /// The `{:#x}` rendering of the address.
    pub fn to_hex_string(&self) -> (s: String)
        ensures
            s@ == crate::display::spec_unsigned_hex(self.0 as nat),
    {
        crate::display::unsigned_hex_string(self.0 as u64)
    }
}

/// Why parsing an address from text failed.
#[derive(Debug, PartialEq, Eq, Copy, Clone)]
pub enum AddrParseError {
    /// The input was empty.
    Empty,
    /// A character of the input is not a digit of the expected radix.
    InvalidDigit,
    /// The digits name a value beyond the address type's range.
    Overflow,
}

/// The numeric value of the ASCII byte `b` as a digit of base `radix`,
/// or `-1` when `b` is no such digit. Decimal digits and both cases of
/// the hexadecimal letters count.
pub open spec fn spec_digit_value(b: u8, radix: int) -> int {
    let v: int = if 48 <= b <= 57 {
        b - 48
    } else if 97 <= b <= 102 {
        b - 87
    } else if 65 <= b <= 70 {
        b - 55
    } else {
        -1
    };
    if 0 <= v < radix {
        v
    } else {
        -1
    }
}

pub open spec fn spec_is_digit(b: u8, radix: int) -> bool {
    spec_digit_value(b, radix) >= 0
}

pub open spec fn spec_all_digits(s: Seq<u8>, radix: int) -> bool {
    forall|i: int| 0 <= i < s.len() ==> spec_is_digit(#[trigger] s[i], radix)
}

/// The value of a digit string, most significant digit first.
pub open spec fn spec_digits_value(s: Seq<u8>, radix: int) -> int
    decreases s.len(),
{
    if s.len() == 0 {
        0
    } else {
        spec_digits_value(s.drop_last(), radix) * radix + spec_digit_value(s.last(), radix)
    }
}

/// An optional leading `+` sign, accepted before the digits.
pub open spec fn spec_strip_plus(s: Seq<u8>) -> Seq<u8> {
    if s.len() > 0 && s[0] == 43 {
        s.skip(1)
    } else {
        s
    }
}

/// What parsing a digit string of base `radix` into a value of at most
/// `max` yields: the error names the first reason the input is refused.
pub open spec fn spec_parse_uint(s: Seq<u8>, radix: int, max: int) -> Result<int, AddrParseError> {
    let t = spec_strip_plus(s);
    if s.len() == 0 {
        Err(AddrParseError::Empty)
    } else if t.len() == 0 {
        Err(AddrParseError::InvalidDigit)
    } else if !spec_all_digits(t, radix) {
        Err(AddrParseError::InvalidDigit)
    } else if spec_digits_value(t, radix) > max {
        Err(AddrParseError::Overflow)
    } else {
        Ok(spec_digits_value(t, radix))
    }
}

pub open spec fn spec_has_hex_prefix(s: Seq<u8>) -> bool {
    s.len() >= 2 && s[0] == 48 && s[1] == 120
}

/// What parsing an address from text yields: with a leading `0x` the rest
/// of the input is read as hexadecimal, otherwise the whole input is read
/// as decimal.
pub open spec fn spec_parse_addr(s: Seq<u8>, max: int) -> Result<int, AddrParseError> {
    if spec_has_hex_prefix(s) {
        spec_parse_uint(s.skip(2), 16, max)
    } else {
        spec_parse_uint(s, 10, max)
    }
}

/// The digit value of `b` in base `radix`, when it has one.
fn digit_of(b: u8, radix: u8) -> (r: Option<u8>)
    requires
        radix == 10 || radix == 16,
    ensures
        r matches Some(v) ==> spec_digit_value(b, radix as int) == v,
        r is None ==> spec_digit_value(b, radix as int) == -1,
{
    let v: u8 = if 48 <= b && b <= 57 {
        b - 48
    } else if 97 <= b && b <= 102 {
        b - 87
    } else if 65 <= b && b <= 70 {
        b - 55
    } else {
        255
    };
    if v < radix {
        Some(v)
    } else {
        None
    }
}

/// Parse `bytes[start..]` as an optionally `+`-signed digit string of base
/// `radix`, refusing values above `max`.
fn parse_uint(bytes: &[u8], start: usize, radix: u8, max: u64) -> (r: Result<u64, AddrParseError>)
    requires
        start <= bytes@.len(),
        radix == 10 || radix == 16,
    ensures
        r matches Ok(v) ==> spec_parse_uint(bytes@.skip(start as int), radix as int, max as int)
            == Ok::<int, AddrParseError>(v as int),
        r matches Err(e) ==> spec_parse_uint(bytes@.skip(start as int), radix as int, max as int)
            == Err::<int, AddrParseError>(e),
{
    let ghost s = bytes@.skip(start as int);
    let n = bytes.len();
    if start == n {
        return Err(AddrParseError::Empty);
    }
    let t_start = if bytes[start] == 43 {
        start + 1
    } else {
        start
    };
    let ghost t = bytes@.skip(t_start as int);
    proof {
        assert(spec_strip_plus(s) =~= t);
    }
    if t_start == n {
        return Err(AddrParseError::InvalidDigit);
    }

    let mut i = t_start;
    while i < n
        invariant
            start <= t_start <= i <= n,
            start < n,
            n == bytes@.len(),
            radix == 10 || radix == 16,
            t == bytes@.skip(t_start as int),
            spec_strip_plus(bytes@.skip(start as int)) == t,
            forall|j: int| t_start <= j < i ==> spec_is_digit(#[trigger] bytes@[j], radix as int),
        decreases n - i,
    {
        if digit_of(bytes[i], radix).is_none() {
            proof {
                assert(t[i - t_start] == bytes@[i as int]);
                assert(!spec_all_digits(t, radix as int));
            }
            return Err(AddrParseError::InvalidDigit);
        }
        i = i + 1;
    }
    proof {
        assert forall|j: int| 0 <= j < t.len() implies spec_is_digit(#[trigger] t[j], radix as int) by {
            assert(t[j] == bytes@[t_start + j]);
        }
        assert(spec_all_digits(t, radix as int));
    }

    let mut acc: u64 = 0;
    let mut overflowed = false;
    let mut i = t_start;
    while i < n
        invariant
            start <= t_start <= i <= n,
            start < n,
            n == bytes@.len(),
            radix == 10 || radix == 16,
            t == bytes@.skip(t_start as int),
            spec_strip_plus(bytes@.skip(start as int)) == t,
            spec_all_digits(t, radix as int),
            !overflowed ==> acc == spec_digits_value(bytes@.subrange(t_start as int, i as int), radix as int)
                && acc <= max,
            overflowed ==> spec_digits_value(bytes@.subrange(t_start as int, i as int), radix as int) > max,
        decreases n - i,
    {
        let ghost prefix = bytes@.subrange(t_start as int, i as int);
        let ghost prefix1 = bytes@.subrange(t_start as int, i + 1);
        proof {
            assert(t[i - t_start] == bytes@[i as int]);
            assert(prefix1.drop_last() =~= prefix);
            assert(prefix1.last() == bytes@[i as int]);
        }
        let d = match digit_of(bytes[i], radix) {
            Some(d) => d,
            None => {
                proof {
                    assert(spec_is_digit(t[i - t_start], radix as int));
                    assert(false);
                }
                return Err(AddrParseError::InvalidDigit);
            },
        };
        let ghost pv = spec_digits_value(prefix, radix as int);
        let ghost pv1 = spec_digits_value(prefix1, radix as int);
        proof {
            assert(pv1 == pv * radix + d);
        }
        if overflowed {
            proof {
                assert(pv * radix >= (max + 1) * radix) by (nonlinear_arith)
                    requires
                        pv >= max + 1,
                        radix >= 1,
                ;
                assert((max + 1) * radix >= max + 1) by (nonlinear_arith)
                    requires
                        radix >= 1,
                        max + 1 >= 0,
                ;
            }
        } else {
            if acc > max / (radix as u64) {
                overflowed = true;
                proof {
                    assert(pv * radix > (max / (radix as u64)) * radix) by (nonlinear_arith)
                        requires
                            pv > (max / (radix as u64)) as int,
                            radix >= 1,
                    ;
                    assert((max / (radix as u64)) * (radix as u64) + radix > max) by {
                        assert(max == (max / (radix as u64)) * (radix as u64) + max % (radix as u64)) by (nonlinear_arith)
                            requires
                                radix as u64 >= 1,
                        ;
                    }
                    assert(pv * radix >= (max / (radix as u64)) * radix + radix) by (nonlinear_arith)
                        requires
                            pv > (max / (radix as u64)) as int,
                            radix >= 1,
                    ;
                }
            } else {
                proof {
                    assert(acc * radix <= (max / (radix as u64)) * radix) by (nonlinear_arith)
                        requires
                            acc <= (max / (radix as u64)) as int,
                            radix >= 1,
                    ;
                    assert((max / (radix as u64)) * (radix as u64) <= max) by {
                        assert(max == (max / (radix as u64)) * (radix as u64) + max % (radix as u64)) by (nonlinear_arith)
                            requires
                                radix as u64 >= 1,
                        ;
                    }
                }
                let acc2 = acc * (radix as u64);
                if (d as u64) > max - acc2 {
                    overflowed = true;
                } else {
                    acc = acc2 + (d as u64);
                }
            }
        }
        i = i + 1;
    }
    proof {
        assert(bytes@.subrange(t_start as int, n as int) =~= t);
    }
    if overflowed {
        Err(AddrParseError::Overflow)
    } else {
        Ok(acc)
    }
}

/// Parse an address written in decimal, or in hexadecimal after a leading
/// `0x`, refusing values above `max`.
fn parse_addr(bytes: &[u8], max: u64) -> (r: Result<u64, AddrParseError>)
    ensures
        r matches Ok(v) ==> spec_parse_addr(bytes@, max as int) == Ok::<int, AddrParseError>(v as int),
        r matches Err(e) ==> spec_parse_addr(bytes@, max as int) == Err::<int, AddrParseError>(e),
{
    if bytes.len() >= 2 && bytes[0] == 48 && bytes[1] == 120 {
        parse_uint(bytes, 2, 16, max)
    } else {
        proof {
            assert(bytes@.skip(0) =~= bytes@);
        }
        parse_uint(bytes, 0, 10, max)
    }
}

/// An address type that can be read from text: decimal, or hexadecimal
/// after a leading `0x`.
pub trait AddrParse: Sized {
    type Err;

    fn parse_from(s: &str) -> Result<Self, Self::Err>;
}

impl AddrParse for usize {
    type Err = AddrParseError;

    fn parse_from(s: &str) -> (r: Result<Self, AddrParseError>)
        ensures
            r matches Ok(v) ==> spec_parse_addr(s.spec_bytes(), usize::MAX as int)
                == Ok::<int, AddrParseError>(v as int),
            r matches Err(e) ==> spec_parse_addr(s.spec_bytes(), usize::MAX as int)
                == Err::<int, AddrParseError>(e),
    {
        match parse_addr(s.as_bytes(), usize::MAX as u64) {
            Ok(v) => Ok(v as usize),
            Err(e) => Err(e),
        }
    }
}

impl AddrParse for u64 {
    type Err = AddrParseError;

    fn parse_from(s: &str) -> (r: Result<Self, AddrParseError>)
        ensures
            r matches Ok(v) ==> spec_parse_addr(s.spec_bytes(), u64::MAX as int)
                == Ok::<int, AddrParseError>(v as int),
            r matches Err(e) ==> spec_parse_addr(s.spec_bytes(), u64::MAX as int)
                == Err::<int, AddrParseError>(e),
    {
        parse_addr(s.as_bytes(), u64::MAX)
    }
}

impl AddrParse for u32 {
    type Err = AddrParseError;

    fn parse_from(s: &str) -> (r: Result<Self, AddrParseError>)
        ensures
            r matches Ok(v) ==> spec_parse_addr(s.spec_bytes(), u32::MAX as int)
                == Ok::<int, AddrParseError>(v as int),
            r matches Err(e) ==> spec_parse_addr(s.spec_bytes(), u32::MAX as int)
                == Err::<int, AddrParseError>(e),
    {
        match parse_addr(s.as_bytes(), u32::MAX as u64) {
            Ok(v) => Ok(v as u32),
            Err(e) => Err(e),
        }
    }
}

impl AddrParse for u16 {
    type Err = AddrParseError;

    fn parse_from(s: &str) -> (r: Result<Self, AddrParseError>)
        ensures
            r matches Ok(v) ==> spec_parse_addr(s.spec_bytes(), u16::MAX as int)
                == Ok::<int, AddrParseError>(v as int),
            r matches Err(e) ==> spec_parse_addr(s.spec_bytes(), u16::MAX as int)
                == Err::<int, AddrParseError>(e),
    {
        match parse_addr(s.as_bytes(), u16::MAX as u64) {
            Ok(v) => Ok(v as u16),
            Err(e) => Err(e),
        }
    }
}

} // verus!
