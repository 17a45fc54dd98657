//! Value types of the emulated machine: the 8-bit [`word`], the 16-bit
//! [`doubleword`], and the byte stream an assembled program is collected in.
//!
//! All arithmetic on these types wraps silently; the contracts state every
//! result as plain modular arithmetic on the numeric views.

use vstd::prelude::*;

verus! {

/// Mask of bit 8, the carry bit of a 9-bit intermediate result.
pub const CARRY_BIT: u16 = 1 << 8;

/// The act of appending (as opposed to prepending) some data onto a structure.
pub trait Push<O> {
    fn push(&mut self, data: O);
}

/// Collects the bytes of an assembled program in execution order.
#[derive(Debug)]
pub struct InstructionStream {
    pub stream: Vec<word>,
}

impl View for InstructionStream {
    type V = Seq<u8>;

    open spec fn view(&self) -> Seq<u8> {
        Seq::new(self.stream@.len(), |i: int| self.stream@[i]@)
    }
}

impl InstructionStream {
    /// An empty stream.
    pub fn new() -> (r: Self)
        ensures
            r@ == Seq::<u8>::empty(),
    {
        let r = Self { stream: Vec::new() };
        proof {
            assert(r@ =~= Seq::<u8>::empty());
        }
        r
    }

    /// Appends one byte at the end of the stream.
    pub fn push_word(&mut self, data: word)
        ensures
            final(self)@ == old(self)@.push(data@),
    {
        self.stream.push(data);
        proof {
            assert(self@ =~= old(self)@.push(data@));
        }
    }

    /// Appends a 16-bit value as two bytes, low byte first.
    pub fn push_doubleword(&mut self, data: doubleword)
        ensures
            final(self)@ == old(self)@.push((data@ % 256) as u8).push((data@ / 256) as u8),
    {
        let elems = data.to_words();
        self.push_word(elems.0);
        self.push_word(elems.1);
    }
}

impl From<Vec<word>> for InstructionStream {
    fn from(data: Vec<word>) -> (r: InstructionStream) {
        InstructionStream { stream: data }
    }
}

impl vstd::std_specs::convert::FromSpecImpl<Vec<word>> for InstructionStream {
    open spec fn obeys_from_spec() -> bool {
        true
    }

    open spec fn from_spec(data: Vec<word>) -> InstructionStream {
        InstructionStream { stream: data }
    }
}

impl Push<word> for InstructionStream {
    fn push(&mut self, data: word) {
        self.push_word(data);
    }
}

impl Push<doubleword> for InstructionStream {
    fn push(&mut self, data: doubleword) {
        self.push_doubleword(data);
    }
}

/// True when bit 8, the carry position of a 9-bit result, is set.
pub fn carry_bit(val: doubleword) -> (r: bool)
    ensures
        r == (val@ & CARRY_BIT != 0),
{
    val.native_value() & CARRY_BIT != 0
}

/// True when bit 8, the carry position of a 9-bit result, is set.
pub fn carry_bit_u16(val: u16) -> (r: bool)
    ensures
        r == (val & CARRY_BIT != 0),
{
    val & CARRY_BIT != 0
}

/// The bit of `data` at position `n`, for `n` in 0..8.
pub fn get_bit_at_u8(data: u8, n: u8) -> (r: Option<bool>)
    ensures
        n < 8 ==> r == Some::<bool>((data >> n) & 1 == 1),
        n >= 8 ==> r.is_none(),
{
    match n {
        0..=7 => Some((data >> n) & 1 == 1),
        _ => None,
    }
}

/// The bit of `data` at position `n`, for `n` in 0..16.
pub fn get_bit_at_u16(data: u16, n: u8) -> (r: Option<bool>)
    ensures
        n < 16 ==> r == Some::<bool>((data >> n) & 1 == 1),
        n >= 16 ==> r.is_none(),
{
    match n {
        0..=15 => Some((data >> n) & 1 == 1),
        _ => None,
    }
}

/// The bit of `data` at position `n`, for `n` in 0..32.
pub fn get_bit_at_u32(data: u32, n: u8) -> (r: Option<bool>)
    ensures
        n < 32 ==> r == Some::<bool>((data >> n) & 1 == 1),
        n >= 32 ==> r.is_none(),
{
    match n {
        0..=31 => Some((data >> n) & 1 == 1),
        _ => None,
    }
}

/// The bit of `data` at position `n`, for `n` in 0..64.
pub fn get_bit_at_u64(data: u64, n: u8) -> (r: Option<bool>)
    ensures
        n < 64 ==> r == Some::<bool>((data >> n) & 1 == 1),
        n >= 64 ==> r.is_none(),
{
    match n {
        0..=63 => Some((data >> n) & 1 == 1),
        _ => None,
    }
}

/// The bit of `data` at position `n`, for `n` in 0..8.
pub fn get_bit_at_i8(data: i8, n: u8) -> (r: Option<bool>)
    ensures
        n < 8 ==> r == Some::<bool>((data >> n) & 1 == 1),
        n >= 8 ==> r.is_none(),
{
    match n {
        0..=7 => Some((data >> n) & 1 == 1),
        _ => None,
    }
}

/// The bit of `data` at position `n`, for `n` in 0..16.
pub fn get_bit_at_i16(data: i16, n: u8) -> (r: Option<bool>)
    ensures
        n < 16 ==> r == Some::<bool>((data >> n) & 1 == 1),
        n >= 16 ==> r.is_none(),
{
    match n {
        0..=15 => Some((data >> n) & 1 == 1),
        _ => None,
    }
}

/// The bit of `data` at position `n`, for `n` in 0..32.
pub fn get_bit_at_i32(data: i32, n: u8) -> (r: Option<bool>)
    ensures
        n < 32 ==> r == Some::<bool>((data >> n) & 1 == 1),
        n >= 32 ==> r.is_none(),
{
    match n {
        0..=31 => Some((data >> n) & 1 == 1),
        _ => None,
    }
}

/// The bit of `data` at position `n`, for `n` in 0..64.
pub fn get_bit_at_i64(data: i64, n: u8) -> (r: Option<bool>)
    ensures
        n < 64 ==> r == Some::<bool>((data >> n) & 1 == 1),
        n >= 64 ==> r.is_none(),
{
    match n {
        0..=63 => Some((data >> n) & 1 == 1),
        _ => None,
    }
}

/// A carry-less (CL) addition: one that over- or under-flows silently.
pub trait ClAdd<O>: Sized {
    type Output;

    fn cl_add(self, other: O) -> Self::Output;
}

/// The word holding a given byte, for use in specifications.
pub open spec fn word_of(v: u8) -> word {
    word { value: v }
}

/// The doubleword holding a given 16-bit value, for use in specifications.
pub open spec fn doubleword_of(v: u16) -> doubleword {
    doubleword { value: v }
}

/// A word of the 6502: a single byte, with a signed reinterpretation view and
/// per-bit-field access for opcode bytes.
#[allow(non_camel_case_types)]
#[derive(Clone, Copy, Debug, PartialEq, Eq, Structural)]
pub struct word {
    pub value: u8,
}

impl View for word {
    type V = u8;

    open spec fn view(&self) -> u8 {
        self.value
    }
}

impl word {
    /// The bit at position `n`, for `n` in 0..8.
    pub fn bit_at(&self, n: u8) -> (r: Option<bool>)
        ensures
            n < 8 ==> r == Some::<bool>((self@ >> n) & 1 == 1),
            n >= 8 ==> r.is_none(),
    {
        get_bit_at_u8(self.value, n)
    }

    /// A word holding the given byte.
    pub fn from_6502_bytes(data: u8) -> (r: Self)
        ensures
            r@ == data,
    {
        Self { value: data }
    }

    /// The byte as an unsigned magnitude.
    #[inline]
    pub fn native_value(&self) -> (r: u8)
        ensures
            r == self@,
    {
        self.value
    }

    /// The byte reinterpreted as a signed two's-complement value.
    #[inline]
    pub fn native_value_signed(&self) -> (r: i8)
        ensures
            r == self@ as i8,
    {
        self.value as i8
    }

    /// The byte as the 6502 itself sees it; a single byte has no byte order,
    /// so this equals `native_value`.
    #[inline]
    pub fn cpu_value(&self) -> (r: u8)
        ensures
            r == self@,
    {
        self.value
    }

    /// The signed reinterpretation as the 6502 itself sees it.
    #[inline]
    pub fn cpu_value_signed(&self) -> (r: i8)
        ensures
            r == self@ as i8,
    {
        self.value as i8
    }

    /// The zero word.
    #[inline]
    pub fn zero() -> (r: Self)
        ensures
            r@ == 0,
    {
        Self { value: 0 }
    }

    /// The byte zero-extended to sixteen bits.
    #[inline]
    pub fn as_doubleword(&self) -> (r: doubleword)
        ensures
            r@ == self@ as u16,
    {
        doubleword::from_6502_bytes(self.value as u16)
    }

    /// Wrapping addition of two words.
    pub fn carryless_add(self, other: word) -> (r: word)
        ensures
            r@ == (self@ + other@) % 256,
    {
        let sum: u16 = self.value as u16 + other.value as u16;
        Self { value: (sum % 256) as u8 }
    }

    /// Shift left by one; also returns the bit shifted out (old bit 7).
    #[inline]
    pub fn logical_shift_left_carry(self) -> (r: (word, bool))
        ensures
            r.0@ == (self@ * 2) % 256,
            r.1 == (self@ >= 0x80),
    {
        let intermediate: u16 = self.value as u16 * 2;
        (Self { value: (intermediate % 256) as u8 }, intermediate >= 256)
    }

    /// Shift right by one, filling bit 7 with zero; also returns the bit
    /// shifted out (old bit 0).
    #[inline]
    pub fn logical_shift_right_carry(self) -> (r: (word, bool))
        ensures
            r.0@ == self@ / 2,
            r.1 == (self@ % 2 == 1),
    {
        (Self { value: self.value / 2 }, self.value % 2 == 1)
    }

    /// Arithmetic shift left by one; on the 6502 this is the same operation
    /// as the logical shift left.
    #[inline]
    pub fn arith_shift_left_carry(self) -> (r: (word, bool))
        ensures
            r.0@ == (self@ * 2) % 256,
            r.1 == (self@ >= 0x80),
    {
        self.logical_shift_left_carry()
    }

    /// Shift right by one keeping the sign bit; also returns the bit shifted
    /// out (old bit 0).
    #[inline]
    pub fn arith_shift_right_carry(self) -> (r: (word, bool))
        ensures
            r.0@ == self@ / 2 + (if self@ >= 0x80 { 0x80u8 } else { 0u8 }),
            r.1 == (self@ % 2 == 1),
    {
        let carry = self.value % 2 == 1;
        let sign: u8 = if self.value >= 0x80 { 0x80 } else { 0 };
        (Self { value: self.value / 2 + sign }, carry)
    }

    /// Rotate `data` left by one through the carry: the old carry enters at
    /// bit 0, the old bit 7 leaves as the new carry.
    #[inline]
    pub fn rotate_left_carry(self, data: word, carry_bit: bool) -> (r: (word, bool))
        ensures
            r.0@ == (data@ * 2) % 256 + (if carry_bit { 1u8 } else { 0u8 }),
            r.1 == (data@ >= 0x80),
    {
        let intermediate: u16 = data.value as u16 * 2 % 256 + (if carry_bit { 1 } else { 0 });
        (Self { value: intermediate as u8 }, data.value >= 0x80)
    }

    /// Rotate `data` right by one through the carry: the old carry enters at
    /// bit 7, the old bit 0 leaves as the new carry.
    #[inline]
    pub fn rotate_right_carry(self, data: word, carry_bit: bool) -> (r: (word, bool))
        ensures
            r.0@ == data@ / 2 + (if carry_bit { 0x80u8 } else { 0u8 }),
            r.1 == (data@ % 2 == 1),
    {
        let carry = data.value % 2 == 1;
        let high: u8 = if carry_bit { 0x80 } else { 0 };
        (Self { value: data.value / 2 + high }, carry)
    }

    // === Helpers for encoding and decoding 6502 instructions ===

    /// The `aaa` field of an opcode byte: bits 7-5.
    pub fn aaa(&self) -> (r: u8)
        ensures
            r == self@ / 32,
    {
        let v = self.value;
        proof {
            assert((v & 0b11100000u8) >> 5u8 == v / 32) by (bit_vector);
        }
        (v & 0b11100000u8) >> 5u8
    }

    /// The `bbb` field of an opcode byte: bits 4-2.
    pub fn bbb(&self) -> (r: u8)
        ensures
            r == (self@ / 4) % 8,
    {
        let v = self.value;
        proof {
            assert((v & 0b00011100u8) >> 2u8 == (v / 4) % 8) by (bit_vector);
        }
        (v & 0b00011100u8) >> 2u8
    }

    /// The `cc` field of an opcode byte: bits 1-0.
    pub fn cc(&self) -> (r: u8)
        ensures
            r == self@ % 4,
    {
        let v = self.value;
        proof {
            assert(v & 0b00000011u8 == v % 4) by (bit_vector);
        }
        v & 0b00000011u8
    }

    /// Replaces the `aaa` field (bits 7-5) with `byte`.
    pub fn update_aaa(&mut self, byte: u8)
        requires
            byte < 8,
        ensures
            final(self)@ == byte * 32 + old(self)@ % 32,
    {
        let b = byte;
        let v = self.value;
        proof {
            assert(b < 8 ==> ((b << 5u8) | (v & 0b00011111u8)) == b * 32 + v % 32) by (bit_vector);
        }
        self.value = (b << 5u8) | (v & 0b00011111u8);
    }

    /// Replaces the `bbb` field (bits 4-2) with `byte`.
    pub fn update_bbb(&mut self, byte: u8)
        requires
            byte < 8,
        ensures
            final(self)@ == (old(self)@ / 32) * 32 + byte * 4 + old(self)@ % 4,
    {
        let b = byte;
        let v = self.value;
        proof {
            assert(b < 8 ==> ((b << 2u8) | (v & 0b11100011u8)) == (v / 32) * 32 + b * 4 + v % 4)
                by (bit_vector);
        }
        self.value = (b << 2u8) | (v & 0b11100011u8);
    }

    /// Replaces the `cc` field (bits 1-0) with `byte`.
    pub fn update_cc(&mut self, byte: u8)
        requires
            byte < 4,
        ensures
            final(self)@ == (old(self)@ / 4) * 4 + byte,
    {
        let b = byte;
        let v = self.value;
        proof {
            assert(b < 4 ==> (b | (v & 0b11111100u8)) == (v / 4) * 4 + b) by (bit_vector);
        }
        self.value = b | (v & 0b11111100u8);
    }

    /// The byte zero-extended to a signed 16-bit value.
    pub fn as_i16(self) -> (r: i16)
        ensures
            r == self@ as i16,
    {
        self.value as i16
    }
}

impl ClAdd<word> for word {
    type Output = word;

    #[inline]
    fn cl_add(self, other: word) -> word {
        self.carryless_add(other)
    }
}

impl From<u8> for word {
    fn from(val: u8) -> (r: word) {
        word { value: val }
    }
}

impl vstd::std_specs::convert::FromSpecImpl<u8> for word {
    open spec fn obeys_from_spec() -> bool {
        true
    }

    open spec fn from_spec(val: u8) -> word {
        word { value: val }
    }
}

impl From<u16> for word {
    fn from(val: u16) -> (r: word) {
        word { value: (val % 256) as u8 }
    }
}

impl vstd::std_specs::convert::FromSpecImpl<u16> for word {
    open spec fn obeys_from_spec() -> bool {
        true
    }

    open spec fn from_spec(val: u16) -> word {
        word { value: (val % 256) as u8 }
    }
}

/// A doubleword of the 6502: a 16-bit value used for addressing and the
/// program counter, composed of two words in little-endian order.
#[allow(non_camel_case_types)]
#[derive(Clone, Copy, Debug, PartialEq, Eq, Structural)]
pub struct doubleword {
    pub value: u16,
}

impl View for doubleword {
    type V = u16;

    open spec fn view(&self) -> u16 {
        self.value
    }
}

impl doubleword {
    /// The bit at position `n`, for `n` in 0..16.
    pub fn bit_at(&self, n: u8) -> (r: Option<bool>)
        ensures
            n < 16 ==> r == Some::<bool>((self@ >> n) & 1 == 1),
            n >= 16 ==> r.is_none(),
    {
        get_bit_at_u16(self.value, n)
    }

    /// A doubleword holding the given 16-bit value.
    pub fn from_6502_bytes(data: u16) -> (r: Self)
        ensures
            r@ == data,
    {
        Self { value: data }
    }

    /// The value as an unsigned magnitude.
    #[inline]
    pub fn native_value(&self) -> (r: u16)
        ensures
            r == self@,
    {
        self.value
    }

    /// The value as the 6502 itself sees it; byte order appears only when a
    /// doubleword is composed from or decomposed into words.
    #[inline]
    pub fn cpu_value(&self) -> (r: u16)
        ensures
            r == self@,
    {
        self.value
    }

    /// The value widened for use as a host-side index.
    #[inline]
    pub fn as_addr(&self) -> (r: usize)
        ensures
            r == self@ as usize,
    {
        self.value as usize
    }

    /// Composes a doubleword from its high and low bytes.
    pub fn from_words(hi: word, lo: word) -> (r: Self)
        ensures
            r@ == lo@ + 256 * hi@,
    {
        Self { value: lo.native_value() as u16 + 256 * hi.native_value() as u16 }
    }

    /// Decomposes the value into (low byte, high byte), little-endian order.
    pub fn to_words(self) -> (r: (word, word))
        ensures
            r.0@ == self@ % 256,
            r.1@ == self@ / 256,
    {
        (
            word::from_6502_bytes((self.value % 256) as u8),
            word::from_6502_bytes((self.value / 256) as u8),
        )
    }

    /// The zero doubleword.
    pub fn zero() -> (r: Self)
        ensures
            r@ == 0,
    {
        Self { value: 0 }
    }

    /// The value reinterpreted as a signed 16-bit value.
    pub fn as_i16(self) -> (r: i16)
        ensures
            r == self@ as i16,
    {
        self.value as i16
    }

    /// Wrapping addition of two doublewords.
    pub fn carryless_add(self, other: doubleword) -> (r: doubleword)
        ensures
            r@ == (self@ + other@) % 0x10000,
    {
        let sum: u32 = self.value as u32 + other.value as u32;
        Self { value: (sum % 0x10000) as u16 }
    }

    /// Wrapping addition of a word onto a doubleword.
    pub fn carryless_add_word(self, other: word) -> (r: doubleword)
        ensures
            r@ == (self@ + other@) % 0x10000,
    {
        let sum: u32 = self.value as u32 + other.native_value() as u32;
        Self { value: (sum % 0x10000) as u16 }
    }
}

impl ClAdd<doubleword> for doubleword {
    type Output = doubleword;

    #[inline]
    fn cl_add(self, other: doubleword) -> doubleword {
        self.carryless_add(other)
    }
}

impl ClAdd<word> for doubleword {
    type Output = doubleword;

    #[inline]
    fn cl_add(self, other: word) -> doubleword {
        self.carryless_add_word(other)
    }
}

impl From<u16> for doubleword {
    fn from(val: u16) -> (r: doubleword) {
        doubleword { value: val }
    }
}

impl vstd::std_specs::convert::FromSpecImpl<u16> for doubleword {
    open spec fn obeys_from_spec() -> bool {
        true
    }

    open spec fn from_spec(val: u16) -> doubleword {
        doubleword { value: val }
    }
}

} // verus!
