//! Register readers and writers shared by every register module.
//!
//! A register is read as an [`R`] and written through a [`W`]. Single-bit
//! fields are read through a [`BitReader`] and written through a
//! [`BitWriter`], which borrows the register writer it came from.
use core::marker::PhantomData;
use vstd::prelude::*;

verus! {

/// Raw register word: an unsigned integer of a fixed width.
pub trait RawReg: Copy + Sized {
    /// Number of bits in the word.
    spec fn spec_width() -> nat;

    /// Bit `i` of the word.
    spec fn spec_bit(self, i: nat) -> bool;

    /// The word with bit `o` set to `value` and every other bit kept.
    fn with_bit(self, o: u8, value: bool) -> (r: Self)
        requires
            (o as nat) < Self::spec_width(),
        ensures
            forall|i: nat|
                i < Self::spec_width() ==> #[trigger] r.spec_bit(i) == if i == o as nat {
                    value
                } else {
                    self.spec_bit(i)
                },
    ;
}

/// `after` is `before` with bit `o` set to `value` and every other bit kept.
pub open spec fn bit_written<U: RawReg>(before: U, after: U, o: nat, value: bool) -> bool {
    forall|i: nat|
        i < U::spec_width() ==> #[trigger] after.spec_bit(i) == if i == o {
            value
        } else {
            before.spec_bit(i)
        }
}

proof fn lemma_or_u8(x: u8, o: u8, j: u8)
    by (bit_vector)
    requires
        o < 8,
        j < 8,
    ensures
        ((x | (1u8 << o)) >> j) & 1u8 != 0 <==> (j == o || (x >> j) & 1u8 != 0),
{
}

proof fn lemma_and_not_u8(x: u8, o: u8, j: u8)
    by (bit_vector)
    requires
        o < 8,
        j < 8,
    ensures
        ((x & !(1u8 << o)) >> j) & 1u8 != 0 <==> (j != o && (x >> j) & 1u8 != 0),
{
}

proof fn lemma_or_u16(x: u16, o: u16, j: u16)
    by (bit_vector)
    requires
        o < 16,
        j < 16,
    ensures
        ((x | (1u16 << o)) >> j) & 1u16 != 0 <==> (j == o || (x >> j) & 1u16 != 0),
{
}

proof fn lemma_and_not_u16(x: u16, o: u16, j: u16)
    by (bit_vector)
    requires
        o < 16,
        j < 16,
    ensures
        ((x & !(1u16 << o)) >> j) & 1u16 != 0 <==> (j != o && (x >> j) & 1u16 != 0),
{
}

proof fn lemma_or_u32(x: u32, o: u32, j: u32)
    by (bit_vector)
    requires
        o < 32,
        j < 32,
    ensures
        ((x | (1u32 << o)) >> j) & 1u32 != 0 <==> (j == o || (x >> j) & 1u32 != 0),
{
}

proof fn lemma_and_not_u32(x: u32, o: u32, j: u32)
    by (bit_vector)
    requires
        o < 32,
        j < 32,
    ensures
        ((x & !(1u32 << o)) >> j) & 1u32 != 0 <==> (j != o && (x >> j) & 1u32 != 0),
{
}

/// Bit 0 of a word is its lowest bit.
pub proof fn lemma_bit0_u8(x: u8)
    by (bit_vector)
    ensures
        (x & 1u8 != 0) == ((x >> 0u8) & 1u8 != 0),
{
}

/// Bit 0 of a word is its lowest bit.
pub proof fn lemma_bit0_u16(x: u16)
    by (bit_vector)
    ensures
        (x & 1u16 != 0) == ((x >> 0u16) & 1u16 != 0),
{
}

/// Bit 0 of a word is its lowest bit.
pub proof fn lemma_bit0_u32(x: u32)
    by (bit_vector)
    ensures
        (x & 1u32 != 0) == ((x >> 0u32) & 1u32 != 0),
{
}

impl RawReg for u8 {
    open spec fn spec_width() -> nat {
        8
    }

    open spec fn spec_bit(self, i: nat) -> bool {
        (self >> (i as u8)) & 1u8 != 0
    }

    fn with_bit(self, o: u8, value: bool) -> (r: u8) {
        let mask: u8 = 1u8 << o;
        let r: u8 = if value {
            self | mask
        } else {
            self & !mask
        };
        proof {
            assert forall|i: nat| i < 8 implies #[trigger] r.spec_bit(i) == if i == o as nat {
                value
            } else {
                self.spec_bit(i)
            } by {
                lemma_or_u8(self, o, i as u8);
                lemma_and_not_u8(self, o, i as u8);
            }
        }
        r
    }
}

impl RawReg for u16 {
    open spec fn spec_width() -> nat {
        16
    }

    open spec fn spec_bit(self, i: nat) -> bool {
        (self >> (i as u16)) & 1u16 != 0
    }

    fn with_bit(self, o: u8, value: bool) -> (r: u16) {
        let mask: u16 = 1u16 << (o as u16);
        let r: u16 = if value {
            self | mask
        } else {
            self & !mask
        };
        proof {
            assert forall|i: nat| i < 16 implies #[trigger] r.spec_bit(i) == if i == o as nat {
                value
            } else {
                self.spec_bit(i)
            } by {
                lemma_or_u16(self, o as u16, i as u16);
                lemma_and_not_u16(self, o as u16, i as u16);
            }
        }
        r
    }
}

impl RawReg for u32 {
    open spec fn spec_width() -> nat {
        32
    }

    open spec fn spec_bit(self, i: nat) -> bool {
        (self >> (i as u32)) & 1u32 != 0
    }

    fn with_bit(self, o: u8, value: bool) -> (r: u32) {
        let mask: u32 = 1u32 << (o as u32);
        let r: u32 = if value {
            self | mask
        } else {
            self & !mask
        };
        proof {
            assert forall|i: nat| i < 32 implies #[trigger] r.spec_bit(i) == if i == o as nat {
                value
            } else {
                self.spec_bit(i)
            } by {
                lemma_or_u32(self, o as u32, i as u32);
                lemma_and_not_u32(self, o as u32, i as u32);
            }
        }
        r
    }
}

/// Describes one register: the width of its raw word and its value on reset.
pub trait RegisterSpec {
    type Ux: RawReg;

    spec fn spec_reset_value() -> Self::Ux;

    fn reset_value() -> (r: Self::Ux)
        ensures
            r == Self::spec_reset_value(),
    ;
}

/// A value read from a register.
pub struct R<REG: RegisterSpec> {
    pub bits: REG::Ux,
    pub reg: PhantomData<REG>,
}

impl<REG: RegisterSpec> R<REG> {
    /// Wraps a raw value read from the register.
    pub fn from_bits(bits: REG::Ux) -> (r: Self)
        ensures
            r.bits == bits,
    {
        R { bits, reg: PhantomData }
    }

    /// The raw value.
    pub fn bits(&self) -> (r: REG::Ux)
        ensures
            r == self.bits,
    {
        self.bits
    }
}

/// A value being assembled to be written to a register.
pub struct W<REG: RegisterSpec> {
    pub bits: REG::Ux,
    pub reg: PhantomData<REG>,
}

impl<REG: RegisterSpec> W<REG> {
    /// A writer that starts from the register's reset value.
    pub fn reset() -> (w: Self)
        ensures
            w.bits == REG::spec_reset_value(),
    {
        W { bits: REG::reset_value(), reg: PhantomData }
    }

    /// A writer that starts from a value read earlier (read-modify-write).
    pub fn from_bits(bits: REG::Ux) -> (w: Self)
        ensures
            w.bits == bits,
    {
        W { bits, reg: PhantomData }
    }

    /// The raw value assembled so far.
    pub fn bits(&self) -> (r: REG::Ux)
        ensures
            r == self.bits,
    {
        self.bits
    }
}

/// A value that a single-bit field can hold.
pub trait FieldValue: Copy {
    /// The bit that stands for this value.
    spec fn spec_bit(self) -> bool;

    fn to_bit(self) -> (r: bool)
        ensures
            r == self.spec_bit(),
    ;
}

impl FieldValue for bool {
    open spec fn spec_bit(self) -> bool {
        self
    }

    fn to_bit(self) -> (r: bool) {
        self
    }
}

/// The value of a single-bit field, read from a register.
pub struct BitReader<FI = bool> {
    pub bits: bool,
    pub field: PhantomData<FI>,
}

impl<FI> BitReader<FI> {
    pub fn new(bits: bool) -> (r: Self)
        ensures
            r.bits == bits,
    {
        BitReader { bits, field: PhantomData }
    }

    /// The field's bit.
    pub fn bit(&self) -> (r: bool)
        ensures
            r == self.bits,
    {
        self.bits
    }

    pub fn bit_is_set(&self) -> (r: bool)
        ensures
            r == self.bits,
    {
        self.bits
    }

    pub fn bit_is_clear(&self) -> (r: bool)
        ensures
            r == !self.bits,
    {
        !self.bits
    }
}

/// Writer of a single-bit field at offset `o` of the register writer `w`.
pub struct BitWriter<'a, REG: RegisterSpec, FI = bool> {
    pub w: &'a mut W<REG>,
    pub o: u8,
    pub field: PhantomData<FI>,
}

impl<'a, REG: RegisterSpec, FI: FieldValue> BitWriter<'a, REG, FI> {
    /// A writer of the bit at offset `o` of `w`.
    pub fn new(w: &'a mut W<REG>, o: u8) -> (r: Self)
        ensures
            *r.w == *old(w),
            r.o == o,
            *final(w) == *final(r.w),
    {
        BitWriter { w, o, field: PhantomData }
    }

    /// Sets the field to `value`; every other bit of the register is kept.
    pub fn bit(self, value: bool) -> (r: &'a mut W<REG>)
        requires
            (self.o as nat) < REG::Ux::spec_width(),
        ensures
            bit_written(old(self.w).bits, r.bits, self.o as nat, value),
            *final(self.w) == *final(r),
    {
        self.w.bits = self.w.bits.with_bit(self.o, value);
        self.w
    }

    /// Sets the field to 1.
    pub fn set_bit(self) -> (r: &'a mut W<REG>)
        requires
            (self.o as nat) < REG::Ux::spec_width(),
        ensures
            bit_written(old(self.w).bits, r.bits, self.o as nat, true),
            *final(self.w) == *final(r),
    {
        self.bit(true)
    }

    /// Sets the field to 0.
    pub fn clear_bit(self) -> (r: &'a mut W<REG>)
        requires
            (self.o as nat) < REG::Ux::spec_width(),
        ensures
            bit_written(old(self.w).bits, r.bits, self.o as nat, false),
            *final(self.w) == *final(r),
    {
        self.bit(false)
    }

    /// Sets the field to the bit that stands for `variant`.
    pub fn variant(self, variant: FI) -> (r: &'a mut W<REG>)
        requires
            (self.o as nat) < REG::Ux::spec_width(),
        ensures
            bit_written(old(self.w).bits, r.bits, self.o as nat, variant.spec_bit()),
            *final(self.w) == *final(r),
    {
        let b = variant.to_bit();
        self.bit(b)
    }
}

} // verus!
