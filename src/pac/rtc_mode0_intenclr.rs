//! RTC mode 0 `INTENCLR`: interrupt enable clear (SAM E54N).
use crate::pac::generic::{BitReader, BitWriter, RawReg, RegisterSpec};
use crate::pac::generic::lemma_bit0_u16;
use vstd::prelude::*;

verus! {

/// Value read from `INTENCLR`.
pub type R = crate::pac::generic::R<IntenclrSpec>;

/// Value to be written to `INTENCLR`.
pub type W = crate::pac::generic::W<IntenclrSpec>;

/// Field `PER0` reader - Periodic Interval 0 Interrupt Enable
pub type Per0R = BitReader;

/// Field `PER1` reader - Periodic Interval 1 Interrupt Enable
pub type Per1R = BitReader;

/// Field `PER2` reader - Periodic Interval 2 Interrupt Enable
pub type Per2R = BitReader;

/// Field `PER3` reader - Periodic Interval 3 Interrupt Enable
pub type Per3R = BitReader;

/// Field `PER4` reader - Periodic Interval 4 Interrupt Enable
pub type Per4R = BitReader;

/// Field `PER5` reader - Periodic Interval 5 Interrupt Enable
pub type Per5R = BitReader;

/// Field `PER6` reader - Periodic Interval 6 Interrupt Enable
pub type Per6R = BitReader;

/// Field `PER7` reader - Periodic Interval 7 Interrupt Enable
pub type Per7R = BitReader;

/// Field `CMP0` reader - Compare 0 Interrupt Enable
pub type Cmp0R = BitReader;

/// Field `CMP1` reader - Compare 1 Interrupt Enable
pub type Cmp1R = BitReader;

/// Field `TAMPER` reader - Tamper Enable
pub type TamperR = BitReader;

/// Field `OVF` reader - Overflow Interrupt Enable
pub type OvfR = BitReader;

/// Field `PER0` writer - Periodic Interval 0 Interrupt Enable
pub type Per0W<'a, REG> = BitWriter<'a, REG>;

/// Field `PER1` writer - Periodic Interval 1 Interrupt Enable
pub type Per1W<'a, REG> = BitWriter<'a, REG>;

/// Field `PER2` writer - Periodic Interval 2 Interrupt Enable
pub type Per2W<'a, REG> = BitWriter<'a, REG>;

/// Field `PER3` writer - Periodic Interval 3 Interrupt Enable
pub type Per3W<'a, REG> = BitWriter<'a, REG>;

/// Field `PER4` writer - Periodic Interval 4 Interrupt Enable
pub type Per4W<'a, REG> = BitWriter<'a, REG>;

/// Field `PER5` writer - Periodic Interval 5 Interrupt Enable
pub type Per5W<'a, REG> = BitWriter<'a, REG>;

/// Field `PER6` writer - Periodic Interval 6 Interrupt Enable
pub type Per6W<'a, REG> = BitWriter<'a, REG>;

/// Field `PER7` writer - Periodic Interval 7 Interrupt Enable
pub type Per7W<'a, REG> = BitWriter<'a, REG>;

/// Field `CMP0` writer - Compare 0 Interrupt Enable
pub type Cmp0W<'a, REG> = BitWriter<'a, REG>;

/// Field `CMP1` writer - Compare 1 Interrupt Enable
pub type Cmp1W<'a, REG> = BitWriter<'a, REG>;

/// Field `TAMPER` writer - Tamper Enable
pub type TamperW<'a, REG> = BitWriter<'a, REG>;

/// Field `OVF` writer - Overflow Interrupt Enable
pub type OvfW<'a, REG> = BitWriter<'a, REG>;

impl R {
    /// Bit 0 - Periodic Interval 0 Interrupt Enable
    pub fn per0(&self) -> (r: Per0R)
        ensures
            r.bits == self.bits.spec_bit(0),
    {
        proof {
            lemma_bit0_u16(self.bits);
        }
        Per0R::new((self.bits & 1) != 0)
    }

    /// Bit 1 - Periodic Interval 1 Interrupt Enable
    pub fn per1(&self) -> (r: Per1R)
        ensures
            r.bits == self.bits.spec_bit(1),
    {
        Per1R::new(((self.bits >> 1) & 1) != 0)
    }

    /// Bit 2 - Periodic Interval 2 Interrupt Enable
    pub fn per2(&self) -> (r: Per2R)
        ensures
            r.bits == self.bits.spec_bit(2),
    {
        Per2R::new(((self.bits >> 2) & 1) != 0)
    }

    /// Bit 3 - Periodic Interval 3 Interrupt Enable
    pub fn per3(&self) -> (r: Per3R)
        ensures
            r.bits == self.bits.spec_bit(3),
    {
        Per3R::new(((self.bits >> 3) & 1) != 0)
    }

    /// Bit 4 - Periodic Interval 4 Interrupt Enable
    pub fn per4(&self) -> (r: Per4R)
        ensures
            r.bits == self.bits.spec_bit(4),
    {
        Per4R::new(((self.bits >> 4) & 1) != 0)
    }

    /// Bit 5 - Periodic Interval 5 Interrupt Enable
    pub fn per5(&self) -> (r: Per5R)
        ensures
            r.bits == self.bits.spec_bit(5),
    {
        Per5R::new(((self.bits >> 5) & 1) != 0)
    }

    /// Bit 6 - Periodic Interval 6 Interrupt Enable
    pub fn per6(&self) -> (r: Per6R)
        ensures
            r.bits == self.bits.spec_bit(6),
    {
        Per6R::new(((self.bits >> 6) & 1) != 0)
    }

    /// Bit 7 - Periodic Interval 7 Interrupt Enable
    pub fn per7(&self) -> (r: Per7R)
        ensures
            r.bits == self.bits.spec_bit(7),
    {
        Per7R::new(((self.bits >> 7) & 1) != 0)
    }

    /// Bit 8 - Compare 0 Interrupt Enable
    pub fn cmp0(&self) -> (r: Cmp0R)
        ensures
            r.bits == self.bits.spec_bit(8),
    {
        Cmp0R::new(((self.bits >> 8) & 1) != 0)
    }

    /// Bit 9 - Compare 1 Interrupt Enable
    pub fn cmp1(&self) -> (r: Cmp1R)
        ensures
            r.bits == self.bits.spec_bit(9),
    {
        Cmp1R::new(((self.bits >> 9) & 1) != 0)
    }

    /// Bit 14 - Tamper Enable
    pub fn tamper(&self) -> (r: TamperR)
        ensures
            r.bits == self.bits.spec_bit(14),
    {
        TamperR::new(((self.bits >> 14) & 1) != 0)
    }

    /// Bit 15 - Overflow Interrupt Enable
    pub fn ovf(&self) -> (r: OvfR)
        ensures
            r.bits == self.bits.spec_bit(15),
    {
        OvfR::new(((self.bits >> 15) & 1) != 0)
    }
}

impl W {
    /// Bit 0 - Periodic Interval 0 Interrupt Enable
    pub fn per0(&mut self) -> (r: Per0W<'_, IntenclrSpec>)
        ensures
            *r.w == *old(self),
            r.o == 0,
            *final(self) == *final(r.w),
    {
        Per0W::new(self, 0)
    }

    /// Bit 1 - Periodic Interval 1 Interrupt Enable
    pub fn per1(&mut self) -> (r: Per1W<'_, IntenclrSpec>)
        ensures
            *r.w == *old(self),
            r.o == 1,
            *final(self) == *final(r.w),
    {
        Per1W::new(self, 1)
    }

    /// Bit 2 - Periodic Interval 2 Interrupt Enable
    pub fn per2(&mut self) -> (r: Per2W<'_, IntenclrSpec>)
        ensures
            *r.w == *old(self),
            r.o == 2,
            *final(self) == *final(r.w),
    {
        Per2W::new(self, 2)
    }

    /// Bit 3 - Periodic Interval 3 Interrupt Enable
    pub fn per3(&mut self) -> (r: Per3W<'_, IntenclrSpec>)
        ensures
            *r.w == *old(self),
            r.o == 3,
            *final(self) == *final(r.w),
    {
        Per3W::new(self, 3)
    }

    /// Bit 4 - Periodic Interval 4 Interrupt Enable
    pub fn per4(&mut self) -> (r: Per4W<'_, IntenclrSpec>)
        ensures
            *r.w == *old(self),
            r.o == 4,
            *final(self) == *final(r.w),
    {
        Per4W::new(self, 4)
    }

    /// Bit 5 - Periodic Interval 5 Interrupt Enable
    pub fn per5(&mut self) -> (r: Per5W<'_, IntenclrSpec>)
        ensures
            *r.w == *old(self),
            r.o == 5,
            *final(self) == *final(r.w),
    {
        Per5W::new(self, 5)
    }

    /// Bit 6 - Periodic Interval 6 Interrupt Enable
    pub fn per6(&mut self) -> (r: Per6W<'_, IntenclrSpec>)
        ensures
            *r.w == *old(self),
            r.o == 6,
            *final(self) == *final(r.w),
    {
        Per6W::new(self, 6)
    }

    /// Bit 7 - Periodic Interval 7 Interrupt Enable
    pub fn per7(&mut self) -> (r: Per7W<'_, IntenclrSpec>)
        ensures
            *r.w == *old(self),
            r.o == 7,
            *final(self) == *final(r.w),
    {
        Per7W::new(self, 7)
    }

    /// Bit 8 - Compare 0 Interrupt Enable
    pub fn cmp0(&mut self) -> (r: Cmp0W<'_, IntenclrSpec>)
        ensures
            *r.w == *old(self),
            r.o == 8,
            *final(self) == *final(r.w),
    {
        Cmp0W::new(self, 8)
    }

    /// Bit 9 - Compare 1 Interrupt Enable
    pub fn cmp1(&mut self) -> (r: Cmp1W<'_, IntenclrSpec>)
        ensures
            *r.w == *old(self),
            r.o == 9,
            *final(self) == *final(r.w),
    {
        Cmp1W::new(self, 9)
    }

    /// Bit 14 - Tamper Enable
    pub fn tamper(&mut self) -> (r: TamperW<'_, IntenclrSpec>)
        ensures
            *r.w == *old(self),
            r.o == 14,
            *final(self) == *final(r.w),
    {
        TamperW::new(self, 14)
    }

    /// Bit 15 - Overflow Interrupt Enable
    pub fn ovf(&mut self) -> (r: OvfW<'_, IntenclrSpec>)
        ensures
            *r.w == *old(self),
            r.o == 15,
            *final(self) == *final(r.w),
    {
        OvfW::new(self, 15)
    }
}

/// MODE0 Interrupt Enable Clear
pub struct IntenclrSpec;

impl RegisterSpec for IntenclrSpec {
    type Ux = u16;

    open spec fn spec_reset_value() -> u16 {
        0
    }

    /// `INTENCLR` is 0 after reset.
    fn reset_value() -> (r: u16) {
        0
    }
}

} // verus!
