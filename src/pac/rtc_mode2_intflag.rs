//! RTC mode 2 `INTFLAG`: interrupt flag status and clear (SAM E51G).
use crate::pac::generic::{BitReader, BitWriter, RawReg, RegisterSpec};
use crate::pac::generic::lemma_bit0_u16;
use vstd::prelude::*;

verus! {

/// Value read from `INTFLAG`.
pub type R = crate::pac::generic::R<IntflagSpec>;

/// Value to be written to `INTFLAG`.
pub type W = crate::pac::generic::W<IntflagSpec>;

/// Field `PER0` reader - Periodic Interval 0
pub type Per0R = BitReader;

/// Field `PER1` reader - Periodic Interval 1
pub type Per1R = BitReader;

/// Field `PER2` reader - Periodic Interval 2
pub type Per2R = BitReader;

/// Field `PER3` reader - Periodic Interval 3
pub type Per3R = BitReader;

/// Field `PER4` reader - Periodic Interval 4
pub type Per4R = BitReader;

/// Field `PER5` reader - Periodic Interval 5
pub type Per5R = BitReader;

/// Field `PER6` reader - Periodic Interval 6
pub type Per6R = BitReader;

/// Field `PER7` reader - Periodic Interval 7
pub type Per7R = BitReader;

/// Field `ALARM0` reader - Alarm 0
pub type Alarm0R = BitReader;

/// Field `ALARM1` reader - Alarm 1
pub type Alarm1R = BitReader;

/// Field `TAMPER` reader - Tamper
pub type TamperR = BitReader;

/// Field `OVF` reader - Overflow
pub type OvfR = BitReader;

/// Field `PER0` writer - Periodic Interval 0
pub type Per0W<'a, REG> = BitWriter<'a, REG>;

/// Field `PER1` writer - Periodic Interval 1
pub type Per1W<'a, REG> = BitWriter<'a, REG>;

/// Field `PER2` writer - Periodic Interval 2
pub type Per2W<'a, REG> = BitWriter<'a, REG>;

/// Field `PER3` writer - Periodic Interval 3
pub type Per3W<'a, REG> = BitWriter<'a, REG>;

/// Field `PER4` writer - Periodic Interval 4
pub type Per4W<'a, REG> = BitWriter<'a, REG>;

/// Field `PER5` writer - Periodic Interval 5
pub type Per5W<'a, REG> = BitWriter<'a, REG>;

/// Field `PER6` writer - Periodic Interval 6
pub type Per6W<'a, REG> = BitWriter<'a, REG>;

/// Field `PER7` writer - Periodic Interval 7
pub type Per7W<'a, REG> = BitWriter<'a, REG>;

/// Field `ALARM0` writer - Alarm 0
pub type Alarm0W<'a, REG> = BitWriter<'a, REG>;

/// Field `ALARM1` writer - Alarm 1
pub type Alarm1W<'a, REG> = BitWriter<'a, REG>;

/// Field `TAMPER` writer - Tamper
pub type TamperW<'a, REG> = BitWriter<'a, REG>;

/// Field `OVF` writer - Overflow
pub type OvfW<'a, REG> = BitWriter<'a, REG>;

impl R {
    /// Bit 0 - Periodic Interval 0
    pub fn per0(&self) -> (r: Per0R)
        ensures
            r.bits == self.bits.spec_bit(0),
    {
        proof {
            lemma_bit0_u16(self.bits);
        }
        Per0R::new((self.bits & 1) != 0)
    }

    /// Bit 1 - Periodic Interval 1
    pub fn per1(&self) -> (r: Per1R)
        ensures
            r.bits == self.bits.spec_bit(1),
    {
        Per1R::new(((self.bits >> 1) & 1) != 0)
    }

    /// Bit 2 - Periodic Interval 2
    pub fn per2(&self) -> (r: Per2R)
        ensures
            r.bits == self.bits.spec_bit(2),
    {
        Per2R::new(((self.bits >> 2) & 1) != 0)
    }

    /// Bit 3 - Periodic Interval 3
    pub fn per3(&self) -> (r: Per3R)
        ensures
            r.bits == self.bits.spec_bit(3),
    {
        Per3R::new(((self.bits >> 3) & 1) != 0)
    }

    /// Bit 4 - Periodic Interval 4
    pub fn per4(&self) -> (r: Per4R)
        ensures
            r.bits == self.bits.spec_bit(4),
    {
        Per4R::new(((self.bits >> 4) & 1) != 0)
    }

    /// Bit 5 - Periodic Interval 5
    pub fn per5(&self) -> (r: Per5R)
        ensures
            r.bits == self.bits.spec_bit(5),
    {
        Per5R::new(((self.bits >> 5) & 1) != 0)
    }

    /// Bit 6 - Periodic Interval 6
    pub fn per6(&self) -> (r: Per6R)
        ensures
            r.bits == self.bits.spec_bit(6),
    {
        Per6R::new(((self.bits >> 6) & 1) != 0)
    }

    /// Bit 7 - Periodic Interval 7
    pub fn per7(&self) -> (r: Per7R)
        ensures
            r.bits == self.bits.spec_bit(7),
    {
        Per7R::new(((self.bits >> 7) & 1) != 0)
    }

    /// Bit 8 - Alarm 0
    pub fn alarm0(&self) -> (r: Alarm0R)
        ensures
            r.bits == self.bits.spec_bit(8),
    {
        Alarm0R::new(((self.bits >> 8) & 1) != 0)
    }

    /// Bit 9 - Alarm 1
    pub fn alarm1(&self) -> (r: Alarm1R)
        ensures
            r.bits == self.bits.spec_bit(9),
    {
        Alarm1R::new(((self.bits >> 9) & 1) != 0)
    }

    /// Bit 14 - Tamper
    pub fn tamper(&self) -> (r: TamperR)
        ensures
            r.bits == self.bits.spec_bit(14),
    {
        TamperR::new(((self.bits >> 14) & 1) != 0)
    }

    /// Bit 15 - Overflow
    pub fn ovf(&self) -> (r: OvfR)
        ensures
            r.bits == self.bits.spec_bit(15),
    {
        OvfR::new(((self.bits >> 15) & 1) != 0)
    }
}

impl W {
    /// Bit 0 - Periodic Interval 0
    pub fn per0(&mut self) -> (r: Per0W<'_, IntflagSpec>)
        ensures
            *r.w == *old(self),
            r.o == 0,
            *final(self) == *final(r.w),
    {
        Per0W::new(self, 0)
    }

    /// Bit 1 - Periodic Interval 1
    pub fn per1(&mut self) -> (r: Per1W<'_, IntflagSpec>)
        ensures
            *r.w == *old(self),
            r.o == 1,
            *final(self) == *final(r.w),
    {
        Per1W::new(self, 1)
    }

    /// Bit 2 - Periodic Interval 2
    pub fn per2(&mut self) -> (r: Per2W<'_, IntflagSpec>)
        ensures
            *r.w == *old(self),
            r.o == 2,
            *final(self) == *final(r.w),
    {
        Per2W::new(self, 2)
    }

    /// Bit 3 - Periodic Interval 3
    pub fn per3(&mut self) -> (r: Per3W<'_, IntflagSpec>)
        ensures
            *r.w == *old(self),
            r.o == 3,
            *final(self) == *final(r.w),
    {
        Per3W::new(self, 3)
    }

    /// Bit 4 - Periodic Interval 4
    pub fn per4(&mut self) -> (r: Per4W<'_, IntflagSpec>)
        ensures
            *r.w == *old(self),
            r.o == 4,
            *final(self) == *final(r.w),
    {
        Per4W::new(self, 4)
    }

    /// Bit 5 - Periodic Interval 5
    pub fn per5(&mut self) -> (r: Per5W<'_, IntflagSpec>)
        ensures
            *r.w == *old(self),
            r.o == 5,
            *final(self) == *final(r.w),
    {
        Per5W::new(self, 5)
    }

    /// Bit 6 - Periodic Interval 6
    pub fn per6(&mut self) -> (r: Per6W<'_, IntflagSpec>)
        ensures
            *r.w == *old(self),
            r.o == 6,
            *final(self) == *final(r.w),
    {
        Per6W::new(self, 6)
    }

    /// Bit 7 - Periodic Interval 7
    pub fn per7(&mut self) -> (r: Per7W<'_, IntflagSpec>)
        ensures
            *r.w == *old(self),
            r.o == 7,
            *final(self) == *final(r.w),
    {
        Per7W::new(self, 7)
    }

    /// Bit 8 - Alarm 0
    pub fn alarm0(&mut self) -> (r: Alarm0W<'_, IntflagSpec>)
        ensures
            *r.w == *old(self),
            r.o == 8,
            *final(self) == *final(r.w),
    {
        Alarm0W::new(self, 8)
    }

    /// Bit 9 - Alarm 1
    pub fn alarm1(&mut self) -> (r: Alarm1W<'_, IntflagSpec>)
        ensures
            *r.w == *old(self),
            r.o == 9,
            *final(self) == *final(r.w),
    {
        Alarm1W::new(self, 9)
    }

    /// Bit 14 - Tamper
    pub fn tamper(&mut self) -> (r: TamperW<'_, IntflagSpec>)
        ensures
            *r.w == *old(self),
            r.o == 14,
            *final(self) == *final(r.w),
    {
        TamperW::new(self, 14)
    }

    /// Bit 15 - Overflow
    pub fn ovf(&mut self) -> (r: OvfW<'_, IntflagSpec>)
        ensures
            *r.w == *old(self),
            r.o == 15,
            *final(self) == *final(r.w),
    {
        OvfW::new(self, 15)
    }
}

/// MODE2 Interrupt Flag Status and Clear
pub struct IntflagSpec;

impl RegisterSpec for IntflagSpec {
    type Ux = u16;

    open spec fn spec_reset_value() -> u16 {
        0
    }

    /// `INTFLAG` is 0 after reset.
    fn reset_value() -> (r: u16) {
        0
    }
}

} // verus!
