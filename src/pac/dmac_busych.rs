//! DMAC `BUSYCH`: which DMA channels are busy (SAM D11C).
use crate::pac::generic::{BitReader, RawReg, RegisterSpec};
use crate::pac::generic::lemma_bit0_u32;
use vstd::prelude::*;

verus! {

/// Value read from `BUSYCH`.
pub type R = crate::pac::generic::R<BusychSpec>;

/// Field `BUSYCH0` reader - Busy Channel 0
pub type Busych0R = BitReader;

/// Field `BUSYCH1` reader - Busy Channel 1
pub type Busych1R = BitReader;

/// Field `BUSYCH2` reader - Busy Channel 2
pub type Busych2R = BitReader;

/// Field `BUSYCH3` reader - Busy Channel 3
pub type Busych3R = BitReader;

/// Field `BUSYCH4` reader - Busy Channel 4
pub type Busych4R = BitReader;

/// Field `BUSYCH5` reader - Busy Channel 5
pub type Busych5R = BitReader;

impl R {
    /// Bit 0 - Busy Channel 0
    pub fn busych0(&self) -> (r: Busych0R)
        ensures
            r.bits == self.bits.spec_bit(0),
    {
        proof {
            lemma_bit0_u32(self.bits);
        }
        Busych0R::new((self.bits & 1) != 0)
    }

    /// Bit 1 - Busy Channel 1
    pub fn busych1(&self) -> (r: Busych1R)
        ensures
            r.bits == self.bits.spec_bit(1),
    {
        Busych1R::new(((self.bits >> 1) & 1) != 0)
    }

    /// Bit 2 - Busy Channel 2
    pub fn busych2(&self) -> (r: Busych2R)
        ensures
            r.bits == self.bits.spec_bit(2),
    {
        Busych2R::new(((self.bits >> 2) & 1) != 0)
    }

    /// Bit 3 - Busy Channel 3
    pub fn busych3(&self) -> (r: Busych3R)
        ensures
            r.bits == self.bits.spec_bit(3),
    {
        Busych3R::new(((self.bits >> 3) & 1) != 0)
    }

    /// Bit 4 - Busy Channel 4
    pub fn busych4(&self) -> (r: Busych4R)
        ensures
            r.bits == self.bits.spec_bit(4),
    {
        Busych4R::new(((self.bits >> 4) & 1) != 0)
    }

    /// Bit 5 - Busy Channel 5
    pub fn busych5(&self) -> (r: Busych5R)
        ensures
            r.bits == self.bits.spec_bit(5),
    {
        Busych5R::new(((self.bits >> 5) & 1) != 0)
    }
}

/// Busy Channels
pub struct BusychSpec;

impl RegisterSpec for BusychSpec {
    type Ux = u32;

    open spec fn spec_reset_value() -> u32 {
        0
    }

    /// `BUSYCH` is 0 after reset.
    fn reset_value() -> (r: u32) {
        0
    }
}

} // verus!
