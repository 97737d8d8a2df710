//! SERCOM I2C slave `SYNCBUSY` (SAM E51N).
use crate::pac::generic::{BitReader, RawReg, RegisterSpec};
use crate::pac::generic::lemma_bit0_u32;
use vstd::prelude::*;

verus! {

/// Value read from `SYNCBUSY`.
pub type R = crate::pac::generic::R<SyncbusySpec>;

/// Field `SWRST` reader - Software Reset Synchronization Busy
pub type SwrstR = BitReader;

/// Field `ENABLE` reader - SERCOM Enable Synchronization Busy
pub type EnableR = BitReader;

/// Field `LENGTH` reader - Length Synchronization Busy
pub type LengthR = BitReader;

impl R {
    /// Bit 0 - Software Reset Synchronization Busy
    pub fn swrst(&self) -> (r: SwrstR)
        ensures
            r.bits == self.bits.spec_bit(0),
    {
        proof {
            lemma_bit0_u32(self.bits);
        }
        SwrstR::new((self.bits & 1) != 0)
    }

    /// Bit 1 - SERCOM Enable Synchronization Busy
    pub fn enable(&self) -> (r: EnableR)
        ensures
            r.bits == self.bits.spec_bit(1),
    {
        EnableR::new(((self.bits >> 1) & 1) != 0)
    }

    /// Bit 4 - Length Synchronization Busy
    pub fn length(&self) -> (r: LengthR)
        ensures
            r.bits == self.bits.spec_bit(4),
    {
        LengthR::new(((self.bits >> 4) & 1) != 0)
    }
}

/// I2CS Synchronization Busy
pub struct SyncbusySpec;

impl RegisterSpec for SyncbusySpec {
    type Ux = u32;

    open spec fn spec_reset_value() -> u32 {
        0
    }

    /// `SYNCBUSY` is 0 after reset.
    fn reset_value() -> (r: u32) {
        0
    }
}

} // verus!
