//! SERCOM USART `INTFLAG`: interrupt flag status and clear (SAM D11D).
use crate::pac::generic::{BitReader, BitWriter, RawReg, RegisterSpec};
use crate::pac::generic::lemma_bit0_u8;
use vstd::prelude::*;

verus! {

/// Value read from `INTFLAG`.
pub type R = crate::pac::generic::R<IntflagSpec>;

/// Value to be written to `INTFLAG`.
pub type W = crate::pac::generic::W<IntflagSpec>;

/// Field `DRE` reader - Data Register Empty Interrupt
pub type DreR = BitReader;

/// Field `TXC` reader - Transmit Complete Interrupt
pub type TxcR = BitReader;

/// Field `RXC` reader - Receive Complete Interrupt
pub type RxcR = BitReader;

/// Field `CTSIC` reader - Clear To Send Input Change Interrupt
pub type CtsicR = BitReader;

/// Field `RXBRK` reader - Break Received Interrupt
pub type RxbrkR = BitReader;

/// Field `ERROR` reader - Combined Error Interrupt
pub type ErrorR = BitReader;

/// Field `TXC` writer - Transmit Complete Interrupt
pub type TxcW<'a, REG> = BitWriter<'a, REG>;

/// Field `RXS` writer - Receive Start Interrupt
pub type RxsW<'a, REG> = BitWriter<'a, REG>;

/// Field `CTSIC` writer - Clear To Send Input Change Interrupt
pub type CtsicW<'a, REG> = BitWriter<'a, REG>;

/// Field `RXBRK` writer - Break Received Interrupt
pub type RxbrkW<'a, REG> = BitWriter<'a, REG>;

/// Field `ERROR` writer - Combined Error Interrupt
pub type ErrorW<'a, REG> = BitWriter<'a, REG>;

impl R {
    /// Bit 0 - Data Register Empty Interrupt
    pub fn dre(&self) -> (r: DreR)
        ensures
            r.bits == self.bits.spec_bit(0),
    {
        proof {
            lemma_bit0_u8(self.bits);
        }
        DreR::new((self.bits & 1) != 0)
    }

    /// Bit 1 - Transmit Complete Interrupt
    pub fn txc(&self) -> (r: TxcR)
        ensures
            r.bits == self.bits.spec_bit(1),
    {
        TxcR::new(((self.bits >> 1) & 1) != 0)
    }

    /// Bit 2 - Receive Complete Interrupt
    pub fn rxc(&self) -> (r: RxcR)
        ensures
            r.bits == self.bits.spec_bit(2),
    {
        RxcR::new(((self.bits >> 2) & 1) != 0)
    }

    /// Bit 4 - Clear To Send Input Change Interrupt
    pub fn ctsic(&self) -> (r: CtsicR)
        ensures
            r.bits == self.bits.spec_bit(4),
    {
        CtsicR::new(((self.bits >> 4) & 1) != 0)
    }

    /// Bit 5 - Break Received Interrupt
    pub fn rxbrk(&self) -> (r: RxbrkR)
        ensures
            r.bits == self.bits.spec_bit(5),
    {
        RxbrkR::new(((self.bits >> 5) & 1) != 0)
    }

    /// Bit 7 - Combined Error Interrupt
    pub fn error(&self) -> (r: ErrorR)
        ensures
            r.bits == self.bits.spec_bit(7),
    {
        ErrorR::new(((self.bits >> 7) & 1) != 0)
    }
}

impl W {
    /// Bit 1 - Transmit Complete Interrupt
    pub fn txc(&mut self) -> (r: TxcW<'_, IntflagSpec>)
        ensures
            *r.w == *old(self),
            r.o == 1,
            *final(self) == *final(r.w),
    {
        TxcW::new(self, 1)
    }

    /// Bit 3 - Receive Start Interrupt
    pub fn rxs(&mut self) -> (r: RxsW<'_, IntflagSpec>)
        ensures
            *r.w == *old(self),
            r.o == 3,
            *final(self) == *final(r.w),
    {
        RxsW::new(self, 3)
    }

    /// Bit 4 - Clear To Send Input Change Interrupt
    pub fn ctsic(&mut self) -> (r: CtsicW<'_, IntflagSpec>)
        ensures
            *r.w == *old(self),
            r.o == 4,
            *final(self) == *final(r.w),
    {
        CtsicW::new(self, 4)
    }

    /// Bit 5 - Break Received Interrupt
    pub fn rxbrk(&mut self) -> (r: RxbrkW<'_, IntflagSpec>)
        ensures
            *r.w == *old(self),
            r.o == 5,
            *final(self) == *final(r.w),
    {
        RxbrkW::new(self, 5)
    }

    /// Bit 7 - Combined Error Interrupt
    pub fn error(&mut self) -> (r: ErrorW<'_, IntflagSpec>)
        ensures
            *r.w == *old(self),
            r.o == 7,
            *final(self) == *final(r.w),
    {
        ErrorW::new(self, 7)
    }
}

/// USART Interrupt Flag Status and Clear
pub struct IntflagSpec;

impl RegisterSpec for IntflagSpec {
    type Ux = u8;

    open spec fn spec_reset_value() -> u8 {
        0
    }

    /// `INTFLAG` is 0 after reset.
    fn reset_value() -> (r: u8) {
        0
    }
}

} // verus!
