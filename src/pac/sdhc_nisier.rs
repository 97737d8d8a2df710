//! SDHC `NISIER`: normal interrupt signal enable (SAM E51G).
use crate::pac::generic::{bit_written, BitReader, BitWriter, FieldValue, RawReg, RegisterSpec};
use crate::pac::generic::lemma_bit0_u16;
use vstd::prelude::*;

verus! {

/// Value read from `NISIER`.
pub type R = crate::pac::generic::R<NisierSpec>;

/// Value to be written to `NISIER`.
pub type W = crate::pac::generic::W<NisierSpec>;

/// Command Complete Signal Enable
///
/// Value on reset: 0
#[derive(Clone, Copy, Debug, PartialEq, Eq, Structural)]
pub enum Cmdcselect {
    /// 0: Masked
    Masked,
    /// 1: Enabled
    Enabled,
}

impl FieldValue for Cmdcselect {
    open spec fn spec_bit(self) -> bool {
        self == Cmdcselect::Enabled
    }

    fn to_bit(self) -> (r: bool) {
        match self {
            Cmdcselect::Masked => false,
            Cmdcselect::Enabled => true,
        }
    }
}

impl From<Cmdcselect> for bool {
    fn from(variant: Cmdcselect) -> bool {
        match variant {
            Cmdcselect::Masked => false,
            Cmdcselect::Enabled => true,
        }
    }
}

impl vstd::std_specs::convert::FromSpecImpl<Cmdcselect> for bool {
    open spec fn obeys_from_spec() -> bool {
        true
    }

    open spec fn from_spec(v: Cmdcselect) -> bool {
        v.spec_bit()
    }
}

/// Field `CMDC` reader - Command Complete Signal Enable
pub type CmdcR = BitReader<Cmdcselect>;

impl CmdcR {
    /// Get enumerated values variant
    pub fn variant(&self) -> (r: Cmdcselect)
        ensures
            r == (if self.bits {
                Cmdcselect::Enabled
            } else {
                Cmdcselect::Masked
            }),
    {
        match self.bits {
            false => Cmdcselect::Masked,
            true => Cmdcselect::Enabled,
        }
    }

    /// Masked
    pub fn is_masked(&self) -> (r: bool)
        ensures
            r == !self.bits,
    {
        self.variant() == Cmdcselect::Masked
    }

    /// Enabled
    pub fn is_enabled(&self) -> (r: bool)
        ensures
            r == self.bits,
    {
        self.variant() == Cmdcselect::Enabled
    }
}

/// Field `CMDC` writer - Command Complete Signal Enable
pub type CmdcW<'a, REG> = BitWriter<'a, REG, Cmdcselect>;

impl<'a, REG: RegisterSpec> CmdcW<'a, REG> {
    /// Masked
    pub fn masked(self) -> (r: &'a mut crate::pac::generic::W<REG>)
        requires
            (self.o as nat) < REG::Ux::spec_width(),
        ensures
            bit_written(old(self.w).bits, r.bits, self.o as nat, false),
            *final(self.w) == *final(r),
    {
        self.variant(Cmdcselect::Masked)
    }

    /// Enabled
    pub fn enabled(self) -> (r: &'a mut crate::pac::generic::W<REG>)
        requires
            (self.o as nat) < REG::Ux::spec_width(),
        ensures
            bit_written(old(self.w).bits, r.bits, self.o as nat, true),
            *final(self.w) == *final(r),
    {
        self.variant(Cmdcselect::Enabled)
    }
}

/// Transfer Complete Signal Enable
///
/// Value on reset: 0
#[derive(Clone, Copy, Debug, PartialEq, Eq, Structural)]
pub enum Trfcselect {
    /// 0: Masked
    Masked,
    /// 1: Enabled
    Enabled,
}

impl FieldValue for Trfcselect {
    open spec fn spec_bit(self) -> bool {
        self == Trfcselect::Enabled
    }

    fn to_bit(self) -> (r: bool) {
        match self {
            Trfcselect::Masked => false,
            Trfcselect::Enabled => true,
        }
    }
}

impl From<Trfcselect> for bool {
    fn from(variant: Trfcselect) -> bool {
        match variant {
            Trfcselect::Masked => false,
            Trfcselect::Enabled => true,
        }
    }
}

impl vstd::std_specs::convert::FromSpecImpl<Trfcselect> for bool {
    open spec fn obeys_from_spec() -> bool {
        true
    }

    open spec fn from_spec(v: Trfcselect) -> bool {
        v.spec_bit()
    }
}

/// Field `TRFC` reader - Transfer Complete Signal Enable
pub type TrfcR = BitReader<Trfcselect>;

impl TrfcR {
    /// Get enumerated values variant
    pub fn variant(&self) -> (r: Trfcselect)
        ensures
            r == (if self.bits {
                Trfcselect::Enabled
            } else {
                Trfcselect::Masked
            }),
    {
        match self.bits {
            false => Trfcselect::Masked,
            true => Trfcselect::Enabled,
        }
    }

    /// Masked
    pub fn is_masked(&self) -> (r: bool)
        ensures
            r == !self.bits,
    {
        self.variant() == Trfcselect::Masked
    }

    /// Enabled
    pub fn is_enabled(&self) -> (r: bool)
        ensures
            r == self.bits,
    {
        self.variant() == Trfcselect::Enabled
    }
}

/// Field `TRFC` writer - Transfer Complete Signal Enable
pub type TrfcW<'a, REG> = BitWriter<'a, REG, Trfcselect>;

impl<'a, REG: RegisterSpec> TrfcW<'a, REG> {
    /// Masked
    pub fn masked(self) -> (r: &'a mut crate::pac::generic::W<REG>)
        requires
            (self.o as nat) < REG::Ux::spec_width(),
        ensures
            bit_written(old(self.w).bits, r.bits, self.o as nat, false),
            *final(self.w) == *final(r),
    {
        self.variant(Trfcselect::Masked)
    }

    /// Enabled
    pub fn enabled(self) -> (r: &'a mut crate::pac::generic::W<REG>)
        requires
            (self.o as nat) < REG::Ux::spec_width(),
        ensures
            bit_written(old(self.w).bits, r.bits, self.o as nat, true),
            *final(self.w) == *final(r),
    {
        self.variant(Trfcselect::Enabled)
    }
}

/// Block Gap Event Signal Enable
///
/// Value on reset: 0
#[derive(Clone, Copy, Debug, PartialEq, Eq, Structural)]
pub enum Blkgeselect {
    /// 0: Masked
    Masked,
    /// 1: Enabled
    Enabled,
}

impl FieldValue for Blkgeselect {
    open spec fn spec_bit(self) -> bool {
        self == Blkgeselect::Enabled
    }

    fn to_bit(self) -> (r: bool) {
        match self {
            Blkgeselect::Masked => false,
            Blkgeselect::Enabled => true,
        }
    }
}

impl From<Blkgeselect> for bool {
    fn from(variant: Blkgeselect) -> bool {
        match variant {
            Blkgeselect::Masked => false,
            Blkgeselect::Enabled => true,
        }
    }
}

impl vstd::std_specs::convert::FromSpecImpl<Blkgeselect> for bool {
    open spec fn obeys_from_spec() -> bool {
        true
    }

    open spec fn from_spec(v: Blkgeselect) -> bool {
        v.spec_bit()
    }
}

/// Field `BLKGE` reader - Block Gap Event Signal Enable
pub type BlkgeR = BitReader<Blkgeselect>;

impl BlkgeR {
    /// Get enumerated values variant
    pub fn variant(&self) -> (r: Blkgeselect)
        ensures
            r == (if self.bits {
                Blkgeselect::Enabled
            } else {
                Blkgeselect::Masked
            }),
    {
        match self.bits {
            false => Blkgeselect::Masked,
            true => Blkgeselect::Enabled,
        }
    }

    /// Masked
    pub fn is_masked(&self) -> (r: bool)
        ensures
            r == !self.bits,
    {
        self.variant() == Blkgeselect::Masked
    }

    /// Enabled
    pub fn is_enabled(&self) -> (r: bool)
        ensures
            r == self.bits,
    {
        self.variant() == Blkgeselect::Enabled
    }
}

/// Field `BLKGE` writer - Block Gap Event Signal Enable
pub type BlkgeW<'a, REG> = BitWriter<'a, REG, Blkgeselect>;

impl<'a, REG: RegisterSpec> BlkgeW<'a, REG> {
    /// Masked
    pub fn masked(self) -> (r: &'a mut crate::pac::generic::W<REG>)
        requires
            (self.o as nat) < REG::Ux::spec_width(),
        ensures
            bit_written(old(self.w).bits, r.bits, self.o as nat, false),
            *final(self.w) == *final(r),
    {
        self.variant(Blkgeselect::Masked)
    }

    /// Enabled
    pub fn enabled(self) -> (r: &'a mut crate::pac::generic::W<REG>)
        requires
            (self.o as nat) < REG::Ux::spec_width(),
        ensures
            bit_written(old(self.w).bits, r.bits, self.o as nat, true),
            *final(self.w) == *final(r),
    {
        self.variant(Blkgeselect::Enabled)
    }
}

/// DMA Interrupt Signal Enable
///
/// Value on reset: 0
#[derive(Clone, Copy, Debug, PartialEq, Eq, Structural)]
pub enum Dmaintselect {
    /// 0: Masked
    Masked,
    /// 1: Enabled
    Enabled,
}

impl FieldValue for Dmaintselect {
    open spec fn spec_bit(self) -> bool {
        self == Dmaintselect::Enabled
    }

    fn to_bit(self) -> (r: bool) {
        match self {
            Dmaintselect::Masked => false,
            Dmaintselect::Enabled => true,
        }
    }
}

impl From<Dmaintselect> for bool {
    fn from(variant: Dmaintselect) -> bool {
        match variant {
            Dmaintselect::Masked => false,
            Dmaintselect::Enabled => true,
        }
    }
}

impl vstd::std_specs::convert::FromSpecImpl<Dmaintselect> for bool {
    open spec fn obeys_from_spec() -> bool {
        true
    }

    open spec fn from_spec(v: Dmaintselect) -> bool {
        v.spec_bit()
    }
}

/// Field `DMAINT` reader - DMA Interrupt Signal Enable
pub type DmaintR = BitReader<Dmaintselect>;

impl DmaintR {
    /// Get enumerated values variant
    pub fn variant(&self) -> (r: Dmaintselect)
        ensures
            r == (if self.bits {
                Dmaintselect::Enabled
            } else {
                Dmaintselect::Masked
            }),
    {
        match self.bits {
            false => Dmaintselect::Masked,
            true => Dmaintselect::Enabled,
        }
    }

    /// Masked
    pub fn is_masked(&self) -> (r: bool)
        ensures
            r == !self.bits,
    {
        self.variant() == Dmaintselect::Masked
    }

    /// Enabled
    pub fn is_enabled(&self) -> (r: bool)
        ensures
            r == self.bits,
    {
        self.variant() == Dmaintselect::Enabled
    }
}

/// Field `DMAINT` writer - DMA Interrupt Signal Enable
pub type DmaintW<'a, REG> = BitWriter<'a, REG, Dmaintselect>;

impl<'a, REG: RegisterSpec> DmaintW<'a, REG> {
    /// Masked
    pub fn masked(self) -> (r: &'a mut crate::pac::generic::W<REG>)
        requires
            (self.o as nat) < REG::Ux::spec_width(),
        ensures
            bit_written(old(self.w).bits, r.bits, self.o as nat, false),
            *final(self.w) == *final(r),
    {
        self.variant(Dmaintselect::Masked)
    }

    /// Enabled
    pub fn enabled(self) -> (r: &'a mut crate::pac::generic::W<REG>)
        requires
            (self.o as nat) < REG::Ux::spec_width(),
        ensures
            bit_written(old(self.w).bits, r.bits, self.o as nat, true),
            *final(self.w) == *final(r),
    {
        self.variant(Dmaintselect::Enabled)
    }
}

/// Buffer Write Ready Signal Enable
///
/// Value on reset: 0
#[derive(Clone, Copy, Debug, PartialEq, Eq, Structural)]
pub enum Bwrrdyselect {
    /// 0: Masked
    Masked,
    /// 1: Enabled
    Enabled,
}

impl FieldValue for Bwrrdyselect {
    open spec fn spec_bit(self) -> bool {
        self == Bwrrdyselect::Enabled
    }

    fn to_bit(self) -> (r: bool) {
        match self {
            Bwrrdyselect::Masked => false,
            Bwrrdyselect::Enabled => true,
        }
    }
}

impl From<Bwrrdyselect> for bool {
    fn from(variant: Bwrrdyselect) -> bool {
        match variant {
            Bwrrdyselect::Masked => false,
            Bwrrdyselect::Enabled => true,
        }
    }
}

impl vstd::std_specs::convert::FromSpecImpl<Bwrrdyselect> for bool {
    open spec fn obeys_from_spec() -> bool {
        true
    }

    open spec fn from_spec(v: Bwrrdyselect) -> bool {
        v.spec_bit()
    }
}

/// Field `BWRRDY` reader - Buffer Write Ready Signal Enable
pub type BwrrdyR = BitReader<Bwrrdyselect>;

impl BwrrdyR {
    /// Get enumerated values variant
    pub fn variant(&self) -> (r: Bwrrdyselect)
        ensures
            r == (if self.bits {
                Bwrrdyselect::Enabled
            } else {
                Bwrrdyselect::Masked
            }),
    {
        match self.bits {
            false => Bwrrdyselect::Masked,
            true => Bwrrdyselect::Enabled,
        }
    }

    /// Masked
    pub fn is_masked(&self) -> (r: bool)
        ensures
            r == !self.bits,
    {
        self.variant() == Bwrrdyselect::Masked
    }

    /// Enabled
    pub fn is_enabled(&self) -> (r: bool)
        ensures
            r == self.bits,
    {
        self.variant() == Bwrrdyselect::Enabled
    }
}

/// Field `BWRRDY` writer - Buffer Write Ready Signal Enable
pub type BwrrdyW<'a, REG> = BitWriter<'a, REG, Bwrrdyselect>;

impl<'a, REG: RegisterSpec> BwrrdyW<'a, REG> {
    /// Masked
    pub fn masked(self) -> (r: &'a mut crate::pac::generic::W<REG>)
        requires
            (self.o as nat) < REG::Ux::spec_width(),
        ensures
            bit_written(old(self.w).bits, r.bits, self.o as nat, false),
            *final(self.w) == *final(r),
    {
        self.variant(Bwrrdyselect::Masked)
    }

    /// Enabled
    pub fn enabled(self) -> (r: &'a mut crate::pac::generic::W<REG>)
        requires
            (self.o as nat) < REG::Ux::spec_width(),
        ensures
            bit_written(old(self.w).bits, r.bits, self.o as nat, true),
            *final(self.w) == *final(r),
    {
        self.variant(Bwrrdyselect::Enabled)
    }
}

/// Buffer Read Ready Signal Enable
///
/// Value on reset: 0
#[derive(Clone, Copy, Debug, PartialEq, Eq, Structural)]
pub enum Brdrdyselect {
    /// 0: Masked
    Masked,
    /// 1: Enabled
    Enabled,
}

impl FieldValue for Brdrdyselect {
    open spec fn spec_bit(self) -> bool {
        self == Brdrdyselect::Enabled
    }

    fn to_bit(self) -> (r: bool) {
        match self {
            Brdrdyselect::Masked => false,
            Brdrdyselect::Enabled => true,
        }
    }
}

impl From<Brdrdyselect> for bool {
    fn from(variant: Brdrdyselect) -> bool {
        match variant {
            Brdrdyselect::Masked => false,
            Brdrdyselect::Enabled => true,
        }
    }
}

impl vstd::std_specs::convert::FromSpecImpl<Brdrdyselect> for bool {
    open spec fn obeys_from_spec() -> bool {
        true
    }

    open spec fn from_spec(v: Brdrdyselect) -> bool {
        v.spec_bit()
    }
}

/// Field `BRDRDY` reader - Buffer Read Ready Signal Enable
pub type BrdrdyR = BitReader<Brdrdyselect>;

impl BrdrdyR {
    /// Get enumerated values variant
    pub fn variant(&self) -> (r: Brdrdyselect)
        ensures
            r == (if self.bits {
                Brdrdyselect::Enabled
            } else {
                Brdrdyselect::Masked
            }),
    {
        match self.bits {
            false => Brdrdyselect::Masked,
            true => Brdrdyselect::Enabled,
        }
    }

    /// Masked
    pub fn is_masked(&self) -> (r: bool)
        ensures
            r == !self.bits,
    {
        self.variant() == Brdrdyselect::Masked
    }

    /// Enabled
    pub fn is_enabled(&self) -> (r: bool)
        ensures
            r == self.bits,
    {
        self.variant() == Brdrdyselect::Enabled
    }
}

/// Field `BRDRDY` writer - Buffer Read Ready Signal Enable
pub type BrdrdyW<'a, REG> = BitWriter<'a, REG, Brdrdyselect>;

impl<'a, REG: RegisterSpec> BrdrdyW<'a, REG> {
    /// Masked
    pub fn masked(self) -> (r: &'a mut crate::pac::generic::W<REG>)
        requires
            (self.o as nat) < REG::Ux::spec_width(),
        ensures
            bit_written(old(self.w).bits, r.bits, self.o as nat, false),
            *final(self.w) == *final(r),
    {
        self.variant(Brdrdyselect::Masked)
    }

    /// Enabled
    pub fn enabled(self) -> (r: &'a mut crate::pac::generic::W<REG>)
        requires
            (self.o as nat) < REG::Ux::spec_width(),
        ensures
            bit_written(old(self.w).bits, r.bits, self.o as nat, true),
            *final(self.w) == *final(r),
    {
        self.variant(Brdrdyselect::Enabled)
    }
}

/// Card Insertion Signal Enable
///
/// Value on reset: 0
#[derive(Clone, Copy, Debug, PartialEq, Eq, Structural)]
pub enum Cinsselect {
    /// 0: Masked
    Masked,
    /// 1: Enabled
    Enabled,
}

impl FieldValue for Cinsselect {
    open spec fn spec_bit(self) -> bool {
        self == Cinsselect::Enabled
    }

    fn to_bit(self) -> (r: bool) {
        match self {
            Cinsselect::Masked => false,
            Cinsselect::Enabled => true,
        }
    }
}

impl From<Cinsselect> for bool {
    fn from(variant: Cinsselect) -> bool {
        match variant {
            Cinsselect::Masked => false,
            Cinsselect::Enabled => true,
        }
    }
}

impl vstd::std_specs::convert::FromSpecImpl<Cinsselect> for bool {
    open spec fn obeys_from_spec() -> bool {
        true
    }

    open spec fn from_spec(v: Cinsselect) -> bool {
        v.spec_bit()
    }
}

/// Field `CINS` reader - Card Insertion Signal Enable
pub type CinsR = BitReader<Cinsselect>;

impl CinsR {
    /// Get enumerated values variant
    pub fn variant(&self) -> (r: Cinsselect)
        ensures
            r == (if self.bits {
                Cinsselect::Enabled
            } else {
                Cinsselect::Masked
            }),
    {
        match self.bits {
            false => Cinsselect::Masked,
            true => Cinsselect::Enabled,
        }
    }

    /// Masked
    pub fn is_masked(&self) -> (r: bool)
        ensures
            r == !self.bits,
    {
        self.variant() == Cinsselect::Masked
    }

    /// Enabled
    pub fn is_enabled(&self) -> (r: bool)
        ensures
            r == self.bits,
    {
        self.variant() == Cinsselect::Enabled
    }
}

/// Field `CINS` writer - Card Insertion Signal Enable
pub type CinsW<'a, REG> = BitWriter<'a, REG, Cinsselect>;

impl<'a, REG: RegisterSpec> CinsW<'a, REG> {
    /// Masked
    pub fn masked(self) -> (r: &'a mut crate::pac::generic::W<REG>)
        requires
            (self.o as nat) < REG::Ux::spec_width(),
        ensures
            bit_written(old(self.w).bits, r.bits, self.o as nat, false),
            *final(self.w) == *final(r),
    {
        self.variant(Cinsselect::Masked)
    }

    /// Enabled
    pub fn enabled(self) -> (r: &'a mut crate::pac::generic::W<REG>)
        requires
            (self.o as nat) < REG::Ux::spec_width(),
        ensures
            bit_written(old(self.w).bits, r.bits, self.o as nat, true),
            *final(self.w) == *final(r),
    {
        self.variant(Cinsselect::Enabled)
    }
}

/// Card Removal Signal Enable
///
/// Value on reset: 0
#[derive(Clone, Copy, Debug, PartialEq, Eq, Structural)]
pub enum Cremselect {
    /// 0: Masked
    Masked,
    /// 1: Enabled
    Enabled,
}

impl FieldValue for Cremselect {
    open spec fn spec_bit(self) -> bool {
        self == Cremselect::Enabled
    }

    fn to_bit(self) -> (r: bool) {
        match self {
            Cremselect::Masked => false,
            Cremselect::Enabled => true,
        }
    }
}

impl From<Cremselect> for bool {
    fn from(variant: Cremselect) -> bool {
        match variant {
            Cremselect::Masked => false,
            Cremselect::Enabled => true,
        }
    }
}

impl vstd::std_specs::convert::FromSpecImpl<Cremselect> for bool {
    open spec fn obeys_from_spec() -> bool {
        true
    }

    open spec fn from_spec(v: Cremselect) -> bool {
        v.spec_bit()
    }
}

/// Field `CREM` reader - Card Removal Signal Enable
pub type CremR = BitReader<Cremselect>;

impl CremR {
    /// Get enumerated values variant
    pub fn variant(&self) -> (r: Cremselect)
        ensures
            r == (if self.bits {
                Cremselect::Enabled
            } else {
                Cremselect::Masked
            }),
    {
        match self.bits {
            false => Cremselect::Masked,
            true => Cremselect::Enabled,
        }
    }

    /// Masked
    pub fn is_masked(&self) -> (r: bool)
        ensures
            r == !self.bits,
    {
        self.variant() == Cremselect::Masked
    }

    /// Enabled
    pub fn is_enabled(&self) -> (r: bool)
        ensures
            r == self.bits,
    {
        self.variant() == Cremselect::Enabled
    }
}

/// Field `CREM` writer - Card Removal Signal Enable
pub type CremW<'a, REG> = BitWriter<'a, REG, Cremselect>;

impl<'a, REG: RegisterSpec> CremW<'a, REG> {
    /// Masked
    pub fn masked(self) -> (r: &'a mut crate::pac::generic::W<REG>)
        requires
            (self.o as nat) < REG::Ux::spec_width(),
        ensures
            bit_written(old(self.w).bits, r.bits, self.o as nat, false),
            *final(self.w) == *final(r),
    {
        self.variant(Cremselect::Masked)
    }

    /// Enabled
    pub fn enabled(self) -> (r: &'a mut crate::pac::generic::W<REG>)
        requires
            (self.o as nat) < REG::Ux::spec_width(),
        ensures
            bit_written(old(self.w).bits, r.bits, self.o as nat, true),
            *final(self.w) == *final(r),
    {
        self.variant(Cremselect::Enabled)
    }
}

/// Card Interrupt Signal Enable
///
/// Value on reset: 0
#[derive(Clone, Copy, Debug, PartialEq, Eq, Structural)]
pub enum Cintselect {
    /// 0: Masked
    Masked,
    /// 1: Enabled
    Enabled,
}

impl FieldValue for Cintselect {
    open spec fn spec_bit(self) -> bool {
        self == Cintselect::Enabled
    }

    fn to_bit(self) -> (r: bool) {
        match self {
            Cintselect::Masked => false,
            Cintselect::Enabled => true,
        }
    }
}

impl From<Cintselect> for bool {
    fn from(variant: Cintselect) -> bool {
        match variant {
            Cintselect::Masked => false,
            Cintselect::Enabled => true,
        }
    }
}

impl vstd::std_specs::convert::FromSpecImpl<Cintselect> for bool {
    open spec fn obeys_from_spec() -> bool {
        true
    }

    open spec fn from_spec(v: Cintselect) -> bool {
        v.spec_bit()
    }
}

/// Field `CINT` reader - Card Interrupt Signal Enable
pub type CintR = BitReader<Cintselect>;

impl CintR {
    /// Get enumerated values variant
    pub fn variant(&self) -> (r: Cintselect)
        ensures
            r == (if self.bits {
                Cintselect::Enabled
            } else {
                Cintselect::Masked
            }),
    {
        match self.bits {
            false => Cintselect::Masked,
            true => Cintselect::Enabled,
        }
    }

    /// Masked
    pub fn is_masked(&self) -> (r: bool)
        ensures
            r == !self.bits,
    {
        self.variant() == Cintselect::Masked
    }

    /// Enabled
    pub fn is_enabled(&self) -> (r: bool)
        ensures
            r == self.bits,
    {
        self.variant() == Cintselect::Enabled
    }
}

/// Field `CINT` writer - Card Interrupt Signal Enable
pub type CintW<'a, REG> = BitWriter<'a, REG, Cintselect>;

impl<'a, REG: RegisterSpec> CintW<'a, REG> {
    /// Masked
    pub fn masked(self) -> (r: &'a mut crate::pac::generic::W<REG>)
        requires
            (self.o as nat) < REG::Ux::spec_width(),
        ensures
            bit_written(old(self.w).bits, r.bits, self.o as nat, false),
            *final(self.w) == *final(r),
    {
        self.variant(Cintselect::Masked)
    }

    /// Enabled
    pub fn enabled(self) -> (r: &'a mut crate::pac::generic::W<REG>)
        requires
            (self.o as nat) < REG::Ux::spec_width(),
        ensures
            bit_written(old(self.w).bits, r.bits, self.o as nat, true),
            *final(self.w) == *final(r),
    {
        self.variant(Cintselect::Enabled)
    }
}

impl R {
    /// Bit 0 - Command Complete Signal Enable
    pub fn cmdc(&self) -> (r: CmdcR)
        ensures
            r.bits == self.bits.spec_bit(0),
    {
        proof {
            lemma_bit0_u16(self.bits);
        }
        CmdcR::new((self.bits & 1) != 0)
    }

    /// Bit 1 - Transfer Complete Signal Enable
    pub fn trfc(&self) -> (r: TrfcR)
        ensures
            r.bits == self.bits.spec_bit(1),
    {
        TrfcR::new(((self.bits >> 1) & 1) != 0)
    }

    /// Bit 2 - Block Gap Event Signal Enable
    pub fn blkge(&self) -> (r: BlkgeR)
        ensures
            r.bits == self.bits.spec_bit(2),
    {
        BlkgeR::new(((self.bits >> 2) & 1) != 0)
    }

    /// Bit 3 - DMA Interrupt Signal Enable
    pub fn dmaint(&self) -> (r: DmaintR)
        ensures
            r.bits == self.bits.spec_bit(3),
    {
        DmaintR::new(((self.bits >> 3) & 1) != 0)
    }

    /// Bit 4 - Buffer Write Ready Signal Enable
    pub fn bwrrdy(&self) -> (r: BwrrdyR)
        ensures
            r.bits == self.bits.spec_bit(4),
    {
        BwrrdyR::new(((self.bits >> 4) & 1) != 0)
    }

    /// Bit 5 - Buffer Read Ready Signal Enable
    pub fn brdrdy(&self) -> (r: BrdrdyR)
        ensures
            r.bits == self.bits.spec_bit(5),
    {
        BrdrdyR::new(((self.bits >> 5) & 1) != 0)
    }

    /// Bit 6 - Card Insertion Signal Enable
    pub fn cins(&self) -> (r: CinsR)
        ensures
            r.bits == self.bits.spec_bit(6),
    {
        CinsR::new(((self.bits >> 6) & 1) != 0)
    }

    /// Bit 7 - Card Removal Signal Enable
    pub fn crem(&self) -> (r: CremR)
        ensures
            r.bits == self.bits.spec_bit(7),
    {
        CremR::new(((self.bits >> 7) & 1) != 0)
    }

    /// Bit 8 - Card Interrupt Signal Enable
    pub fn cint(&self) -> (r: CintR)
        ensures
            r.bits == self.bits.spec_bit(8),
    {
        CintR::new(((self.bits >> 8) & 1) != 0)
    }
}

impl W {
    /// Bit 0 - Command Complete Signal Enable
    pub fn cmdc(&mut self) -> (r: CmdcW<'_, NisierSpec>)
        ensures
            *r.w == *old(self),
            r.o == 0,
            *final(self) == *final(r.w),
    {
        CmdcW::new(self, 0)
    }

    /// Bit 1 - Transfer Complete Signal Enable
    pub fn trfc(&mut self) -> (r: TrfcW<'_, NisierSpec>)
        ensures
            *r.w == *old(self),
            r.o == 1,
            *final(self) == *final(r.w),
    {
        TrfcW::new(self, 1)
    }

    /// Bit 2 - Block Gap Event Signal Enable
    pub fn blkge(&mut self) -> (r: BlkgeW<'_, NisierSpec>)
        ensures
            *r.w == *old(self),
            r.o == 2,
            *final(self) == *final(r.w),
    {
        BlkgeW::new(self, 2)
    }

    /// Bit 3 - DMA Interrupt Signal Enable
    pub fn dmaint(&mut self) -> (r: DmaintW<'_, NisierSpec>)
        ensures
            *r.w == *old(self),
            r.o == 3,
            *final(self) == *final(r.w),
    {
        DmaintW::new(self, 3)
    }

    /// Bit 4 - Buffer Write Ready Signal Enable
    pub fn bwrrdy(&mut self) -> (r: BwrrdyW<'_, NisierSpec>)
        ensures
            *r.w == *old(self),
            r.o == 4,
            *final(self) == *final(r.w),
    {
        BwrrdyW::new(self, 4)
    }

    /// Bit 5 - Buffer Read Ready Signal Enable
    pub fn brdrdy(&mut self) -> (r: BrdrdyW<'_, NisierSpec>)
        ensures
            *r.w == *old(self),
            r.o == 5,
            *final(self) == *final(r.w),
    {
        BrdrdyW::new(self, 5)
    }

    /// Bit 6 - Card Insertion Signal Enable
    pub fn cins(&mut self) -> (r: CinsW<'_, NisierSpec>)
        ensures
            *r.w == *old(self),
            r.o == 6,
            *final(self) == *final(r.w),
    {
        CinsW::new(self, 6)
    }

    /// Bit 7 - Card Removal Signal Enable
    pub fn crem(&mut self) -> (r: CremW<'_, NisierSpec>)
        ensures
            *r.w == *old(self),
            r.o == 7,
            *final(self) == *final(r.w),
    {
        CremW::new(self, 7)
    }

    /// Bit 8 - Card Interrupt Signal Enable
    pub fn cint(&mut self) -> (r: CintW<'_, NisierSpec>)
        ensures
            *r.w == *old(self),
            r.o == 8,
            *final(self) == *final(r.w),
    {
        CintW::new(self, 8)
    }
}

/// Normal Interrupt Signal Enable
pub struct NisierSpec;

impl RegisterSpec for NisierSpec {
    type Ux = u16;

    open spec fn spec_reset_value() -> u16 {
        0
    }

    /// `NISIER` is 0 after reset.
    fn reset_value() -> (r: u16) {
        0
    }
}

} // verus!
