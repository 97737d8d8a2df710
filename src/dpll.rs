//! # Digital Phase Locked Loop (DPLL)
//!
//! A [`Dpll`] multiplies the frequency of a reference clock and keeps its
//! output in step with it by constant phase comparison. There are two of
//! them, [`Dpll0Id`] and [`Dpll1Id`], each driven by one of
//!
//! - a peripheral channel ([`Pclk`]) fed by a generic clock generator,
//! - external oscillator 0 or 1, through an even pre-divider,
//! - the 32 kHz external oscillator.
//!
//! A [`Dpll`] is built by [`Dpll::from_pclk`], [`Dpll::from_xosc0`],
//! [`Dpll::from_xosc1`] or [`Dpll::from_xosc32k`], tuned, and checked and
//! started by [`Dpll::enable`], which yields an [`EnabledDpll`].
//!
//! Each token holds images of its DPLL's control registers, and every
//! operation states which fields it writes. Copying an image to the
//! silicon, and spinning on `DPLLSYNCBUSY` until
//! [`DpllToken::enable_synced`] or [`DpllToken::ratio_synced`] holds, is the
//! business of the code that owns the hardware; so is reading
//! `DPLLSTATUS`, which the status polls take as an argument.
use crate::gclk::{Gclk, GclkSource, GclkSourceEnum, GclkSourceType, GenNum};
use crate::pac::generic::{lemma_bit0_u32, BitReader, RawReg, RegisterSpec, R};
use crate::source::{Source, Xosc0Id, Xosc1Id, Xosc32kId};
use core::convert::Infallible;
use core::marker::PhantomData;
use vstd::prelude::*;

verus! {

#[verifier::external_type_specification]
#[verifier::reject_recursive_types(E)]
pub struct ExNbError<E>(nb::Error<E>);

//==============================================================================
// DpllId
//==============================================================================

/// Type-level `enum` for DPLL identifiers
pub trait DpllId {
    /// Corresponding numeric index
    spec fn spec_num() -> nat;

    fn num() -> (r: usize)
        ensures
            r as nat == Self::spec_num(),
            r < 2,
    ;
}

/// Type-level variant representing the identity of DPLL0
pub struct Dpll0Id;

impl DpllId for Dpll0Id {
    open spec fn spec_num() -> nat {
        0
    }

    fn num() -> (r: usize) {
        0
    }
}

/// Type-level variant representing the identity of DPLL1
pub struct Dpll1Id;

impl DpllId for Dpll1Id {
    open spec fn spec_num() -> nat {
        1
    }

    fn num() -> (r: usize) {
        1
    }
}

impl GclkSourceType for Dpll0Id {
    open spec fn spec_gclk_src() -> GclkSourceEnum {
        GclkSourceEnum::Dpll0
    }

    fn gclk_src() -> (r: GclkSourceEnum) {
        GclkSourceEnum::Dpll0
    }
}

impl GclkSourceType for Dpll1Id {
    open spec fn spec_gclk_src() -> GclkSourceEnum {
        GclkSourceEnum::Dpll1
    }

    fn gclk_src() -> (r: GclkSourceEnum) {
        GclkSourceEnum::Dpll1
    }
}

//==============================================================================
// DynDpllSourceId
//==============================================================================

/// Value-level version of [`DpllSourceId`]
///
/// Indicates the clock source for a [`Dpll`]
#[derive(Copy, Clone, PartialEq, Eq, Debug, Structural)]
pub enum DynDpllSourceId {
    /// The DPLL is driven by a [`Pclk`]
    Pclk,
    /// The DPLL is driven by external oscillator 0
    Xosc0,
    /// The DPLL is driven by external oscillator 1
    Xosc1,
    /// The DPLL is driven by the 32 kHz external oscillator
    Xosc32k,
}

/// Values of the `REFCLK` field of `DPLLCTRLB`: the reference clock.
#[derive(Copy, Clone, PartialEq, Eq, Debug, Structural)]
pub enum RefclkA {
    /// Dedicated peripheral channel (generic clock)
    Gclk,
    /// 32 kHz external oscillator
    Xosc32,
    /// External oscillator 0
    Xosc0,
    /// External oscillator 1
    Xosc1,
}

/// The `REFCLK` value that selects a source.
pub open spec fn refclk_of(source: DynDpllSourceId) -> RefclkA {
    match source {
        DynDpllSourceId::Pclk => RefclkA::Gclk,
        DynDpllSourceId::Xosc0 => RefclkA::Xosc0,
        DynDpllSourceId::Xosc1 => RefclkA::Xosc1,
        DynDpllSourceId::Xosc32k => RefclkA::Xosc32,
    }
}

impl From<DynDpllSourceId> for RefclkA {
    fn from(source: DynDpllSourceId) -> Self {
        match source {
            DynDpllSourceId::Pclk => RefclkA::Gclk,
            DynDpllSourceId::Xosc0 => RefclkA::Xosc0,
            DynDpllSourceId::Xosc1 => RefclkA::Xosc1,
            DynDpllSourceId::Xosc32k => RefclkA::Xosc32,
        }
    }
}

impl vstd::std_specs::convert::FromSpecImpl<DynDpllSourceId> for RefclkA {
    open spec fn obeys_from_spec() -> bool {
        true
    }

    open spec fn from_spec(v: DynDpllSourceId) -> Self {
        refclk_of(v)
    }
}

//==============================================================================
// DpllSourceId
//==============================================================================

/// Type-level `enum` for DPLL sources
pub trait DpllSourceId<D: DpllId> {
    /// Corresponding variant of [`DynDpllSourceId`]
    spec fn spec_dyn() -> DynDpllSourceId;

    fn dyn_id() -> (r: DynDpllSourceId)
        ensures
            r == Self::spec_dyn(),
    ;

    /// Corresponding [`Pclk`] type if the DPLL source is a peripheral clock
    type Pclk;
}

impl<D: DpllId, G: GenNum> DpllSourceId<D> for G {
    open spec fn spec_dyn() -> DynDpllSourceId {
        DynDpllSourceId::Pclk
    }

    fn dyn_id() -> (r: DynDpllSourceId) {
        DynDpllSourceId::Pclk
    }

    type Pclk = Pclk<D, G>;
}

impl<D: DpllId> DpllSourceId<D> for Xosc0Id {
    open spec fn spec_dyn() -> DynDpllSourceId {
        DynDpllSourceId::Xosc0
    }

    fn dyn_id() -> (r: DynDpllSourceId) {
        DynDpllSourceId::Xosc0
    }

    type Pclk = ();
}

impl<D: DpllId> DpllSourceId<D> for Xosc1Id {
    open spec fn spec_dyn() -> DynDpllSourceId {
        DynDpllSourceId::Xosc1
    }

    fn dyn_id() -> (r: DynDpllSourceId) {
        DynDpllSourceId::Xosc1
    }

    type Pclk = ();
}

impl<D: DpllId> DpllSourceId<D> for Xosc32kId {
    open spec fn spec_dyn() -> DynDpllSourceId {
        DynDpllSourceId::Xosc32k
    }

    fn dyn_id() -> (r: DynDpllSourceId) {
        DynDpllSourceId::Xosc32k
    }

    type Pclk = ();
}

//==============================================================================
// Pclk
//==============================================================================

/// The peripheral channel that brings generator `G`'s clock to DPLL `D`.
///
/// It holds a lock on the generator for as long as it exists.
pub struct Pclk<D, G> {
    freq: u32,
    ids: PhantomData<(D, G)>,
}

impl<D: DpllId, G: GenNum> Pclk<D, G> {
    pub closed spec fn spec_freq(&self) -> u32 {
        self.freq
    }

    /// Connects `gclk` to the DPLL's reference input, locking it.
    pub fn enable<T: GclkSourceType>(gclk: Gclk<G, T>) -> (r: (Self, Gclk<G, T>))
        requires
            gclk.spec_count() < u32::MAX as nat,
        ensures
            r.0.spec_freq() == gclk.spec_freq(),
            r.1.spec_config() == gclk.spec_config(),
            r.1.spec_count() == gclk.spec_count() + 1,
    {
        let freq = gclk.freq();
        (Pclk { freq, ids: PhantomData }, gclk.lock())
    }

    /// Disconnects the channel and releases its lock on `gclk`.
    pub fn disable<T: GclkSourceType>(self, gclk: Gclk<G, T>) -> (r: Gclk<G, T>)
        requires
            gclk.spec_count() > 0,
        ensures
            r.spec_config() == gclk.spec_config(),
            r.spec_count() == gclk.spec_count() - 1,
    {
        gclk.unlock()
    }

    /// Frequency of the channel, in Hz.
    pub fn freq(&self) -> (r: u32)
        ensures
            r == self.spec_freq(),
    {
        self.freq
    }
}

//==============================================================================
// Registers
//==============================================================================

/// Image of `DPLLCTRLA`.
#[derive(Copy, Clone, PartialEq, Eq, Debug, Structural)]
pub struct Dpllctrla {
    /// DPLL enable.
    pub enable: bool,
    /// Let the hardware gate the DPLL off when no peripheral requests it.
    pub ondemand: bool,
}

/// Image of `DPLLCTRLB`.
#[derive(Copy, Clone, PartialEq, Eq, Debug, Structural)]
pub struct Dpllctrlb {
    /// Reference clock selection.
    pub refclk: RefclkA,
    /// Oscillator clock division factor field: the pre-divider is `2 * (div + 1)`.
    pub div: u16,
    /// Lock bypass: the output runs whether or not the loop is locked.
    pub lbypass: bool,
    /// Wake up fast: the output is released without waiting for lock.
    pub wuf: bool,
}

/// Image of `DPLLRATIO`.
#[derive(Copy, Clone, PartialEq, Eq, Debug, Structural)]
pub struct Dpllratio {
    /// Loop divider ratio: the integer part of the multiplier, minus one.
    pub ldr: u16,
    /// Fractional part of the multiplier, in 1/32.
    pub ldrfrac: u8,
}

/// `DPLLCTRLB` after reset.
pub open spec fn reset_ctrlb() -> Dpllctrlb {
    Dpllctrlb { refclk: RefclkA::Gclk, div: 0, lbypass: false, wuf: false }
}

/// `DPLLSTATUS`, as read from the hardware.
pub struct DpllstatusSpec;

impl RegisterSpec for DpllstatusSpec {
    type Ux = u32;

    open spec fn spec_reset_value() -> u32 {
        0
    }

    /// `DPLLSTATUS` is 0 after reset.
    fn reset_value() -> (r: u32) {
        0
    }
}

/// Value read from `DPLLSTATUS`.
pub type DpllstatusR = R<DpllstatusSpec>;

impl R<DpllstatusSpec> {
    /// Bit 0 - DPLL Lock
    pub fn lock(&self) -> (r: BitReader)
        ensures
            r.bits == self.bits.spec_bit(0),
    {
        proof {
            lemma_bit0_u32(self.bits);
        }
        BitReader::new((self.bits & 1) != 0)
    }

    /// Bit 1 - DPLL Clock Ready
    pub fn clkrdy(&self) -> (r: BitReader)
        ensures
            r.bits == self.bits.spec_bit(1),
    {
        BitReader::new(((self.bits >> 1) & 1) != 0)
    }
}

/// `DPLLSYNCBUSY`, as read from the hardware.
pub struct DpllsyncbusySpec;

impl RegisterSpec for DpllsyncbusySpec {
    type Ux = u32;

    open spec fn spec_reset_value() -> u32 {
        0
    }

    /// `DPLLSYNCBUSY` is 0 after reset.
    fn reset_value() -> (r: u32) {
        0
    }
}

/// Value read from `DPLLSYNCBUSY`.
pub type DpllsyncbusyR = R<DpllsyncbusySpec>;

impl R<DpllsyncbusySpec> {
    /// Bit 1 - DPLL Enable Synchronization Status
    pub fn enable(&self) -> (r: BitReader)
        ensures
            r.bits == self.bits.spec_bit(1),
    {
        BitReader::new(((self.bits >> 1) & 1) != 0)
    }

    /// Bit 2 - DPLL Loop Divider Ratio Synchronization Status
    pub fn dpllratio(&self) -> (r: BitReader)
        ensures
            r.bits == self.bits.spec_bit(2),
    {
        BitReader::new(((self.bits >> 2) & 1) != 0)
    }
}

//==============================================================================
// DpllToken
//==============================================================================

/// Token type required to construct a [`Dpll`] type instance.
///
/// It grants access to one DPLL's registers, which it holds as images.
pub struct DpllToken<D: DpllId> {
    dpll: PhantomData<D>,
    ctrla: Dpllctrla,
    ctrlb: Dpllctrlb,
    ratio: Dpllratio,
}

impl<D: DpllId> DpllToken<D> {
    pub closed spec fn spec_ctrla(&self) -> Dpllctrla {
        self.ctrla
    }

    pub closed spec fn spec_ctrlb(&self) -> Dpllctrlb {
        self.ctrlb
    }

    pub closed spec fn spec_ratio(&self) -> Dpllratio {
        self.ratio
    }

    /// The token of a DPLL in its reset state.
    fn new() -> (r: Self)
        ensures
            r.spec_ctrla() == (Dpllctrla { enable: false, ondemand: true }),
            r.spec_ctrlb() == reset_ctrlb(),
            r.spec_ratio() == (Dpllratio { ldr: 0, ldrfrac: 0 }),
    {
        DpllToken {
            dpll: PhantomData,
            ctrla: Dpllctrla { enable: false, ondemand: true },
            ctrlb: Dpllctrlb { refclk: RefclkA::Gclk, div: 0, lbypass: false, wuf: false },
            ratio: Dpllratio { ldr: 0, ldrfrac: 0 },
        }
    }

    /// Image of `DPLLCTRLA`.
    pub fn ctrla(&self) -> (r: Dpllctrla)
        ensures
            r == self.spec_ctrla(),
    {
        self.ctrla
    }

    /// Image of `DPLLCTRLB`.
    pub fn ctrlb(&self) -> (r: Dpllctrlb)
        ensures
            r == self.spec_ctrlb(),
    {
        self.ctrlb
    }

    /// Image of `DPLLRATIO`.
    pub fn ratio(&self) -> (r: Dpllratio)
        ensures
            r == self.spec_ratio(),
    {
        self.ratio
    }

    /// Set the loop division
    ///
    /// f_clk_dpll = clk_src * (LDR + 1 + (LDRFRAC / 32)); `mult` includes
    /// the `+ 1` and `frac` is `LDRFRAC`.
    fn set_loop_div(&mut self, mult: u16, frac: u8)
        requires
            1 <= mult <= 8192,
            frac < 32,
        ensures
            final(self).spec_ratio() == (Dpllratio { ldr: (mult - 1) as u16, ldrfrac: frac }),
            final(self).spec_ctrla() == old(self).spec_ctrla(),
            final(self).spec_ctrlb() == old(self).spec_ctrlb(),
        no_unwind
    {
        self.ratio = Dpllratio { ldr: mult - 1, ldrfrac: frac };
    }

    /// Set the clock source.
    fn set_source_clock(&mut self, refclk: RefclkA)
        ensures
            final(self).spec_ctrlb() == (Dpllctrlb { refclk, ..old(self).spec_ctrlb() }),
            final(self).spec_ctrla() == old(self).spec_ctrla(),
            final(self).spec_ratio() == old(self).spec_ratio(),
        no_unwind
    {
        self.ctrlb.refclk = refclk;
    }

    /// Set the oscillator division field; it only acts when the source is
    /// an external oscillator.
    fn set_source_div(&mut self, div: u16)
        requires
            div < 2048,
        ensures
            final(self).spec_ctrlb() == (Dpllctrlb { div, ..old(self).spec_ctrlb() }),
            final(self).spec_ctrla() == old(self).spec_ctrla(),
            final(self).spec_ratio() == old(self).spec_ratio(),
        no_unwind
    {
        self.ctrlb.div = div;
    }

    /// Ignore the lock, CLK_DPLLn is always running.
    fn set_lock_bypass(&mut self, bypass: bool)
        ensures
            final(self).spec_ctrlb() == (Dpllctrlb { lbypass: bypass, ..old(self).spec_ctrlb() }),
            final(self).spec_ctrla() == old(self).spec_ctrla(),
            final(self).spec_ratio() == old(self).spec_ratio(),
        no_unwind
    {
        self.ctrlb.lbypass = bypass;
    }

    /// Wake up fast, output the clock directly without waiting for lock.
    fn set_wake_up_fast(&mut self, wuf: bool)
        ensures
            final(self).spec_ctrlb() == (Dpllctrlb { wuf, ..old(self).spec_ctrlb() }),
            final(self).spec_ctrla() == old(self).spec_ctrla(),
            final(self).spec_ratio() == old(self).spec_ratio(),
        no_unwind
    {
        self.ctrlb.wuf = wuf;
    }

    fn set_on_demand(&mut self, on_demand: bool)
        ensures
            final(self).spec_ctrla() == (Dpllctrla { ondemand: on_demand, ..old(self).spec_ctrla() }),
            final(self).spec_ctrlb() == old(self).spec_ctrlb(),
            final(self).spec_ratio() == old(self).spec_ratio(),
        no_unwind
    {
        self.ctrla.ondemand = on_demand;
    }

    /// Check if [`Dpll`] clock is ready, given `DPLLSTATUS` as read.
    fn wait_until_ready(&self, status: &DpllstatusR) -> (r: nb::Result<(), Infallible>)
        ensures
            r == (if status.bits.spec_bit(1) {
                Ok(())
            } else {
                Err(nb::Error::<Infallible>::WouldBlock)
            }),
    {
        if status.clkrdy().bit_is_clear() {
            Err(nb::Error::WouldBlock)
        } else {
            Ok(())
        }
    }

    /// Check if [`Dpll`] clock is locked, given `DPLLSTATUS` as read.
    fn wait_until_locked(&self, status: &DpllstatusR) -> (r: nb::Result<(), Infallible>)
        ensures
            r == (if status.bits.spec_bit(0) {
                Ok(())
            } else {
                Err(nb::Error::<Infallible>::WouldBlock)
            }),
    {
        if status.lock().bit_is_clear() {
            Err(nb::Error::WouldBlock)
        } else {
            Ok(())
        }
    }

    /// Whether the write of the enable bit has been synchronized, given
    /// `DPLLSYNCBUSY` as read. Software that writes the hardware polls this
    /// until it holds.
    pub fn enable_synced(&self, syncbusy: &DpllsyncbusyR) -> (r: bool)
        ensures
            r == !syncbusy.bits.spec_bit(1),
    {
        syncbusy.enable().bit_is_clear()
    }

    /// Whether the write of the loop ratio has been synchronized, given
    /// `DPLLSYNCBUSY` as read.
    pub fn ratio_synced(&self, syncbusy: &DpllsyncbusyR) -> (r: bool)
        ensures
            r == !syncbusy.bits.spec_bit(2),
    {
        syncbusy.dpllratio().bit_is_clear()
    }

    /// Enable the [`Dpll`].
    fn enable(&mut self)
        ensures
            final(self).spec_ctrla() == (Dpllctrla { enable: true, ..old(self).spec_ctrla() }),
            final(self).spec_ctrlb() == old(self).spec_ctrlb(),
            final(self).spec_ratio() == old(self).spec_ratio(),
        no_unwind
    {
        self.ctrla.enable = true;
    }

    /// Disable the [`Dpll`].
    fn disable(&mut self)
        ensures
            final(self).spec_ctrla() == (Dpllctrla { enable: false, ..old(self).spec_ctrla() }),
            final(self).spec_ctrlb() == old(self).spec_ctrlb(),
            final(self).spec_ratio() == old(self).spec_ratio(),
        no_unwind
    {
        self.ctrla.enable = false;
    }
}

/// The tokens of both DPLLs.
pub struct Tokens {
    pub dpll0: DpllToken<Dpll0Id>,
    pub dpll1: DpllToken<Dpll1Id>,
}

impl Tokens {
    /// Both tokens, each for a DPLL in its reset state.
    ///
    /// Called once, at startup: a second set would give two owners to
    /// the same registers.
    pub fn new() -> (r: Self)
        ensures
            r.dpll0.spec_ctrla() == (Dpllctrla { enable: false, ondemand: true }),
            r.dpll0.spec_ctrlb() == reset_ctrlb(),
            r.dpll0.spec_ratio() == (Dpllratio { ldr: 0, ldrfrac: 0 }),
            r.dpll1.spec_ctrla() == (Dpllctrla { enable: false, ondemand: true }),
            r.dpll1.spec_ctrlb() == reset_ctrlb(),
            r.dpll1.spec_ratio() == (Dpllratio { ldr: 0, ldrfrac: 0 }),
    {
        Tokens { dpll0: DpllToken::new(), dpll1: DpllToken::new() }
    }
}

//==============================================================================
// Dpll
//==============================================================================

/// Ways in which a DPLL configuration can be invalid.
#[derive(Copy, Clone, PartialEq, Eq, Debug, Structural)]
pub enum DpllError {
    /// The pre-divider is odd or outside `[2, 4096]`.
    InvalidPrediv,
    /// The reference frequency after pre-division is outside
    /// `[32 kHz, 3.2 MHz]`.
    InputFreqOutOfRange,
    /// The output frequency is outside `[96 MHz, 200 MHz]`.
    OutputFreqOutOfRange,
}

/// The contents of a [`Dpll`] as plain values: its settings and the images
/// of its registers.
#[derive(Copy, Clone, PartialEq, Eq, Debug, Structural)]
pub struct DpllView {
    /// Frequency of the driving source, in Hz.
    pub src_freq: u32,
    /// Pre-divider applied to the source.
    pub prediv: u16,
    /// Integer part of the loop ratio.
    pub mult: u16,
    /// Fractional part of the loop ratio, in 1/32.
    pub frac: u8,
    pub lock_bypass: bool,
    pub wake_up_fast: bool,
    pub on_demand: bool,
    pub ctrla: Dpllctrla,
    pub ctrlb: Dpllctrlb,
    pub ratio: Dpllratio,
}

/// Reference frequency reaching the phase comparator: `src_freq / prediv`.
pub open spec fn input_freq_of(v: DpllView) -> nat {
    v.src_freq as nat / v.prediv as nat
}

/// Output frequency: `input * (mult + frac / 32)`, rounded down.
pub open spec fn output_freq_of(v: DpllView) -> nat {
    input_freq_of(v) * (32 * v.mult as nat + v.frac as nat) / 32
}

pub open spec fn input_freq_valid(f: nat) -> bool {
    32_000 <= f <= 3_200_000
}

pub open spec fn output_freq_valid(f: nat) -> bool {
    96_000_000 <= f <= 200_000_000
}

/// The pre-divider values that a source admits.
pub open spec fn prediv_valid(source: DynDpllSourceId, prediv: u16) -> bool {
    if source is Xosc0 || source is Xosc1 {
        2 <= prediv <= 4096 && prediv % 2 == 0
    } else {
        prediv == 1
    }
}

/// The check that [`Dpll::enable`] makes: the first rule the settings
/// break, if any.
pub open spec fn enable_check(v: DpllView) -> Option<DpllError> {
    if !input_freq_valid(input_freq_of(v)) {
        Some(DpllError::InputFreqOutOfRange)
    } else if !output_freq_valid(output_freq_of(v)) {
        Some(DpllError::OutputFreqOutOfRange)
    } else {
        None
    }
}

/// The registers that [`Dpll::enable`] writes, given the settings and the
/// kind of source.
pub open spec fn enabled_view(v: DpllView, source: DynDpllSourceId) -> DpllView {
    DpllView {
        ctrla: Dpllctrla { enable: true, ondemand: v.on_demand },
        ctrlb: Dpllctrlb {
            refclk: refclk_of(source),
            div: if source is Xosc0 || source is Xosc1 {
                (v.prediv / 2 - 1) as u16
            } else {
                v.ctrlb.div
            },
            lbypass: v.lock_bypass,
            wuf: v.wake_up_fast,
        },
        ratio: Dpllratio {
            ldr: (v.mult + v.frac / 32 - 1) as u16,
            ldrfrac: (v.frac % 32) as u8,
        },
        ..v
    }
}

/// The registers after [`EnabledDpll::disable`]: the enable bit cleared.
pub open spec fn disabled_view(v: DpllView) -> DpllView {
    DpllView { ctrla: Dpllctrla { enable: false, ..v.ctrla }, ..v }
}

/// The settings of a DPLL: everything but its register images.
pub open spec fn settings_of(v: DpllView) -> (u32, u16, u16, u8, bool, bool, bool) {
    (v.src_freq, v.prediv, v.mult, v.frac, v.lock_bypass, v.wake_up_fast, v.on_demand)
}

/// Settings that pass the checks of [`Dpll::enable`] have a loop ratio whose
/// whole part, `mult + frac / 32`, fits the `LDR` field once one is taken off.
proof fn lemma_ratio_fits(input: nat, mult: nat, frac: nat)
    requires
        input_freq_valid(input),
        output_freq_valid(input * (32 * mult + frac) / 32),
    ensures
        1 <= mult + frac / 32 <= 8192,
{
    let k = 32 * mult + frac;
    let p = input * k;
    assert(p >= 32 * 96_000_000);
    assert(p < 32 * 200_000_001);
    assert(k >= 960) by (nonlinear_arith)
        requires
            p == input * k,
            input <= 3_200_000,
            p >= 32 * 96_000_000,
    {
        if k < 960 {
            assert(input * k <= 3_200_000 * k);
            assert(3_200_000 * k < 3_200_000 * 960);
        }
    }
    assert(k < 200_001) by (nonlinear_arith)
        requires
            p == input * k,
            input >= 32_000,
            p < 32 * 200_000_001,
    {
        if k >= 200_001 {
            assert(input * k >= 32_000 * k);
            assert(32_000 * k >= 32_000 * 200_001);
        }
    }
    assert(k / 32 == mult + frac / 32) by (nonlinear_arith)
        requires
            k == 32 * mult + frac,
    ;
    assert(30 <= k / 32 <= 6250) by (nonlinear_arith)
        requires
            960 <= k < 200_001,
    ;
}

/// Struct representing a [`Dpll`] abstraction
///
/// It is generic over its identity `D` and over the kind of source `I` that
/// drives it.
pub struct Dpll<D: DpllId, I: DpllSourceId<D>> {
    token: DpllToken<D>,
    src_freq: u32,
    mult: u16,
    frac: u8,
    lock_bypass: bool,
    wake_up_fast: bool,
    on_demand: bool,
    pclk: I::Pclk,
    prediv: u16,
}

impl<D: DpllId, I: DpllSourceId<D>> View for Dpll<D, I> {
    type V = DpllView;

    closed spec fn view(&self) -> DpllView {
        DpllView {
            src_freq: self.src_freq,
            prediv: self.prediv,
            mult: self.mult,
            frac: self.frac,
            lock_bypass: self.lock_bypass,
            wake_up_fast: self.wake_up_fast,
            on_demand: self.on_demand,
            ctrla: self.token.spec_ctrla(),
            ctrlb: self.token.spec_ctrlb(),
            ratio: self.token.spec_ratio(),
        }
    }
}

impl<D: DpllId, I: DpllSourceId<D>> Dpll<D, I> {
    /// The pre-divider suits the kind of source.
    #[verifier::type_invariant]
    closed spec fn inv(&self) -> bool {
        prediv_valid(I::spec_dyn(), self.prediv)
    }

    /// The peripheral channel that drives the DPLL, if that is its source.
    pub closed spec fn spec_pclk(&self) -> I::Pclk {
        self.pclk
    }

    /// Set the [`Dpll`] loop divider
    ///
    /// ```text
    /// f_clk_dpll = clk_src * (mult + (frac / 32))
    /// ```
    ///
    /// The `+ 1` of the datasheet's formula is handled by the register
    /// write at [`Dpll::enable`].
    pub fn set_loop_div(self, mult: u16, frac: u8) -> (r: Self)
        ensures
            r@ == (DpllView { mult, frac, ..self@ }),
            r.spec_pclk() == self.spec_pclk(),
    {
        proof {
            use_type_invariant(&self);
        }
        let mut s = self;
        s.mult = mult;
        s.frac = frac;
        s
    }

    /// Set to ignore the phase-lock, CLK_DPLL is always running regardless of
    /// lock status
    pub fn set_lock_bypass(self, bypass: bool) -> (r: Self)
        ensures
            r@ == (DpllView { lock_bypass: bypass, ..self@ }),
            r.spec_pclk() == self.spec_pclk(),
    {
        proof {
            use_type_invariant(&self);
        }
        let mut s = self;
        s.lock_bypass = bypass;
        s
    }

    /// Set to skip waiting for [`Dpll`] lock before outputting clock
    pub fn set_wake_up_fast(self, wuf: bool) -> (r: Self)
        ensures
            r@ == (DpllView { wake_up_fast: wuf, ..self@ }),
            r.spec_pclk() == self.spec_pclk(),
    {
        proof {
            use_type_invariant(&self);
        }
        let mut s = self;
        s.wake_up_fast = wuf;
        s
    }

    /// Let the hardware gate the DPLL off while no peripheral requests it
    pub fn set_on_demand(self, on_demand: bool) -> (r: Self)
        ensures
            r@ == (DpllView { on_demand, ..self@ }),
            r.spec_pclk() == self.spec_pclk(),
    {
        proof {
            use_type_invariant(&self);
        }
        let mut s = self;
        s.on_demand = on_demand;
        s
    }

    /// Settings and register images, as plain values.
    pub fn settings(&self) -> (r: DpllView)
        ensures
            r == self@,
    {
        DpllView {
            src_freq: self.src_freq,
            prediv: self.prediv,
            mult: self.mult,
            frac: self.frac,
            lock_bypass: self.lock_bypass,
            wake_up_fast: self.wake_up_fast,
            on_demand: self.on_demand,
            ctrla: self.token.ctrla(),
            ctrlb: self.token.ctrlb(),
            ratio: self.token.ratio(),
        }
    }

    /// Reference frequency after the pre-divider, in Hz.
    pub fn input_freq(&self) -> (r: u32)
        ensures
            r as nat == input_freq_of(self@),
    {
        proof {
            use_type_invariant(self);
        }
        self.src_freq / (self.prediv as u32)
    }

    /// Output frequency, in Hz.
    pub fn output_freq(&self) -> (r: u64)
        ensures
            r as nat == output_freq_of(self@),
    {
        let input = self.input_freq() as u64;
        let k: u64 = 32 * (self.mult as u64) + (self.frac as u64);
        proof {
            assert(input * k <= 4_294_967_295 * 2_097_375) by (nonlinear_arith)
                requires
                    input <= 4_294_967_295,
                    k <= 2_097_375,
            ;
        }
        input * k / 32
    }

    /// Return the frequency of the [`Dpll`]
    pub fn freq(&self) -> (r: u64)
        ensures
            r as nat == output_freq_of(self@),
    {
        self.output_freq()
    }

    /// Checks the configuration and starts the [`Dpll`]
    ///
    /// The reference frequency must lie in `[32 kHz, 3.2 MHz]` and the
    /// output in `[96 MHz, 200 MHz]`. Otherwise
    /// nothing is written and the [`Dpll`] is handed back with the error.
    /// On success the source, the pre-divider (oscillator sources only,
    /// as `prediv / 2 - 1`), the loop ratio (as `mult - 1` and `frac`) and
    /// the flags are written, and the enable bit is set. The loop ratio is
    /// written whole: `LDR` gets `mult + frac / 32 - 1` and `LDRFRAC` gets
    /// `frac % 32`.
    pub fn enable(self) -> (r: Result<EnabledDpll<D, I>, (DpllError, Self)>)
        ensures
            r is Ok <==> input_freq_valid(input_freq_of(self@)) && output_freq_valid(
                output_freq_of(self@),
            ),
            r is Ok <==> enable_check(self@) is None,
            r is Ok ==> r->Ok_0.spec_dpll()@ == enabled_view(self@, I::spec_dyn())
                && r->Ok_0.spec_count() == 0,
            r is Ok ==> r->Ok_0.spec_dpll().spec_pclk() == self.spec_pclk(),
            r is Err ==> enable_check(self@) == Some(r->Err_0.0) && r->Err_0.1 == self,
    {
        proof {
            use_type_invariant(&self);
        }
        let input = self.input_freq();
        if input < 32_000 || input > 3_200_000 {
            return Err((DpllError::InputFreqOutOfRange, self));
        }
        let output = self.output_freq();
        if output < 96_000_000 || output > 200_000_000 {
            return Err((DpllError::OutputFreqOutOfRange, self));
        }
        proof {
            lemma_ratio_fits(input as nat, self.mult as nat, self.frac as nat);
        }
        let source = I::dyn_id();
        let refclk = RefclkA::from(source);
        let mut s = self;
        s.token.set_source_clock(refclk);
        match source {
            DynDpllSourceId::Xosc0 | DynDpllSourceId::Xosc1 => {
                s.token.set_source_div(s.prediv / 2 - 1);
            },
            _ => {},
        }
        // Set the loop divider ratio and other settings
        let whole = (s.mult as u32 + s.frac as u32 / 32) as u16;
        s.token.set_loop_div(whole, s.frac % 32);
        s.token.set_lock_bypass(s.lock_bypass);
        s.token.set_wake_up_fast(s.wake_up_fast);
        s.token.set_on_demand(s.on_demand);
        s.token.enable();
        Ok(EnabledDpll { dpll: s, count: 0 })
    }
}

impl<D: DpllId, G: GenNum> Dpll<D, G> {
    /// Create a [`Dpll`] from a [`Pclk`]
    ///
    /// The pre-divider is 1, the loop ratio 1, lock bypass and wake up fast
    /// off, on demand on.
    pub fn from_pclk(token: DpllToken<D>, pclk: Pclk<D, G>) -> (r: Self)
        ensures
            r@ == (DpllView {
                src_freq: pclk.spec_freq(),
                prediv: 1,
                mult: 1,
                frac: 0,
                lock_bypass: false,
                wake_up_fast: false,
                on_demand: true,
                ctrla: token.spec_ctrla(),
                ctrlb: token.spec_ctrlb(),
                ratio: token.spec_ratio(),
            }),
            r.spec_pclk() == pclk,
    {
        let src_freq = pclk.freq();
        Dpll {
            token,
            src_freq,
            mult: 1,
            frac: 0,
            lock_bypass: false,
            wake_up_fast: false,
            on_demand: true,
            pclk,
            prediv: 1,
        }
    }

    /// Deconstruct the [`Dpll`], release the token, and return the [`Pclk`]
    pub fn free(self) -> (r: (DpllToken<D>, Pclk<D, G>))
        ensures
            r.0.spec_ctrla() == self@.ctrla,
            r.0.spec_ctrlb() == self@.ctrlb,
            r.0.spec_ratio() == self@.ratio,
            r.1 == self.spec_pclk(),
    {
        (self.token, self.pclk)
    }
}

impl<D: DpllId> Dpll<D, Xosc32kId> {
    /// Create a [`Dpll`] from the 32 kHz oscillator, locking it
    ///
    /// The pre-divider is 1, the loop ratio 1, lock bypass and wake up fast
    /// off, on demand on.
    pub fn from_xosc32k<S: Source<Id = Xosc32kId>>(token: DpllToken<D>, xosc32k: S) -> (r: (Self, S))
        requires
            xosc32k.spec_count() < u32::MAX as nat,
        ensures
            r.0@ == (DpllView {
                src_freq: xosc32k.spec_freq(),
                prediv: 1,
                mult: 1,
                frac: 0,
                lock_bypass: false,
                wake_up_fast: false,
                on_demand: true,
                ctrla: token.spec_ctrla(),
                ctrlb: token.spec_ctrlb(),
                ratio: token.spec_ratio(),
            }),
            r.1.spec_freq() == xosc32k.spec_freq(),
            r.1.spec_count() == xosc32k.spec_count() + 1,
    {
        let src_freq = xosc32k.freq();
        let dpll = Dpll {
            token,
            src_freq,
            mult: 1,
            frac: 0,
            lock_bypass: false,
            wake_up_fast: false,
            on_demand: true,
            pclk: (),
            prediv: 1,
        };
        (dpll, xosc32k.lock())
    }

    /// Deconstruct the [`Dpll`], release the token, and unlock the oscillator
    pub fn free<S: Source<Id = Xosc32kId>>(self, xosc32k: S) -> (r: (DpllToken<D>, S))
        requires
            xosc32k.spec_count() > 0,
        ensures
            r.0.spec_ctrla() == self@.ctrla,
            r.0.spec_ctrlb() == self@.ctrlb,
            r.0.spec_ratio() == self@.ratio,
            r.1.spec_freq() == xosc32k.spec_freq(),
            r.1.spec_count() == xosc32k.spec_count() - 1,
    {
        (self.token, xosc32k.unlock())
    }
}

impl<D: DpllId> Dpll<D, Xosc0Id> {
    /// Create a [`Dpll`] from external oscillator 0, locking it
    ///
    /// The pre-divider is 2, the loop ratio 1, lock bypass and wake up fast
    /// off, on demand on. After the pre-divider the reference frequency
    /// must lie in `[32 kHz, 3.2 MHz]` for [`Dpll::enable`] to succeed.
    pub fn from_xosc0<S: Source<Id = Xosc0Id>>(token: DpllToken<D>, xosc: S) -> (r: (Self, S))
        requires
            xosc.spec_count() < u32::MAX as nat,
        ensures
            r.0@ == (DpllView {
                src_freq: xosc.spec_freq(),
                prediv: 2,
                mult: 1,
                frac: 0,
                lock_bypass: false,
                wake_up_fast: false,
                on_demand: true,
                ctrla: token.spec_ctrla(),
                ctrlb: token.spec_ctrlb(),
                ratio: token.spec_ratio(),
            }),
            r.1.spec_freq() == xosc.spec_freq(),
            r.1.spec_count() == xosc.spec_count() + 1,
    {
        let src_freq = xosc.freq();
        let dpll = Dpll {
            token,
            src_freq,
            mult: 1,
            frac: 0,
            lock_bypass: false,
            wake_up_fast: false,
            on_demand: true,
            pclk: (),
            prediv: 2,
        };
        (dpll, xosc.lock())
    }

    /// Set the pre-divider: an even number in `[2, 4096]`
    ///
    /// Any other value is refused and the [`Dpll`] handed back unchanged.
    pub fn set_prediv(self, prediv: u16) -> (r: Result<Self, (DpllError, Self)>)
        ensures
            r is Ok <==> (2 <= prediv <= 4096 && prediv % 2 == 0),
            r is Ok ==> r->Ok_0@ == (DpllView { prediv, ..self@ }),
            r is Ok ==> r->Ok_0.spec_pclk() == self.spec_pclk(),
            r is Err ==> r->Err_0 == (DpllError::InvalidPrediv, self),
    {
        if prediv < 2 || prediv > 4096 || prediv % 2 != 0 {
            return Err((DpllError::InvalidPrediv, self));
        }
        let mut s = self;
        s.prediv = prediv;
        Ok(s)
    }

    /// Deconstruct the [`Dpll`], release the token, and unlock the oscillator
    pub fn free<S: Source<Id = Xosc0Id>>(self, xosc: S) -> (r: (DpllToken<D>, S))
        requires
            xosc.spec_count() > 0,
        ensures
            r.0.spec_ctrla() == self@.ctrla,
            r.0.spec_ctrlb() == self@.ctrlb,
            r.0.spec_ratio() == self@.ratio,
            r.1.spec_freq() == xosc.spec_freq(),
            r.1.spec_count() == xosc.spec_count() - 1,
    {
        (self.token, xosc.unlock())
    }
}

impl<D: DpllId> Dpll<D, Xosc1Id> {
    /// Create a [`Dpll`] from external oscillator 1, locking it
    ///
    /// The pre-divider is 2, the loop ratio 1, lock bypass and wake up fast
    /// off, on demand on. After the pre-divider the reference frequency
    /// must lie in `[32 kHz, 3.2 MHz]` for [`Dpll::enable`] to succeed.
    pub fn from_xosc1<S: Source<Id = Xosc1Id>>(token: DpllToken<D>, xosc: S) -> (r: (Self, S))
        requires
            xosc.spec_count() < u32::MAX as nat,
        ensures
            r.0@ == (DpllView {
                src_freq: xosc.spec_freq(),
                prediv: 2,
                mult: 1,
                frac: 0,
                lock_bypass: false,
                wake_up_fast: false,
                on_demand: true,
                ctrla: token.spec_ctrla(),
                ctrlb: token.spec_ctrlb(),
                ratio: token.spec_ratio(),
            }),
            r.1.spec_freq() == xosc.spec_freq(),
            r.1.spec_count() == xosc.spec_count() + 1,
    {
        let src_freq = xosc.freq();
        let dpll = Dpll {
            token,
            src_freq,
            mult: 1,
            frac: 0,
            lock_bypass: false,
            wake_up_fast: false,
            on_demand: true,
            pclk: (),
            prediv: 2,
        };
        (dpll, xosc.lock())
    }

    /// Set the pre-divider: an even number in `[2, 4096]`
    ///
    /// Any other value is refused and the [`Dpll`] handed back unchanged.
    pub fn set_prediv(self, prediv: u16) -> (r: Result<Self, (DpllError, Self)>)
        ensures
            r is Ok <==> (2 <= prediv <= 4096 && prediv % 2 == 0),
            r is Ok ==> r->Ok_0@ == (DpllView { prediv, ..self@ }),
            r is Ok ==> r->Ok_0.spec_pclk() == self.spec_pclk(),
            r is Err ==> r->Err_0 == (DpllError::InvalidPrediv, self),
    {
        if prediv < 2 || prediv > 4096 || prediv % 2 != 0 {
            return Err((DpllError::InvalidPrediv, self));
        }
        let mut s = self;
        s.prediv = prediv;
        Ok(s)
    }

    /// Deconstruct the [`Dpll`], release the token, and unlock the oscillator
    pub fn free<S: Source<Id = Xosc1Id>>(self, xosc: S) -> (r: (DpllToken<D>, S))
        requires
            xosc.spec_count() > 0,
        ensures
            r.0.spec_ctrla() == self@.ctrla,
            r.0.spec_ctrlb() == self@.ctrlb,
            r.0.spec_ratio() == self@.ratio,
            r.1.spec_freq() == xosc.spec_freq(),
            r.1.spec_count() == xosc.spec_count() - 1,
    {
        (self.token, xosc.unlock())
    }
}

//==============================================================================
// EnabledDpll
//==============================================================================

/// A running [`Dpll`], with the number of consumers that depend on it.
pub struct EnabledDpll<D: DpllId, I: DpllSourceId<D>> {
    dpll: Dpll<D, I>,
    count: u32,
}

/// Alias of [`Dpll`]`<`[`Dpll0Id`]`, _>`
pub type Dpll0<M> = Dpll<Dpll0Id, M>;

/// Alias of [`Dpll`]`<`[`Dpll1Id`]`, _>`
pub type Dpll1<M> = Dpll<Dpll1Id, M>;

pub type EnabledDpll0<I> = EnabledDpll<Dpll0Id, I>;

pub type EnabledDpll1<I> = EnabledDpll<Dpll1Id, I>;

impl<D: DpllId, I: DpllSourceId<D>> EnabledDpll<D, I> {
    /// It runs with settings that passed the checks of [`Dpll::enable`].
    #[verifier::type_invariant]
    closed spec fn inv(&self) -> bool {
        enable_check(self.dpll@) is None
    }

    /// The configuration it runs with.
    pub closed spec fn spec_dpll(&self) -> Dpll<D, I> {
        self.dpll
    }

    pub closed spec fn spec_count(&self) -> nat {
        self.count as nat
    }

    /// Number of consumers that currently depend on this DPLL.
    pub fn count(&self) -> (r: u32)
        ensures
            r as nat == self.spec_count(),
    {
        self.count
    }

    /// Registers one more consumer of this DPLL.
    pub fn lock(self) -> (r: Self)
        requires
            self.spec_count() < u32::MAX as nat,
        ensures
            r.spec_dpll() == self.spec_dpll(),
            r.spec_count() == self.spec_count() + 1,
    {
        proof {
            use_type_invariant(&self);
        }
        EnabledDpll { dpll: self.dpll, count: self.count + 1 }
    }

    /// Releases one consumer of this DPLL.
    pub fn unlock(self) -> (r: Self)
        requires
            self.spec_count() > 0,
        ensures
            r.spec_dpll() == self.spec_dpll(),
            r.spec_count() == self.spec_count() - 1,
    {
        proof {
            use_type_invariant(&self);
        }
        EnabledDpll { dpll: self.dpll, count: self.count - 1 }
    }

    /// Disable the [`Dpll`]
    ///
    /// While a consumer holds it, it is handed back unchanged.
    pub fn disable(self) -> (r: Result<Dpll<D, I>, Self>)
        ensures
            r is Ok <==> self.spec_count() == 0,
            r is Ok ==> r->Ok_0@ == disabled_view(self.spec_dpll()@),
            r is Ok ==> r->Ok_0.spec_pclk() == self.spec_dpll().spec_pclk(),
            r is Err ==> r->Err_0 == self,
    {
        if self.count != 0 {
            return Err(self);
        }
        let mut dpll = self.dpll;
        proof {
            use_type_invariant(&dpll);
        }
        dpll.token.disable();
        Ok(dpll)
    }

    /// Check if [`Dpll`] has achieved lock, given `DPLLSTATUS` as read
    pub fn wait_until_locked(&self, status: &DpllstatusR) -> (r: nb::Result<(), Infallible>)
        ensures
            r == (if status.bits.spec_bit(0) {
                Ok(())
            } else {
                Err(nb::Error::<Infallible>::WouldBlock)
            }),
    {
        self.dpll.token.wait_until_locked(status)
    }

    /// Check if [`Dpll`] is ready, given `DPLLSTATUS` as read
    pub fn wait_until_ready(&self, status: &DpllstatusR) -> (r: nb::Result<(), Infallible>)
        ensures
            r == (if status.bits.spec_bit(1) {
                Ok(())
            } else {
                Err(nb::Error::<Infallible>::WouldBlock)
            }),
    {
        self.dpll.token.wait_until_ready(status)
    }

    /// Settings and register images of the running DPLL, as plain values.
    pub fn settings(&self) -> (r: DpllView)
        ensures
            r == self.spec_dpll()@,
    {
        self.dpll.settings()
    }

    /// Output frequency, in Hz.
    pub fn freq(&self) -> (r: u32)
        ensures
            r as nat == output_freq_of(self.spec_dpll()@),
    {
        proof {
            use_type_invariant(self);
        }
        self.dpll.output_freq() as u32
    }
}

impl<D: DpllId, I: DpllSourceId<D>> Source for EnabledDpll<D, I> {
    type Id = D;

    open spec fn spec_freq(&self) -> u32 {
        output_freq_of(self.spec_dpll()@) as u32
    }

    open spec fn spec_count(&self) -> nat {
        self.spec_count()
    }

    fn freq(&self) -> (r: u32) {
        EnabledDpll::freq(self)
    }

    fn lock(self) -> (r: Self) {
        EnabledDpll::lock(self)
    }

    fn unlock(self) -> (r: Self) {
        EnabledDpll::unlock(self)
    }
}

impl<G: GenNum, D: DpllId + GclkSourceType, I: DpllSourceId<D>> GclkSource<G> for EnabledDpll<D, I> {
    type Type = D;
}

//==============================================================================
// Laws
//==============================================================================

/// Settings whose output frequency lies outside `[96 MHz, 200 MHz]` never
/// pass the checks of [`Dpll::enable`].
pub proof fn lemma_output_out_of_range_refused(v: DpllView)
    requires
        !output_freq_valid(output_freq_of(v)),
    ensures
        enable_check(v) is Some,
        enable_check(v) == Some(DpllError::InputFreqOutOfRange) || enable_check(v) == Some(
            DpllError::OutputFreqOutOfRange,
        ),
{
}

/// Enabling a DPLL and disabling it at once keeps its settings: source
/// frequency, pre-divider, loop ratio and flags.
pub proof fn lemma_enable_disable_keeps_settings(v: DpllView, source: DynDpllSourceId)
    ensures
        settings_of(disabled_view(enabled_view(v, source))) == settings_of(v),
        !disabled_view(enabled_view(v, source)).ctrla.enable,
{
}

} // verus!
