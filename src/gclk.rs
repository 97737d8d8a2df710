//! # GCLK - Generic Clock Controller
//!
//! Twelve generic clock generators, each dividing the frequency of one
//! source. A generator is first a [`GclkConfig`], which can be tuned, and
//! becomes a [`Gclk`] when enabled. A [`Gclk`] counts the consumers that
//! depend on it and can only be disabled when that count is zero.
//!
//! Each generator's `GENCTRL` register is held as a [`Genctrl`] image inside
//! its token; the operations below say exactly which fields they change.
//! Copying an image to the silicon, and spinning on `SYNCBUSY` until
//! [`Registers::syncbusy_clear`] holds, is the business of the code that
//! owns the hardware.
use crate::pac::generic::RawReg;
use crate::source::{DfllId, Oscillator, Source, Xosc0Id, Xosc1Id, Xosc32kId};
use core::marker::PhantomData;
use vstd::arithmetic::power2::{lemma2_to64, pow2};
use vstd::prelude::*;

verus! {

/// Relies on num_traits' `AsPrimitive::<u32>::as_` for `u8`, which is the `as` cast.
#[verifier::external_body]
fn u8_as_u32(x: u8) -> (r: u32)
    ensures
        r == x as u32,
{
    num_traits::AsPrimitive::<u32>::as_(x)
}

/// Relies on num_traits' `AsPrimitive::<u32>::as_` for `u16`, which is the `as` cast.
#[verifier::external_body]
fn u16_as_u32(x: u16) -> (r: u32)
    ensures
        r == x as u32,
{
    num_traits::AsPrimitive::<u32>::as_(x)
}

/// Relies on num_traits' `AsPrimitive::<u16>::as_` for `u8`, which is the `as` cast.
#[verifier::external_body]
fn u8_as_u16(x: u8) -> (r: u16)
    ensures
        r == x as u16,
{
    num_traits::AsPrimitive::<u16>::as_(x)
}

//==============================================================================
// Registers
//==============================================================================

/// Values of the `SRC` field of `GENCTRL`: the clock that feeds a generator.
#[derive(Clone, Copy, Debug, PartialEq, Eq, Structural)]
pub enum GclkSourceEnum {
    Xosc0,
    Xosc1,
    Gclkin,
    Gclkgen1,
    Osculp32k,
    Xosc32k,
    Dfll,
    Dpll0,
    Dpll1,
}

impl GclkSourceEnum {
    /// The value written to the `SRC` field.
    pub fn bits(&self) -> (r: u8)
        ensures
            r < 9,
    {
        match self {
            GclkSourceEnum::Xosc0 => 0,
            GclkSourceEnum::Xosc1 => 1,
            GclkSourceEnum::Gclkin => 2,
            GclkSourceEnum::Gclkgen1 => 3,
            GclkSourceEnum::Osculp32k => 4,
            GclkSourceEnum::Xosc32k => 5,
            GclkSourceEnum::Dfll => 6,
            GclkSourceEnum::Dpll0 => 7,
            GclkSourceEnum::Dpll1 => 8,
        }
    }
}

/// Image of one generator's `GENCTRL` register.
#[derive(Clone, Copy, Debug, PartialEq, Eq, Structural)]
pub struct Genctrl {
    /// Source select.
    pub src: GclkSourceEnum,
    /// Generator enable.
    pub genen: bool,
    /// Improve duty cycle.
    pub idc: bool,
    /// Output off value: the pin level while the output is disabled.
    pub oov: bool,
    /// Output enable on the `GCLK_IO` pin.
    pub oe: bool,
    /// Divide selection: `false` divides by `DIV`, `true` by `2^(DIV + 1)`.
    pub divsel: bool,
    /// Division factor field.
    pub div: u16,
}

/// Division factor that the `DIVSEL` and `DIV` fields select. A `DIV` of 0
/// in direct mode means no division.
pub open spec fn genctrl_divisor(g: Genctrl) -> nat {
    if g.divsel {
        pow2((g.div + 1) as nat)
    } else if g.div == 0 {
        1
    } else {
        g.div as nat
    }
}

/// The division factor that a divider value stands for: 0 and 1 both mean
/// no division.
pub open spec fn effective_divisor(div: u32) -> nat {
    if div == 0 {
        1
    } else {
        div as nat
    }
}

/// `GENCTRL` of a generator other than 0 after reset: driven by
/// oscillator 0, stopped, undivided, output off.
pub open spec fn reset_genctrl() -> Genctrl {
    Genctrl {
        src: GclkSourceEnum::Xosc0,
        genen: false,
        idc: false,
        oov: false,
        oe: false,
        divsel: false,
        div: 0,
    }
}

/// A [`GclkToken`] equals a hardware register
pub type GclkToken<G> = Registers<G>;

/// The register interface of one generator, and the token that grants it.
///
/// Only one instance exists per generator: [`Tokens::new`] hands them out.
pub struct Registers<G: GenNum> {
    gen: PhantomData<G>,
    genctrl: Genctrl,
}

impl<G: GenNum> Registers<G> {
    /// Current image of `GENCTRL`.
    pub closed spec fn spec_genctrl(&self) -> Genctrl {
        self.genctrl
    }

    /// The fields hold a divider that [`GclkDiv`] or [`Gclk1Div`] can write.
    #[verifier::type_invariant]
    closed spec fn inv(&self) -> bool {
        self.genctrl.divsel ==> (self.genctrl.div == 7 || self.genctrl.div == 8
            || self.genctrl.div == 15 || self.genctrl.div == 16)
    }

    /// The token of a generator in its reset state, which is not running.
    fn new() -> (r: Self)
        ensures
            r.spec_genctrl() == reset_genctrl(),
    {
        Registers {
            gen: PhantomData,
            genctrl: Genctrl {
                src: GclkSourceEnum::Xosc0,
                genen: false,
                idc: false,
                oov: false,
                oe: false,
                divsel: false,
                div: 0,
            },
        }
    }

    /// Current image of `GENCTRL`.
    pub fn genctrl(&self) -> (r: Genctrl)
        ensures
            r == self.spec_genctrl(),
    {
        self.genctrl
    }

    /// Used to mask out the correct bit based on [`GenNum`]
    pub fn mask(&self) -> (r: u16)
        ensures
            r == 1u16 << (G::spec_num() as u16),
    {
        let n = G::num();
        1u16 << (n as u16)
    }

    /// Whether this generator's write synchronization has completed, given
    /// the `GENCTRL` field of `SYNCBUSY` (one bit per generator). Software
    /// that writes the hardware polls this until it holds.
    pub fn syncbusy_clear(&self, genctrl_busy: u16) -> (r: bool)
        ensures
            r == !genctrl_busy.spec_bit(G::spec_num()),
    {
        let n = G::num();
        let m = self.mask();
        proof {
            lemma_mask_u16(genctrl_busy, n as u16);
        }
        genctrl_busy & m == 0
    }

    /// Division factor that the register currently selects.
    pub fn divisor(&self) -> (r: u32)
        ensures
            r as nat == genctrl_divisor(self.spec_genctrl()),
            r >= 1,
    {
        proof {
            use_type_invariant(self);
            lemma2_to64();
        }
        if self.genctrl.divsel {
            match self.genctrl.div {
                7 => 256,
                8 => 512,
                15 => 65536,
                _ => 131072,
            }
        } else if self.genctrl.div == 0 {
            1
        } else {
            u16_as_u32(self.genctrl.div)
        }
    }

    /// Set the clock source for the [`Gclk`] generator
    fn set_source(&mut self, variant: GclkSourceEnum)
        ensures
            final(self).spec_genctrl() == (Genctrl { src: variant, ..old(self).spec_genctrl() }),
    {
        proof {
            use_type_invariant(&*self);
        }
        self.genctrl.src = variant;
    }

    /// When dividing an input clock with a odd division factor the duty-cycle is not 50-50,
    /// enabling this ensures 50-50 duty-cycle on the resulting generator clock
    fn improve_duty_cycle(&mut self, flag: bool)
        ensures
            final(self).spec_genctrl() == (Genctrl { idc: flag, ..old(self).spec_genctrl() }),
    {
        proof {
            use_type_invariant(&*self);
        }
        self.genctrl.idc = flag;
    }

    /// Enable output of the generator clock over `GCLK_IO` pins
    ///
    /// `pol` sets the "Output Off Value" (OOV): the pin level once the
    /// output is disabled again.
    fn enable_gclk_out(&mut self, pol: bool)
        ensures
            final(self).spec_genctrl() == (Genctrl {
                oe: true,
                oov: pol,
                ..old(self).spec_genctrl()
            }),
    {
        proof {
            use_type_invariant(&*self);
        }
        self.genctrl.oe = true;
        self.genctrl.oov = pol;
    }

    /// Deactivate outputting generator clock over `GCLK_IO` pins
    fn disable_gclk_out(&mut self)
        ensures
            final(self).spec_genctrl() == (Genctrl { oe: false, ..old(self).spec_genctrl() }),
    {
        proof {
            use_type_invariant(&*self);
        }
        self.genctrl.oe = false;
    }

    /// Enable the clock generator
    fn enable(&mut self)
        ensures
            final(self).spec_genctrl() == (Genctrl { genen: true, ..old(self).spec_genctrl() }),
    {
        proof {
            use_type_invariant(&*self);
        }
        self.genctrl.genen = true;
    }

    /// Disable the clock generator
    fn disable(&mut self)
        ensures
            final(self).spec_genctrl() == (Genctrl { genen: false, ..old(self).spec_genctrl() }),
    {
        proof {
            use_type_invariant(&*self);
        }
        self.genctrl.genen = false;
    }
}

proof fn lemma_mask_u16(x: u16, n: u16)
    by (bit_vector)
    requires
        n < 16,
    ensures
        ((x & (1u16 << n)) == 0) == !((x >> n) & 1u16 != 0),
{
}

impl Registers<Gen1> {
    /// [`Gclk1`] has 16 division factor bits, allowing for greater
    /// division factor
    fn set_div(&mut self, div: Gclk1Div)
        ensures
            final(self).spec_genctrl() == div.spec_apply(old(self).spec_genctrl()),
            genctrl_divisor(final(self).spec_genctrl()) == effective_divisor(div.spec_as_u32()),
    {
        proof {
            lemma2_to64();
        }
        match div {
            Gclk1Div::Div(d) => {
                // Maximum reach of DIV1 mode is 65535
                self.genctrl = Genctrl { divsel: false, div: d, ..self.genctrl };
            },
            Gclk1Div::Div2Pow16 => {
                // 2^(1 + 15) = 65536
                self.genctrl = Genctrl { divsel: true, div: 15, ..self.genctrl };
            },
            Gclk1Div::Div2Pow17 => {
                // 2^(1 + 16) = 131072
                self.genctrl = Genctrl { divsel: true, div: 16, ..self.genctrl };
            },
        }
    }
}

impl<G: NotGen1> Registers<G> {
    /// [`Gclk0`] and [`Gclk2`] to [`Gclk11`] has 8 division factor bits
    fn set_div(&mut self, div: GclkDiv)
        ensures
            final(self).spec_genctrl() == div.spec_apply(old(self).spec_genctrl()),
            genctrl_divisor(final(self).spec_genctrl()) == effective_divisor(div.spec_as_u32()),
    {
        proof {
            lemma2_to64();
        }
        match div {
            GclkDiv::Div(d) => {
                // Maximum reach of DIV1 mode is 255
                let field = u8_as_u16(d);
                self.genctrl = Genctrl { divsel: false, div: field, ..self.genctrl };
            },
            GclkDiv::Div2Pow8 => {
                // 2^(1 + 7) = 256
                self.genctrl = Genctrl { divsel: true, div: 7, ..self.genctrl };
            },
            GclkDiv::Div2Pow9 => {
                // 2^(1 + 8) = 512
                self.genctrl = Genctrl { divsel: true, div: 8, ..self.genctrl };
            },
        }
    }
}

//==============================================================================
// GenNum
//==============================================================================

/// Trait ensuring all `GenNum` has a numeric identifier
pub trait GenNum {
    spec fn spec_num() -> nat;

    fn num() -> (r: usize)
        ensures
            r as nat == Self::spec_num(),
            r < 12,
    ;
}

/// Trait allowing to pick all `GenX` except [`Gen0`]
pub trait NotGen0: GenNum {}

/// Trait allowing to pick all `GenX` except [`Gen1`]
pub trait NotGen1: GenNum {}

/// Generator 0, which drives the main clock `MCLK`.
///
/// [`NotGen0`] can be used to exclude this [`Gen0`]
pub struct Gen0;

impl NotGen1 for Gen0 {}

impl GenNum for Gen0 {
    open spec fn spec_num() -> nat {
        0
    }

    fn num() -> (r: usize) {
        0
    }
}

/// Generator 1, the only one that can feed other generators.
///
/// [`NotGen1`] can be used to exclude this [`Gen1`]
///
/// Increased division factor, see [`Gclk1Div`]
pub struct Gen1;

impl NotGen0 for Gen1 {}

impl GenNum for Gen1 {
    open spec fn spec_num() -> nat {
        1
    }

    fn num() -> (r: usize) {
        1
    }
}

/// Generic clock generator 2
///
/// Standard division factor, see [`GclkDiv`]
pub struct Gen2;

impl NotGen0 for Gen2 {}

impl NotGen1 for Gen2 {}

impl GenNum for Gen2 {
    open spec fn spec_num() -> nat {
        2
    }

    fn num() -> (r: usize) {
        2
    }
}

/// Generic clock generator 3
///
/// Standard division factor, see [`GclkDiv`]
pub struct Gen3;

impl NotGen0 for Gen3 {}

impl NotGen1 for Gen3 {}

impl GenNum for Gen3 {
    open spec fn spec_num() -> nat {
        3
    }

    fn num() -> (r: usize) {
        3
    }
}

/// Generic clock generator 4
///
/// Standard division factor, see [`GclkDiv`]
pub struct Gen4;

impl NotGen0 for Gen4 {}

impl NotGen1 for Gen4 {}

impl GenNum for Gen4 {
    open spec fn spec_num() -> nat {
        4
    }

    fn num() -> (r: usize) {
        4
    }
}

/// Generic clock generator 5
///
/// Standard division factor, see [`GclkDiv`]
pub struct Gen5;

impl NotGen0 for Gen5 {}

impl NotGen1 for Gen5 {}

impl GenNum for Gen5 {
    open spec fn spec_num() -> nat {
        5
    }

    fn num() -> (r: usize) {
        5
    }
}

/// Generic clock generator 6
///
/// Standard division factor, see [`GclkDiv`]
pub struct Gen6;

impl NotGen0 for Gen6 {}

impl NotGen1 for Gen6 {}

impl GenNum for Gen6 {
    open spec fn spec_num() -> nat {
        6
    }

    fn num() -> (r: usize) {
        6
    }
}

/// Generic clock generator 7
///
/// Standard division factor, see [`GclkDiv`]
pub struct Gen7;

impl NotGen0 for Gen7 {}

impl NotGen1 for Gen7 {}

impl GenNum for Gen7 {
    open spec fn spec_num() -> nat {
        7
    }

    fn num() -> (r: usize) {
        7
    }
}

/// Generic clock generator 8
///
/// Standard division factor, see [`GclkDiv`]
pub struct Gen8;

impl NotGen0 for Gen8 {}

impl NotGen1 for Gen8 {}

impl GenNum for Gen8 {
    open spec fn spec_num() -> nat {
        8
    }

    fn num() -> (r: usize) {
        8
    }
}

/// Generic clock generator 9
///
/// Standard division factor, see [`GclkDiv`]
pub struct Gen9;

impl NotGen0 for Gen9 {}

impl NotGen1 for Gen9 {}

impl GenNum for Gen9 {
    open spec fn spec_num() -> nat {
        9
    }

    fn num() -> (r: usize) {
        9
    }
}

/// Generic clock generator 10
///
/// Standard division factor, see [`GclkDiv`]
pub struct Gen10;

impl NotGen0 for Gen10 {}

impl NotGen1 for Gen10 {}

impl GenNum for Gen10 {
    open spec fn spec_num() -> nat {
        10
    }

    fn num() -> (r: usize) {
        10
    }
}

/// Generic clock generator 11
///
/// Standard division factor, see [`GclkDiv`]
pub struct Gen11;

impl NotGen0 for Gen11 {}

impl NotGen1 for Gen11 {}

impl GenNum for Gen11 {
    open spec fn spec_num() -> nat {
        11
    }

    fn num() -> (r: usize) {
        11
    }
}

//==============================================================================
// Div
//==============================================================================

/// Common trait for [`GclkDiv`] providing the actual division factor as a `u32`
pub trait GclkDividerT {
    spec fn spec_as_u32(&self) -> u32;

    fn as_u32(&self) -> (r: u32)
        ensures
            r == self.spec_as_u32(),
    ;
}

/// Division factor of generators 0 and 2 to 11
///
/// * `Div(u8)` expresses the divider directly; 0 and 1 both mean no division
/// * `Div2Pow8` equals a division factor of `2^8 = 256`
/// * `Div2Pow9` equals a division factor of `2^9 = 512`
///
/// In `DIVSEL` mode `DIV1` the division factor is the `DIV` field; in mode
/// `DIV2` it is `2^(1 + DIV)`.
#[derive(Clone, Copy, Debug, PartialEq, Eq, Structural)]
pub enum GclkDiv {
    Div(u8),
    Div2Pow8,
    Div2Pow9,
}

/// Division factor of generator 1
///
/// * `Div(u16)` expresses the divider directly; 0 and 1 both mean no division
/// * `Div2Pow16` equals a division factor of `2^16 = 65536`
/// * `Div2Pow17` equals a division factor of `2^17 = 131072`
#[derive(Clone, Copy, Debug, PartialEq, Eq, Structural)]
pub enum Gclk1Div {
    Div(u16),
    Div2Pow16,
    Div2Pow17,
}

impl GclkDiv {
    /// `GENCTRL` with this divider written into `DIVSEL` and `DIV`.
    pub open spec fn spec_apply(self, g: Genctrl) -> Genctrl {
        Genctrl { divsel: self.spec_divsel(), div: self.spec_div_field(), ..g }
    }

    /// `DIVSEL` value that encodes this divider.
    pub open spec fn spec_divsel(self) -> bool {
        !(self is Div)
    }

    /// `DIV` field value that encodes this divider.
    pub open spec fn spec_div_field(self) -> u16 {
        match self {
            GclkDiv::Div(d) => d as u16,
            GclkDiv::Div2Pow8 => 7,
            GclkDiv::Div2Pow9 => 8,
        }
    }
}

impl Gclk1Div {
    /// `GENCTRL` with this divider written into `DIVSEL` and `DIV`.
    pub open spec fn spec_apply(self, g: Genctrl) -> Genctrl {
        Genctrl { divsel: self.spec_divsel(), div: self.spec_div_field(), ..g }
    }

    /// `DIVSEL` value that encodes this divider.
    pub open spec fn spec_divsel(self) -> bool {
        !(self is Div)
    }

    /// `DIV` field value that encodes this divider.
    pub open spec fn spec_div_field(self) -> u16 {
        match self {
            Gclk1Div::Div(d) => d,
            Gclk1Div::Div2Pow16 => 15,
            Gclk1Div::Div2Pow17 => 16,
        }
    }
}

impl GclkDividerT for GclkDiv {
    open spec fn spec_as_u32(&self) -> u32 {
        match *self {
            GclkDiv::Div(d) => d as u32,
            GclkDiv::Div2Pow8 => 256,
            GclkDiv::Div2Pow9 => 512,
        }
    }

    fn as_u32(&self) -> (r: u32) {
        match self {
            GclkDiv::Div(div) => u8_as_u32(*div),
            GclkDiv::Div2Pow8 => 256,
            GclkDiv::Div2Pow9 => 512,
        }
    }
}

impl GclkDividerT for Gclk1Div {
    open spec fn spec_as_u32(&self) -> u32 {
        match *self {
            Gclk1Div::Div(d) => d as u32,
            Gclk1Div::Div2Pow16 => 65536,
            Gclk1Div::Div2Pow17 => 131072,
        }
    }

    fn as_u32(&self) -> (r: u32) {
        match self {
            Gclk1Div::Div(div) => u16_as_u32(*div),
            Gclk1Div::Div2Pow16 => 65536,
            Gclk1Div::Div2Pow17 => 131072,
        }
    }
}

//==============================================================================
// GclkSource
//==============================================================================

/// The kind of clock that feeds a generator, as a type.
pub trait GclkSourceType {
    spec fn spec_gclk_src() -> GclkSourceEnum;

    /// Value of the `SRC` field that selects this kind of source.
    fn gclk_src() -> (r: GclkSourceEnum)
        ensures
            r == Self::spec_gclk_src(),
    ;
}

/// A [`Source`] that generator `G` may select.
pub trait GclkSource<G: GenNum>: Source {
    type Type: GclkSourceType;
}

impl GclkSourceType for Gen1 {
    open spec fn spec_gclk_src() -> GclkSourceEnum {
        GclkSourceEnum::Gclkgen1
    }

    fn gclk_src() -> (r: GclkSourceEnum) {
        GclkSourceEnum::Gclkgen1
    }
}

impl GclkSourceType for Xosc0Id {
    open spec fn spec_gclk_src() -> GclkSourceEnum {
        GclkSourceEnum::Xosc0
    }

    fn gclk_src() -> (r: GclkSourceEnum) {
        GclkSourceEnum::Xosc0
    }
}

impl GclkSourceType for Xosc1Id {
    open spec fn spec_gclk_src() -> GclkSourceEnum {
        GclkSourceEnum::Xosc1
    }

    fn gclk_src() -> (r: GclkSourceEnum) {
        GclkSourceEnum::Xosc1
    }
}

impl GclkSourceType for Xosc32kId {
    open spec fn spec_gclk_src() -> GclkSourceEnum {
        GclkSourceEnum::Xosc32k
    }

    fn gclk_src() -> (r: GclkSourceEnum) {
        GclkSourceEnum::Xosc32k
    }
}

impl GclkSourceType for DfllId {
    open spec fn spec_gclk_src() -> GclkSourceEnum {
        GclkSourceEnum::Dfll
    }

    fn gclk_src() -> (r: GclkSourceEnum) {
        GclkSourceEnum::Dfll
    }
}

impl<G: GenNum> GclkSource<G> for Oscillator<Xosc0Id> {
    type Type = Xosc0Id;
}

impl<G: GenNum> GclkSource<G> for Oscillator<Xosc1Id> {
    type Type = Xosc1Id;
}

impl<G: GenNum> GclkSource<G> for Oscillator<Xosc32kId> {
    type Type = Xosc32kId;
}

impl<G: GenNum> GclkSource<G> for Oscillator<DfllId> {
    type Type = DfllId;
}

//==============================================================================
// GclkConfig
//==============================================================================

/// [`GclkConfig`] is a not yet enabled [`Gclk`] generic clock generator
pub struct GclkConfig<G: GenNum, T: GclkSourceType> {
    /// Unique [`GclkToken`]
    token: GclkToken<G>,
    /// Clock source feeding the [`Gclk`]
    src: PhantomData<T>,
    /// Frequency of the source
    freq: u32,
}

impl<G: GenNum, T: GclkSourceType> GclkConfig<G, T> {
    /// Frequency of the source, in Hz.
    pub closed spec fn spec_src_freq(&self) -> u32 {
        self.freq
    }

    /// The generator's `GENCTRL` image.
    pub closed spec fn spec_genctrl(&self) -> Genctrl {
        self.token.spec_genctrl()
    }

    /// Output frequency: the source frequency divided by the selected
    /// division factor.
    pub open spec fn spec_freq(&self) -> nat {
        self.spec_src_freq() as nat / genctrl_divisor(self.spec_genctrl())
    }

    /// The same configuration with the enable bit set to `genen`.
    pub closed spec fn spec_with_genen(self, genen: bool) -> Self {
        GclkConfig {
            token: Registers { gen: self.token.gen, genctrl: Genctrl { genen, ..self.token.genctrl } },
            src: self.src,
            freq: self.freq,
        }
    }

    /// Taking a [`GclkToken`] and returning a [`GclkConfig`] which when enabled becomes a [`Gclk`]
    ///
    /// Locks `source`, which is handed back with one more consumer.
    pub fn new<S: GclkSource<G, Type = T>>(token: GclkToken<G>, source: S) -> (r: (GclkConfig<G, T>, S))
        requires
            source.spec_count() < u32::MAX as nat,
        ensures
            r.0.spec_genctrl() == (Genctrl { src: T::spec_gclk_src(), ..token.spec_genctrl() }),
            r.0.spec_src_freq() == source.spec_freq(),
            r.1.spec_freq() == source.spec_freq(),
            r.1.spec_count() == source.spec_count() + 1,
    {
        let mut token = token;
        let freq = source.freq();
        token.set_source(T::gclk_src());
        let config = GclkConfig { token, src: PhantomData, freq };
        (config, source.lock())
    }

    /// Destroy the [`GclkConfig`] and return the inner [`GclkToken`]
    ///
    /// Unlocks `source`, which is handed back with one consumer less.
    pub fn free<S: GclkSource<G, Type = T>>(self, source: S) -> (r: (GclkToken<G>, S))
        requires
            source.spec_count() > 0,
        ensures
            r.0.spec_genctrl() == self.spec_genctrl(),
            r.1.spec_freq() == source.spec_freq(),
            r.1.spec_count() == source.spec_count() - 1,
    {
        (self.token, source.unlock())
    }

    /// Swap [`GclkConfig`] source
    ///
    /// Unlocks `old`, locks `new` and selects `new` in the `SRC` field; the
    /// divider and the other fields are kept.
    pub fn swap<Old: GclkSource<G, Type = T>, New: GclkSource<G>>(self, old: Old, new: New) -> (r: (
        GclkConfig<G, New::Type>,
        Old,
        New,
    ))
        requires
            old.spec_count() > 0,
            new.spec_count() < u32::MAX as nat,
        ensures
            r.0.spec_genctrl() == (Genctrl {
                src: New::Type::spec_gclk_src(),
                ..self.spec_genctrl()
            }),
            r.0.spec_src_freq() == new.spec_freq(),
            r.1.spec_freq() == old.spec_freq(),
            r.1.spec_count() == old.spec_count() - 1,
            r.2.spec_freq() == new.spec_freq(),
            r.2.spec_count() == new.spec_count() + 1,
    {
        let (token, old) = self.free(old);
        let (config, new) = GclkConfig::new(token, new);
        (config, old, new)
    }

    /// When dividing an input clock with a odd division factor the duty-cycle is not 50-50,
    /// enabling this ensures 50-50 duty-cycle on the resulting generator clock
    pub fn improve_duty_cycle(self, flag: bool) -> (r: Self)
        ensures
            r.spec_genctrl() == (Genctrl { idc: flag, ..self.spec_genctrl() }),
            r.spec_src_freq() == self.spec_src_freq(),
    {
        let mut s = self;
        s.token.improve_duty_cycle(flag);
        s
    }

    /// Current image of the generator's `GENCTRL` register.
    pub fn genctrl(&self) -> (r: Genctrl)
        ensures
            r == self.spec_genctrl(),
    {
        self.token.genctrl()
    }

    /// Returns the actual frequency of the [`Gclk`]
    ///
    /// A division factor of 0 is valid from the hardware point of view,
    /// equal to a division factor of 1, meaning "no division/passthrough"
    pub fn freq(&self) -> (r: u32)
        ensures
            r as nat == self.spec_freq(),
    {
        let div = self.token.divisor();
        self.freq / div
    }

    /// What [`GclkConfig::enable`] returns: the generator running with this
    /// configuration and no consumers.
    pub closed spec fn spec_enable(self) -> Gclk<G, T> {
        Gclk { config: self.spec_with_genen(true), count: 0 }
    }

    /// Enabling a [`GclkConfig`] results in a [`Gclk`] with no consumers
    pub fn enable(self) -> (r: Gclk<G, T>)
        ensures
            r == self.spec_enable(),
            r.spec_config() == self.spec_with_genen(true),
            r.spec_config().spec_genctrl() == (Genctrl { genen: true, ..self.spec_genctrl() }),
            r.spec_config().spec_src_freq() == self.spec_src_freq(),
            r.spec_config().spec_freq() == self.spec_freq(),
            r.spec_count() == 0,
    {
        let mut s = self;
        s.token.enable();
        Gclk::create(s, 0)
    }
}

impl<T: GclkSourceType> GclkConfig<Gen1, T> {
    /// Set the desired [`Gclk1`] clock divider
    ///
    /// See [`Gclk1Div`] for possible divider factors
    pub fn div(self, div: Gclk1Div) -> (r: Self)
        ensures
            r.spec_genctrl() == div.spec_apply(self.spec_genctrl()),
            r.spec_src_freq() == self.spec_src_freq(),
            genctrl_divisor(r.spec_genctrl()) == effective_divisor(div.spec_as_u32()),
    {
        let mut s = self;
        s.token.set_div(div);
        s
    }
}

impl<G: NotGen1, T: GclkSourceType> GclkConfig<G, T> {
    /// Set the desired [`Gclk`] clock divider
    ///
    /// See [`GclkDiv`] for possible divider factors
    pub fn div(self, div: GclkDiv) -> (r: Self)
        ensures
            r.spec_genctrl() == div.spec_apply(self.spec_genctrl()),
            r.spec_src_freq() == self.spec_src_freq(),
            genctrl_divisor(r.spec_genctrl()) == effective_divisor(div.spec_as_u32()),
    {
        let mut s = self;
        s.token.set_div(div);
        s
    }
}

impl GclkConfig<Gen0, DfllId> {
    /// Generator 0 as it comes out of reset: driven by the DFLL running at
    /// `freq` Hz, undivided and enabled.
    fn init(freq: u32) -> (r: Self)
        ensures
            r.spec_src_freq() == freq,
            r.spec_genctrl() == (Genctrl {
                src: GclkSourceEnum::Dfll,
                genen: true,
                idc: false,
                oov: false,
                oe: false,
                divsel: false,
                div: 0,
            }),
    {
        let mut token = GclkToken::<Gen0>::new();
        token.set_source(GclkSourceEnum::Dfll);
        token.enable();
        GclkConfig { token, src: PhantomData, freq }
    }
}

//==============================================================================
// Gclk
//==============================================================================

/// The [`Gclk`] generic clock generator
///
/// At creation the `count` is 0, meaning no "consumers" of this
/// [`Gclk`] exists
pub struct Gclk<G: GenNum, T: GclkSourceType> {
    config: GclkConfig<G, T>,
    count: u32,
}

/// `GclkX` aliased to `Gclk<GenX>`
pub type Gclk0<S> = Gclk<Gen0, S>;

/// `GclkX` aliased to `Gclk<GenX>`
pub type Gclk1<S> = Gclk<Gen1, S>;

impl<G: GenNum, T: GclkSourceType> Gclk<G, T> {
    /// The configuration that the generator runs with.
    pub closed spec fn spec_config(&self) -> GclkConfig<G, T> {
        self.config
    }

    pub closed spec fn spec_count(&self) -> nat {
        self.count as nat
    }

    fn create(config: GclkConfig<G, T>, count: u32) -> (r: Self)
        ensures
            r.spec_config() == config,
            r.spec_count() == count as nat,
    {
        Gclk { config, count }
    }

    /// What [`Gclk::lock`] returns.
    pub closed spec fn spec_lock(self) -> Self {
        Gclk { config: self.config, count: (self.count + 1) as u32 }
    }

    /// What [`Gclk::unlock`] returns.
    pub closed spec fn spec_unlock(self) -> Self {
        Gclk { config: self.config, count: (self.count - 1) as u32 }
    }

    /// Registers one more consumer of this generator.
    pub fn lock(self) -> (r: Self)
        requires
            self.spec_count() < u32::MAX as nat,
        ensures
            r == self.spec_lock(),
            r.spec_config() == self.spec_config(),
            r.spec_count() == self.spec_count() + 1,
    {
        Gclk::create(self.config, self.count + 1)
    }

    /// Releases one consumer of this generator.
    pub fn unlock(self) -> (r: Self)
        requires
            self.spec_count() > 0,
        ensures
            r == self.spec_unlock(),
            r.spec_config() == self.spec_config(),
            r.spec_count() == self.spec_count() - 1,
    {
        Gclk::create(self.config, self.count - 1)
    }

    /// Number of consumers that currently depend on this generator.
    pub fn count(&self) -> (r: u32)
        ensures
            r as nat == self.spec_count(),
    {
        self.count
    }

    /// Current image of the generator's `GENCTRL` register.
    pub fn genctrl(&self) -> (r: Genctrl)
        ensures
            r == self.spec_config().spec_genctrl(),
    {
        self.config.genctrl()
    }

    /// Return the frequency of the [`Gclk`]
    pub fn freq(&self) -> (r: u32)
        ensures
            r as nat == self.spec_config().spec_freq(),
    {
        self.config.freq()
    }

    /// Enable the [`Gclk`] clock output
    ///
    /// `pol` sets the "Output Off Value" which is
    /// the pin state when disabled
    pub fn enable_gclk_out(&mut self, pol: bool)
        ensures
            final(self).spec_config().spec_genctrl() == (Genctrl {
                oe: true,
                oov: pol,
                ..old(self).spec_config().spec_genctrl()
            }),
            final(self).spec_config().spec_src_freq() == old(self).spec_config().spec_src_freq(),
            final(self).spec_count() == old(self).spec_count(),
    {
        self.config.token.enable_gclk_out(pol);
    }

    /// Disable the [`Gclk`] clock output
    ///
    /// Pin state assumes the value as specified in
    /// `enable_gclk_out(pol)`
    pub fn disable_gclk_out(&mut self)
        ensures
            final(self).spec_config().spec_genctrl() == (Genctrl {
                oe: false,
                ..old(self).spec_config().spec_genctrl()
            }),
            final(self).spec_config().spec_src_freq() == old(self).spec_config().spec_src_freq(),
            final(self).spec_count() == old(self).spec_count(),
    {
        self.config.token.disable_gclk_out();
    }
}

impl Gclk<Gen0, DfllId> {
    /// Generator 0 as it comes out of reset: driven by the DFLL at `freq`
    /// Hz and held by one consumer, the main clock.
    ///
    /// There is one generator 0; this is called once, at startup.
    pub fn init(freq: u32) -> (r: Self)
        ensures
            r.spec_config().spec_src_freq() == freq,
            r.spec_config().spec_genctrl() == (Genctrl {
                src: GclkSourceEnum::Dfll,
                genen: true,
                idc: false,
                oov: false,
                oe: false,
                divsel: false,
                div: 0,
            }),
            r.spec_count() == 1,
    {
        let config = GclkConfig::init(freq);
        Gclk::create(config, 1)
    }
}

impl<G: NotGen0, T: GclkSourceType> Gclk<G, T> {
    /// What [`Gclk::disable`] returns.
    pub closed spec fn spec_disable(self) -> Result<GclkConfig<G, T>, Self> {
        if self.count == 0 {
            Ok(self.config.spec_with_genen(false))
        } else {
            Err(self)
        }
    }

    /// When [`Gclk`] is not locked it can be destroyed and the [`GclkConfig`] can be returned
    ///
    /// While a consumer holds the generator it is handed back unchanged.
    pub fn disable(self) -> (r: Result<GclkConfig<G, T>, Self>)
        ensures
            r == self.spec_disable(),
            self.spec_count() == 0 <==> r is Ok,
            r is Ok ==> r->Ok_0 == self.spec_config().spec_with_genen(false),
            r is Ok ==> r->Ok_0.spec_genctrl() == (Genctrl {
                genen: false,
                ..self.spec_config().spec_genctrl()
            }),
            r is Ok ==> r->Ok_0.spec_src_freq() == self.spec_config().spec_src_freq(),
            r is Err ==> r->Err_0 == self,
    {
        if self.count != 0 {
            return Err(self);
        }
        let mut config = self.config;
        config.token.disable();
        Ok(config)
    }
}

impl<G: GenNum, T: GclkSourceType> Source for Gclk<G, T> {
    type Id = G;

    open spec fn spec_freq(&self) -> u32 {
        self.spec_config().spec_freq() as u32
    }

    open spec fn spec_count(&self) -> nat {
        self.spec_count()
    }

    fn freq(&self) -> (r: u32) {
        self.config.freq()
    }

    fn lock(self) -> (r: Self) {
        Gclk::lock(self)
    }

    fn unlock(self) -> (r: Self) {
        Gclk::unlock(self)
    }
}

impl<G: NotGen1, T: GclkSourceType> GclkSource<G> for Gclk<Gen1, T> {
    type Type = Gen1;
}

//==============================================================================
// AnyGclk
//==============================================================================

/// Common trait for any [`Gclk`]
pub trait AnyGclk {
    /// Numeric identifier
    type GenNum: GenNum;

    /// Clock source
    type Source: GclkSourceType;
}

impl<G: GenNum, T: GclkSourceType> AnyGclk for Gclk<G, T> {
    type GenNum = G;
    type Source = T;
}

//==============================================================================
// Laws
//==============================================================================

/// A direct divider `n` of generators 0 and 2 to 11 divides by `max(n, 1)`:
/// both as the value it stands for and as the register fields it writes.
pub proof fn lemma_direct_divider(n: u8, g: Genctrl)
    ensures
        effective_divisor(GclkDiv::Div(n).spec_as_u32()) == if n == 0 {
            1
        } else {
            n as nat
        },
        genctrl_divisor(GclkDiv::Div(n).spec_apply(g)) == if n == 0 {
            1
        } else {
            n as nat
        },
{
}

/// The power-of-two dividers divide by 256 and 512 (generators 0 and 2 to
/// 11) and by 65536 and 131072 (generator 1), both as the values they stand
/// for and as the register fields they write.
pub proof fn lemma_power_of_two_dividers(g: Genctrl)
    ensures
        GclkDiv::Div2Pow8.spec_as_u32() == 256,
        GclkDiv::Div2Pow9.spec_as_u32() == 512,
        Gclk1Div::Div2Pow16.spec_as_u32() == 65536,
        Gclk1Div::Div2Pow17.spec_as_u32() == 131072,
        genctrl_divisor(GclkDiv::Div2Pow8.spec_apply(g)) == 256,
        genctrl_divisor(GclkDiv::Div2Pow9.spec_apply(g)) == 512,
        genctrl_divisor(Gclk1Div::Div2Pow16.spec_apply(g)) == 65536,
        genctrl_divisor(Gclk1Div::Div2Pow17.spec_apply(g)) == 131072,
{
    lemma2_to64();
}

/// After [`GclkConfig::div`] the frequency is the source frequency divided
/// by the divider's value; a divider of 0 or 1 passes the source through.
pub proof fn lemma_freq_after_div<G: NotGen1, T: GclkSourceType>(
    c: GclkConfig<G, T>,
    d: GclkDiv,
    r: GclkConfig<G, T>,
)
    requires
        r.spec_genctrl() == d.spec_apply(c.spec_genctrl()),
        r.spec_src_freq() == c.spec_src_freq(),
    ensures
        r.spec_freq() == c.spec_src_freq() as nat / effective_divisor(d.spec_as_u32()),
        d.spec_as_u32() <= 1 ==> r.spec_freq() == c.spec_src_freq() as nat,
{
    lemma2_to64();
    let x = c.spec_src_freq() as nat;
    assert(x / 1 == x) by (nonlinear_arith);
}

/// After [`GclkConfig::div`] on generator 1 the frequency is the source
/// frequency divided by the divider's value; a divider of 0 or 1 passes the
/// source through.
pub proof fn lemma_gclk1_freq_after_div<T: GclkSourceType>(
    c: GclkConfig<Gen1, T>,
    d: Gclk1Div,
    r: GclkConfig<Gen1, T>,
)
    requires
        r.spec_genctrl() == d.spec_apply(c.spec_genctrl()),
        r.spec_src_freq() == c.spec_src_freq(),
    ensures
        r.spec_freq() == c.spec_src_freq() as nat / effective_divisor(d.spec_as_u32()),
        d.spec_as_u32() <= 1 ==> r.spec_freq() == c.spec_src_freq() as nat,
{
    lemma2_to64();
    let x = c.spec_src_freq() as nat;
    assert(x / 1 == x) by (nonlinear_arith);
}

/// A generator that a consumer has locked cannot be disabled; once the
/// consumer unlocks it again, disabling succeeds and yields the
/// configuration with the generator stopped.
pub proof fn lemma_lock_blocks_disable<G: NotGen0, T: GclkSourceType>(g: Gclk<G, T>)
    requires
        g.spec_count() == 0,
    ensures
        g.spec_lock().spec_disable() is Err,
        g.spec_lock().spec_unlock() == g,
        g.spec_lock().spec_unlock().spec_disable() == Ok::<GclkConfig<G, T>, Gclk<G, T>>(
            g.spec_config().spec_with_genen(false),
        ),
{
}

/// Enabling a stopped configuration and disabling the generator at once
/// gives back the same configuration: same source, divider, flags and
/// source frequency.
pub proof fn lemma_enable_disable_round_trip<G: NotGen0, T: GclkSourceType>(c: GclkConfig<G, T>)
    requires
        !c.spec_genctrl().genen,
    ensures
        c.spec_enable().spec_disable() == Ok::<GclkConfig<G, T>, Gclk<G, T>>(c),
{
    assert(c.spec_enable().spec_disable() == Ok::<GclkConfig<G, T>, Gclk<G, T>>(c.spec_with_genen(true).spec_with_genen(false)));
    assert(c.spec_with_genen(true).spec_with_genen(false).token.genctrl == c.token.genctrl);
}

//==============================================================================
// Tokens
//==============================================================================

/// [`Gclk`] tokens ensuring there only exists one instance of each [`Gclk`]
///
/// Generator 0 is not among them: it runs from reset, see [`Gclk::init`].
pub struct Tokens {
    pub gclk1: GclkToken<Gen1>,
    pub gclk2: GclkToken<Gen2>,
    pub gclk3: GclkToken<Gen3>,
    pub gclk4: GclkToken<Gen4>,
    pub gclk5: GclkToken<Gen5>,
    pub gclk6: GclkToken<Gen6>,
    pub gclk7: GclkToken<Gen7>,
    pub gclk8: GclkToken<Gen8>,
    pub gclk9: GclkToken<Gen9>,
    pub gclk10: GclkToken<Gen10>,
    pub gclk11: GclkToken<Gen11>,
}

impl Tokens {
    /// All tokens, each for a generator in its reset state.
    ///
    /// Called once, at startup: a second set would give two owners to
    /// the same registers.
    pub fn new() -> (r: Self)
        ensures
            r.gclk1.spec_genctrl() == reset_genctrl(),
            r.gclk2.spec_genctrl() == reset_genctrl(),
            r.gclk3.spec_genctrl() == reset_genctrl(),
            r.gclk4.spec_genctrl() == reset_genctrl(),
            r.gclk5.spec_genctrl() == reset_genctrl(),
            r.gclk6.spec_genctrl() == reset_genctrl(),
            r.gclk7.spec_genctrl() == reset_genctrl(),
            r.gclk8.spec_genctrl() == reset_genctrl(),
            r.gclk9.spec_genctrl() == reset_genctrl(),
            r.gclk10.spec_genctrl() == reset_genctrl(),
            r.gclk11.spec_genctrl() == reset_genctrl(),
    {
        Tokens {
            gclk1: GclkToken::new(),
            gclk2: GclkToken::new(),
            gclk3: GclkToken::new(),
            gclk4: GclkToken::new(),
            gclk5: GclkToken::new(),
            gclk6: GclkToken::new(),
            gclk7: GclkToken::new(),
            gclk8: GclkToken::new(),
            gclk9: GclkToken::new(),
            gclk10: GclkToken::new(),
            gclk11: GclkToken::new(),
        }
    }
}

} // verus!
