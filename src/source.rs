//! What a clock source offers the nodes that it feeds: its frequency, its
//! identity and a count of the consumers that hold it.
use core::marker::PhantomData;
use vstd::prelude::*;

verus! {

/// A running clock that other nodes may lock onto.
///
/// The count is the number of downstream consumers that currently depend
/// on the source. Locking and unlocking change the count and nothing else
/// that the contracts can see.
pub trait Source: Sized {
    /// Identity of the source, as a type.
    type Id;

    spec fn spec_freq(&self) -> u32;

    spec fn spec_count(&self) -> nat;

    /// Current output frequency, in Hz.
    fn freq(&self) -> (r: u32)
        ensures
            r == self.spec_freq(),
    ;

    /// Registers one more consumer.
    fn lock(self) -> (r: Self)
        requires
            self.spec_count() < u32::MAX as nat,
        ensures
            r.spec_freq() == self.spec_freq(),
            r.spec_count() == self.spec_count() + 1,
    ;

    /// Releases one consumer.
    fn unlock(self) -> (r: Self)
        requires
            self.spec_count() > 0,
        ensures
            r.spec_freq() == self.spec_freq(),
            r.spec_count() == self.spec_count() - 1,
    ;
}

/// Identity of external crystal oscillator 0.
pub struct Xosc0Id;

/// Identity of external crystal oscillator 1.
pub struct Xosc1Id;

/// Identity of the 32 kHz external oscillator.
pub struct Xosc32kId;

/// Identity of the digital frequency-locked loop, which drives generator 0
/// out of reset.
pub struct DfllId;

/// An enabled oscillator, as its driver hands it to the clock tree: its
/// frequency and the number of consumers that hold it.
pub struct Oscillator<I> {
    freq: u32,
    count: u32,
    id: PhantomData<I>,
}

impl<I> Oscillator<I> {
    /// An enabled oscillator running at `freq` Hz, with no consumers.
    pub fn new(freq: u32) -> (r: Self)
        ensures
            r.spec_freq() == freq,
            r.spec_count() == 0,
    {
        Oscillator { freq, count: 0, id: PhantomData }
    }

    /// Number of consumers that hold the oscillator.
    pub fn count(&self) -> (r: u32)
        ensures
            r as nat == self.spec_count(),
    {
        self.count
    }
}

impl<I> Source for Oscillator<I> {
    type Id = I;

    closed spec fn spec_freq(&self) -> u32 {
        self.freq
    }

    closed spec fn spec_count(&self) -> nat {
        self.count as nat
    }

    fn freq(&self) -> (r: u32) {
        self.freq
    }

    fn lock(self) -> (r: Self) {
        Oscillator { freq: self.freq, count: self.count + 1, id: PhantomData }
    }

    fn unlock(self) -> (r: Self) {
        Oscillator { freq: self.freq, count: self.count - 1, id: PhantomData }
    }
}

} // verus!
