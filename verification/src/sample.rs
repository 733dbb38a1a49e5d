//! Exact sample values.
//!
//! A sample is kept as the fraction `position / length` scaled by an integer
//! `gain`. The host never rounds: turning a sample into a machine float is
//! left to whoever hands the block to the hardware.

use vstd::prelude::*;

verus! {

/// One sample: the value `(position / length) * gain`.
#[derive(Clone, Copy, Debug, PartialEq, Eq, Structural)]
pub struct Sample {
    pub position: usize,
    pub length: usize,
    pub gain: usize,
}

impl Sample {
    /// Numerator of the sample's value as a fraction.
    pub open spec fn numerator(self) -> nat {
        (self.position * self.gain) as nat
    }

    /// Denominator of the sample's value as a fraction.
    pub open spec fn denominator(self) -> nat {
        self.length as nat
    }

    /// A sample is silent when its value is zero.
    pub open spec fn is_silent(self) -> bool {
        self.numerator() == 0
    }

    /// The silent sample that `silence` returns.
    pub open spec fn silent() -> Sample {
        Sample { position: 0, length: 1, gain: 0 }
    }

    /// The sample of value zero.
    pub fn silence() -> (s: Sample)
        ensures
            s == Sample::silent(),
            s.is_silent(),
    {
        Sample { position: 0, length: 1, gain: 0 }
    }

    /// The sample `(position / length) * gain`.
    pub fn scaled(position: usize, length: usize, gain: usize) -> (s: Sample)
        ensures
            s == (Sample { position, length, gain }),
    {
        Sample { position, length, gain }
    }

    /// Whether the sample's value is zero.
    pub fn is_zero(&self) -> (zero: bool)
        ensures
            zero == self.is_silent(),
    {
        proof {
            assert(self.position * self.gain == 0 <==> (self.position == 0 || self.gain == 0))
                by (nonlinear_arith);
        }
        self.position == 0 || self.gain == 0
    }
}

} // verus!
