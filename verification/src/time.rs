//! Frequencies and bit rates as plain integer newtypes.

use vstd::prelude::*;

verus! {

/// A frequency in hertz.
#[derive(Clone, Copy, PartialEq, Eq, Structural)]
pub struct Hertz {
    raw: u32,
}

impl Hertz {
    /// The frequency, in hertz.
    pub closed spec fn hz(self) -> nat {
        self.raw as nat
    }

    /// The frequency of `raw` hertz, in specifications.
    pub closed spec fn spec_from_raw(raw: u32) -> Hertz {
        Hertz { raw }
    }

    /// Two frequencies are the same value exactly when they count the same
    /// number of hertz.
    pub proof fn lemma_hz(self, raw: u32)
        ensures
            Self::spec_from_raw(raw).hz() == raw,
            (self.hz() == raw) <==> (self == Self::spec_from_raw(raw)),
    {
    }

    /// A frequency of `raw` hertz.
    #[verifier::when_used_as_spec(spec_from_raw)]
    pub fn from_raw(raw: u32) -> (r: Hertz)
        ensures
            r == Self::spec_from_raw(raw),
            r.hz() == raw,
    {
        Hertz { raw }
    }

    /// The frequency in hertz.
    #[allow(non_snake_case)]
    pub fn to_Hz(&self) -> (r: u32)
        ensures
            r == self.hz(),
    {
        self.raw
    }

    /// The frequency in hertz; the same number as [`to_Hz`](Self::to_Hz).
    pub fn raw(&self) -> (r: u32)
        ensures
            r == self.hz(),
    {
        self.raw
    }
}

/// A bit rate in bits per second.
#[derive(Clone, Copy, PartialEq, Eq, Structural)]
pub struct Bps {
    raw: u32,
}

impl Bps {
    /// The rate, in bits per second.
    pub closed spec fn bps(self) -> nat {
        self.raw as nat
    }

    /// The rate of `raw` bits per second, in specifications.
    pub closed spec fn spec_from_raw(raw: u32) -> Bps {
        Bps { raw }
    }

    /// A rate of `raw` bits per second.
    #[verifier::when_used_as_spec(spec_from_raw)]
    pub fn from_raw(raw: u32) -> (r: Bps)
        ensures
            r == Self::spec_from_raw(raw),
            r.bps() == raw,
    {
        Bps { raw }
    }

    /// The rate in bits per second.
    pub fn to_raw(&self) -> (r: u32)
        ensures
            r == self.bps(),
    {
        self.raw
    }
}

} // verus!
