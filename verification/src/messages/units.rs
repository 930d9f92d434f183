//! Physical units carried by configuration and state messages.
//!
//! Frequencies are whole Hertz. Levels are fixed-point decibels: the library
//! never touches binary floating point, so a level is an integer count of
//! thousandths of a decibel, which orders and subtracts exactly.

use vstd::prelude::*;

verus! {

/// Frequency in Hertz.
#[derive(Debug, Clone, Copy, PartialEq, Eq, Structural, PartialOrd, Ord, Hash)]
pub struct Hertz(pub u64);

impl Hertz {
    /// The frequency of `khz` kilohertz.
    pub fn khz(khz: u64) -> (r: Hertz)
        requires
            khz * 1_000 <= u64::MAX,
        ensures
            r.0 == khz * 1_000,
    {
        Hertz(khz * 1_000)
    }

    /// The frequency of `mhz` megahertz.
    pub fn mhz(mhz: u64) -> (r: Hertz)
        requires
            mhz * 1_000_000 <= u64::MAX,
        ensures
            r.0 == mhz * 1_000_000,
    {
        Hertz(mhz * 1_000_000)
    }

    /// The frequency of `ghz` gigahertz.
    pub fn ghz(ghz: u64) -> (r: Hertz)
        requires
            ghz * 1_000_000_000 <= u64::MAX,
        ensures
            r.0 == ghz * 1_000_000_000,
    {
        Hertz(ghz * 1_000_000_000)
    }

    /// The frequency in Hertz, as a plain number.
    pub fn as_hz(self) -> (r: u64)
        ensures
            r == self.0,
    {
        self.0
    }
}

impl From<u64> for Hertz {
    fn from(hz: u64) -> (r: Hertz) {
        Hertz(hz)
    }
}

impl vstd::std_specs::convert::FromSpecImpl<u64> for Hertz {
    open spec fn obeys_from_spec() -> bool {
        true
    }

    open spec fn from_spec(hz: u64) -> Hertz {
        Hertz(hz)
    }
}

impl From<Hertz> for u64 {
    fn from(hz: Hertz) -> (r: u64) {
        hz.0
    }
}

impl vstd::std_specs::convert::FromSpecImpl<Hertz> for u64 {
    open spec fn obeys_from_spec() -> bool {
        true
    }

    open spec fn from_spec(hz: Hertz) -> u64 {
        hz.0
    }
}

/// Thousandths of a decibel in one decibel.
pub const MILLIS_PER_DB: i32 = 1_000;

/// The lowest level the library represents, -1000 dB. It lies below the
/// level of every positive magnitude a 32-bit float can hold, and is the
/// level given to a magnitude that has no logarithm.
pub const FLOOR_MILLIDB: i32 = -1_000_000;

/// The highest level the library represents, +1000 dB.
pub const CEILING_MILLIDB: i32 = 1_000_000;

/// A level or an amplitude in decibels, held as thousandths of a decibel.
#[derive(Debug, Clone, Copy, PartialEq, Eq, Structural, PartialOrd, Ord, Hash)]
pub struct Decibels(pub i32);

/// The level that stands for a reading: the floor when the magnitude was not
/// positive, else the reading limited to the representable band.
pub open spec fn spec_level_of_reading(positive: bool, millidb: int) -> int {
    if !positive || millidb < FLOOR_MILLIDB {
        FLOOR_MILLIDB as int
    } else if millidb > CEILING_MILLIDB {
        CEILING_MILLIDB as int
    } else {
        millidb
    }
}

impl Decibels {
    /// The level in thousandths of a decibel.
    pub fn as_millidb(self) -> (r: i32)
        ensures
            r == self.0,
    {
        self.0
    }

    /// Turns a measured reading into a level. `positive` tells whether the
    /// magnitude was above zero, `millidb` is twenty times its decimal
    /// logarithm in thousandths. A magnitude that is not positive has no
    /// logarithm and gets the floor; any other reading is limited to the
    /// band between floor and ceiling.
    pub fn from_reading(positive: bool, millidb: i64) -> (r: Decibels)
        ensures
            r.0 == spec_level_of_reading(positive, millidb as int),
            FLOOR_MILLIDB <= r.0 <= CEILING_MILLIDB,
    {
        if !positive || millidb < FLOOR_MILLIDB as i64 {
            Decibels(FLOOR_MILLIDB)
        } else if millidb > CEILING_MILLIDB as i64 {
            Decibels(CEILING_MILLIDB)
        } else {
            Decibels(millidb as i32)
        }
    }
}

} // verus!
