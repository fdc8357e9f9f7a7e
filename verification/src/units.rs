use vstd::prelude::*;

verus! {

/// A span of processor time, held as a count of 100-nanosecond ticks — the
/// resolution in which the platform reports its time-in-state counters.
#[derive(Clone, Copy, Debug, PartialEq, Eq, Structural)]
pub struct Time {
    ticks: u64,
}

impl Time {
    /// The tick count as a mathematical integer.
    pub closed spec fn spec_ticks(self) -> int {
        self.ticks as int
    }

    pub fn from_ticks(ticks: u64) -> (r: Time)
        ensures
            r.spec_ticks() == ticks as int,
    {
        Time { ticks }
    }

    pub fn ticks(&self) -> (r: u64)
        ensures
            r as int == self.spec_ticks(),
    {
        self.ticks
    }

    /// Difference of two spans; a difference that would fall below zero
    /// comes out as zero instead of wrapping.
    pub fn saturating_sub(self, other: Time) -> (r: Time)
        ensures
            r.spec_ticks() == if other.spec_ticks() <= self.spec_ticks() {
                self.spec_ticks() - other.spec_ticks()
            } else {
                0
            },
    {
        if other.ticks <= self.ticks {
            Time { ticks: self.ticks - other.ticks }
        } else {
            Time { ticks: 0 }
        }
    }
}

/// An amount of storage, held as a count of bytes.
#[derive(Clone, Copy, Debug, PartialEq, Eq, Structural)]
pub struct Information {
    bytes: u64,
}

impl Information {
    /// The byte count as a mathematical integer.
    pub closed spec fn spec_bytes(self) -> int {
        self.bytes as int
    }

    pub fn new(bytes: u64) -> (r: Information)
        ensures
            r.spec_bytes() == bytes as int,
    {
        Information { bytes }
    }

    pub fn bytes(&self) -> (r: u64)
        ensures
            r as int == self.spec_bytes(),
    {
        self.bytes
    }

    /// Difference of two amounts; a difference that would fall below zero
    /// comes out as zero instead of wrapping.
    pub fn saturating_sub(self, other: Information) -> (r: Information)
        ensures
            r.spec_bytes() == if other.spec_bytes() <= self.spec_bytes() {
                self.spec_bytes() - other.spec_bytes()
            } else {
                0
            },
    {
        if other.bytes <= self.bytes {
            Information { bytes: self.bytes - other.bytes }
        } else {
            Information { bytes: 0 }
        }
    }
}

} // verus!
