use vstd::prelude::*;

use crate::error::Error;
use crate::units::Information;

verus! {

/// The raw memory-status structure as one native query fills it: physical
/// and page-file totals with their available shares, in bytes. The whole
/// structure is filled by a single call, so its fields never mix data from
/// two different reads.
#[derive(Clone, Copy, Debug, PartialEq, Eq, Structural)]
pub struct RawMemoryStatus {
    pub total_phys: u64,
    pub avail_phys: u64,
    pub total_page_file: u64,
    pub avail_page_file: u64,
}

/// An available share pinned below its total. A report in which more is
/// available than exists describes no reachable hardware state; such an
/// anomaly is pinned to the total rather than handed on.
pub open spec fn spec_pinned(avail: int, total: int) -> int {
    if avail <= total {
        avail
    } else {
        total
    }
}

/// One successful read's worth of memory counters, with each available
/// share pinned below its total. Both the RAM and the swap view project
/// from one value of this type, so the two stay mutually consistent.
#[derive(Clone, Copy, Debug, PartialEq, Eq, Structural)]
pub struct MemorySnapshot {
    total_phys: u64,
    avail_phys: u64,
    total_page_file: u64,
    avail_page_file: u64,
}

impl MemorySnapshot {
    #[verifier::type_invariant]
    spec fn wf(self) -> bool {
        &&& self.avail_phys <= self.total_phys
        &&& self.avail_page_file <= self.total_page_file
    }

    /// Bytes of physical memory.
    pub closed spec fn spec_total_phys(self) -> int {
        self.total_phys as int
    }

    /// Bytes of physical memory available for use.
    pub closed spec fn spec_avail_phys(self) -> int {
        self.avail_phys as int
    }

    /// Bytes the page file can hold in all.
    pub closed spec fn spec_total_page_file(self) -> int {
        self.total_page_file as int
    }

    /// Bytes of page file not in use.
    pub closed spec fn spec_avail_page_file(self) -> int {
        self.avail_page_file as int
    }

    /// Normalizes one raw read into a snapshot, pinning each available
    /// share below its total.
    pub fn from_raw(raw: RawMemoryStatus) -> (r: MemorySnapshot)
        ensures
            r.spec_total_phys() == raw.total_phys as int,
            r.spec_avail_phys() == spec_pinned(raw.avail_phys as int, raw.total_phys as int),
            r.spec_total_page_file() == raw.total_page_file as int,
            r.spec_avail_page_file() == spec_pinned(
                raw.avail_page_file as int,
                raw.total_page_file as int,
            ),
    {
        let avail_phys = if raw.avail_phys <= raw.total_phys {
            raw.avail_phys
        } else {
            raw.total_phys
        };
        let avail_page_file = if raw.avail_page_file <= raw.total_page_file {
            raw.avail_page_file
        } else {
            raw.total_page_file
        };
        MemorySnapshot {
            total_phys: raw.total_phys,
            avail_phys,
            total_page_file: raw.total_page_file,
            avail_page_file,
        }
    }
}

/// Interprets the outcome of the one native memory query: `status` is the
/// call's return value, zero meaning failure, and `last_error` is the
/// platform error code captured right after the call. The caller must have
/// size-initialized the native structure before the call; only a read whose
/// call succeeded ever becomes a snapshot, so no uninitialized buffer is
/// ever interpreted as data.
pub fn memory_status(status: u32, last_error: i32, raw: RawMemoryStatus) -> (r: Result<
    MemorySnapshot,
    Error,
>)
    ensures
        status == 0 ==> r == Err::<MemorySnapshot, Error>(Error::OsCallFailed(last_error)),
        status != 0 ==> {
            &&& r is Ok
            &&& r->Ok_0.spec_total_phys() == raw.total_phys as int
            &&& r->Ok_0.spec_avail_phys() == spec_pinned(
                raw.avail_phys as int,
                raw.total_phys as int,
            )
            &&& r->Ok_0.spec_total_page_file() == raw.total_page_file as int
            &&& r->Ok_0.spec_avail_page_file() == spec_pinned(
                raw.avail_page_file as int,
                raw.total_page_file as int,
            )
        },
{
    if status == 0 {
        Err(Error::OsCallFailed(last_error))
    } else {
        Ok(MemorySnapshot::from_raw(raw))
    }
}

/// The RAM view over one snapshot. `free` is defined as `available`: this
/// binding does not distinguish unused from merely reclaimable memory, on
/// purpose.
#[derive(Clone, Copy, Debug, PartialEq, Eq, Structural)]
pub struct Memory(MemorySnapshot);

impl Memory {
    /// Bytes of physical memory.
    pub closed spec fn spec_total(self) -> int {
        self.0.spec_total_phys()
    }

    /// Bytes of physical memory available for use.
    pub closed spec fn spec_available(self) -> int {
        self.0.spec_avail_phys()
    }

    /// Bytes of free physical memory: the same figure as `available`.
    pub closed spec fn spec_free(self) -> int {
        self.spec_available()
    }

    pub fn total(&self) -> (r: Information)
        ensures
            r.spec_bytes() == self.spec_total(),
    {
        Information::new(self.0.total_phys)
    }

    pub fn available(&self) -> (r: Information)
        ensures
            r.spec_bytes() == self.spec_available(),
            0 <= self.spec_available() <= self.spec_total(),
    {
        proof {
            use_type_invariant(self.0);
        }
        Information::new(self.0.avail_phys)
    }

    pub fn free(&self) -> (r: Information)
        ensures
            r.spec_bytes() == self.spec_free(),
    {
        self.available()
    }
}

/// The swap (page file) view over one snapshot, with `used` derived from
/// the same read as `total` and `free`.
#[derive(Clone, Copy, Debug, PartialEq, Eq, Structural)]
pub struct Swap(MemorySnapshot);

impl Swap {
    /// Bytes the page file can hold in all.
    pub closed spec fn spec_total(self) -> int {
        self.0.spec_total_page_file()
    }

    /// Bytes of page file not in use.
    pub closed spec fn spec_free(self) -> int {
        self.0.spec_avail_page_file()
    }

    /// Bytes of page file in use: total less free.
    pub closed spec fn spec_used(self) -> int {
        self.spec_total() - self.spec_free()
    }

    pub fn total(&self) -> (r: Information)
        ensures
            r.spec_bytes() == self.spec_total(),
    {
        Information::new(self.0.total_page_file)
    }

    pub fn free(&self) -> (r: Information)
        ensures
            r.spec_bytes() == self.spec_free(),
    {
        Information::new(self.0.avail_page_file)
    }

    pub fn used(&self) -> (r: Information)
        ensures
            r.spec_bytes() == self.spec_used(),
            self.spec_used() == self.spec_total() - self.spec_free(),
            0 <= self.spec_used() <= self.spec_total(),
    {
        proof {
            use_type_invariant(self.0);
        }
        self.total().saturating_sub(self.free())
    }
}

/// Acquires the RAM view: interprets one native read's outcome as
/// `memory_status` does and projects the snapshot as `Memory`.
pub fn memory(status: u32, last_error: i32, raw: RawMemoryStatus) -> (r: Result<Memory, Error>)
    ensures
        status == 0 ==> r == Err::<Memory, Error>(Error::OsCallFailed(last_error)),
        status != 0 ==> {
            &&& r is Ok
            &&& r->Ok_0.spec_total() == raw.total_phys as int
            &&& r->Ok_0.spec_available() == spec_pinned(
                raw.avail_phys as int,
                raw.total_phys as int,
            )
            &&& r->Ok_0.spec_free() == r->Ok_0.spec_available()
        },
{
    match memory_status(status, last_error, raw) {
        Ok(snapshot) => Ok(Memory(snapshot)),
        Err(e) => Err(e),
    }
}

/// Acquires the swap view: interprets one native read's outcome as
/// `memory_status` does and projects the snapshot as `Swap`.
pub fn swap(status: u32, last_error: i32, raw: RawMemoryStatus) -> (r: Result<Swap, Error>)
    ensures
        status == 0 ==> r == Err::<Swap, Error>(Error::OsCallFailed(last_error)),
        status != 0 ==> {
            &&& r is Ok
            &&& r->Ok_0.spec_total() == raw.total_page_file as int
            &&& r->Ok_0.spec_free() == spec_pinned(
                raw.avail_page_file as int,
                raw.total_page_file as int,
            )
            &&& r->Ok_0.spec_used() == r->Ok_0.spec_total() - r->Ok_0.spec_free()
        },
{
    match memory_status(status, last_error, raw) {
        Ok(snapshot) => Ok(Swap(snapshot)),
        Err(e) => Err(e),
    }
}

/// Every RAM view built from a read keeps `available` between zero and
/// `total`, and its `free` figure is exactly its `available` figure: the
/// view a successful `memory` call returns carries exactly the pinned
/// available share this lemma bounds.
pub proof fn lemma_memory_bounds(raw: RawMemoryStatus)
    ensures
        0 <= spec_pinned(raw.avail_phys as int, raw.total_phys as int) <= raw.total_phys as int,
        forall|m: Memory| #[trigger] m.spec_free() == m.spec_available(),
{
}

/// Both swap figures of one view come from one read, so the derived
/// figure is consistent: for the view a successful `swap` call returns,
/// `used` is exactly `total` less `free`, and never negative, since the
/// free share is pinned below the total.
pub proof fn lemma_swap_used_consistent(raw: RawMemoryStatus)
    ensures
        raw.total_page_file as int - spec_pinned(
            raw.avail_page_file as int,
            raw.total_page_file as int,
        ) >= 0,
        forall|s: Swap| #[trigger] s.spec_used() == s.spec_total() - s.spec_free(),
{
}

} // verus!
