use vstd::prelude::*;

use crate::count::spec_logical_count;
use crate::error::Error;
use crate::units::Time;

verus! {

/// One raw time counter as the platform hands it out: a 64-bit count of
/// 100-nanosecond ticks split into two 32-bit halves.
#[derive(Clone, Copy, Debug, PartialEq, Eq, Structural)]
pub struct RawFileTime {
    pub low: u32,
    pub high: u32,
}

impl RawFileTime {
    /// The 64-bit tick count that the two halves encode.
    pub open spec fn spec_ticks(self) -> int {
        self.high * 0x1_0000_0000 + self.low
    }

    /// Joins the two halves into the tick count they encode.
    pub fn ticks(self) -> (r: u64)
        ensures
            r as int == self.spec_ticks(),
    {
        (self.high as u64) * 0x1_0000_0000u64 + (self.low as u64)
    }
}

/// The three aggregate counters one native time query fills: cumulative
/// idle, kernel and user time since boot, across all processors. Kernel
/// time as reported includes idle time.
#[derive(Clone, Copy, Debug, PartialEq, Eq, Structural)]
pub struct RawSystemTimes {
    pub idle: RawFileTime,
    pub kernel: RawFileTime,
    pub user: RawFileTime,
}

/// One logical processor's raw cumulative counters, in 100-nanosecond
/// ticks, as the bulk per-processor query reports them. Kernel time as
/// reported includes idle time.
#[derive(Clone, Copy, Debug, PartialEq, Eq, Structural)]
pub struct RawProcessorTimes {
    pub idle: u64,
    pub kernel: u64,
    pub user: u64,
}

/// The system bucket in ticks: kernel time with the idle share taken back
/// out, since the platform folds idle time into its kernel counter. A
/// report in which idle exceeds kernel describes no reachable hardware
/// state; such an anomaly yields zero rather than a wrapped value.
pub open spec fn spec_system_ticks(idle: int, kernel: int) -> int {
    if idle <= kernel {
        kernel - idle
    } else {
        0
    }
}

/// An immutable snapshot of processor time, split into user, system and
/// idle buckets. Created fresh on each acquisition; never mutated after.
#[derive(Clone, Copy, Debug, PartialEq, Eq, Structural)]
pub struct CpuTime {
    user: Time,
    system: Time,
    idle: Time,
}

impl CpuTime {
    /// Ticks spent executing user code.
    pub closed spec fn spec_user(self) -> int {
        self.user.spec_ticks()
    }

    /// Ticks spent executing privileged code, idle share excluded.
    pub closed spec fn spec_system(self) -> int {
        self.system.spec_ticks()
    }

    /// Ticks spent executing nothing.
    pub closed spec fn spec_idle(self) -> int {
        self.idle.spec_ticks()
    }

    /// Builds one snapshot from raw cumulative counters, applying the
    /// idle-subtraction rule to the kernel counter.
    pub fn from_raw_ticks(idle: u64, kernel: u64, user: u64) -> (r: CpuTime)
        ensures
            r.spec_user() == user as int,
            r.spec_idle() == idle as int,
            r.spec_system() == spec_system_ticks(idle as int, kernel as int),
    {
        let idle_time = Time::from_ticks(idle);
        let kernel_time = Time::from_ticks(kernel);
        CpuTime {
            user: Time::from_ticks(user),
            system: kernel_time.saturating_sub(idle_time),
            idle: idle_time,
        }
    }

    pub fn user(&self) -> (r: Time)
        ensures
            r.spec_ticks() == self.spec_user(),
    {
        self.user
    }

    pub fn system(&self) -> (r: Time)
        ensures
            r.spec_ticks() == self.spec_system(),
    {
        self.system
    }

    pub fn idle(&self) -> (r: Time)
        ensures
            r.spec_ticks() == self.spec_idle(),
    {
        self.idle
    }
}

/// Interprets the outcome of the aggregate time query: `status` is the
/// call's return value, zero meaning failure, and `last_error` is the
/// platform error code captured right after the call. On failure the error
/// surfaces at once and no partial result is returned; on success the three
/// raw counters become one combined snapshot.
pub fn time(status: u32, last_error: i32, raw: RawSystemTimes) -> (r: Result<CpuTime, Error>)
    ensures
        status == 0 ==> r == Err::<CpuTime, Error>(Error::OsCallFailed(last_error)),
        status != 0 ==> {
            &&& r is Ok
            &&& r->Ok_0.spec_user() == raw.user.spec_ticks()
            &&& r->Ok_0.spec_idle() == raw.idle.spec_ticks()
            &&& r->Ok_0.spec_system() == spec_system_ticks(
                raw.idle.spec_ticks(),
                raw.kernel.spec_ticks(),
            )
        },
{
    if status == 0 {
        Err(Error::OsCallFailed(last_error))
    } else {
        Ok(CpuTime::from_raw_ticks(raw.idle.ticks(), raw.kernel.ticks(), raw.user.ticks()))
    }
}

/// Interprets the outcome of the bulk per-processor time query: `nt_status`
/// is the call's status code, zero meaning success. On failure the single
/// error is the whole result — per-element failures cannot occur, since all
/// data comes from the one bulk read. On success every entry is normalized
/// independently by the same idle-subtraction rule, one snapshot per
/// logical processor in the platform's enumeration order.
pub fn times(nt_status: i32, procs: Vec<RawProcessorTimes>) -> (r: Result<Vec<CpuTime>, Error>)
    ensures
        nt_status != 0 ==> r == Err::<Vec<CpuTime>, Error>(Error::OsCallFailed(nt_status)),
        nt_status == 0 ==> {
            &&& r is Ok
            &&& r->Ok_0@.len() == procs@.len()
            &&& forall|i: int|
                0 <= i < procs@.len() ==> {
                    &&& (#[trigger] r->Ok_0@[i]).spec_user() == procs@[i].user as int
                    &&& r->Ok_0@[i].spec_idle() == procs@[i].idle as int
                    &&& r->Ok_0@[i].spec_system() == spec_system_ticks(
                        procs@[i].idle as int,
                        procs@[i].kernel as int,
                    )
                }
        },
{
    if nt_status != 0 {
        return Err(Error::OsCallFailed(nt_status));
    }
    let mut out: Vec<CpuTime> = Vec::new();
    let mut i: usize = 0;
    while i < procs.len()
        invariant
            i <= procs.len(),
            out@.len() == i as int,
            forall|j: int|
                0 <= j < i ==> {
                    &&& (#[trigger] out@[j]).spec_user() == procs@[j].user as int
                    &&& out@[j].spec_idle() == procs@[j].idle as int
                    &&& out@[j].spec_system() == spec_system_ticks(
                        procs@[j].idle as int,
                        procs@[j].kernel as int,
                    )
                },
        decreases procs@.len() - i,
    {
        let p = procs[i];
        out.push(CpuTime::from_raw_ticks(p.idle, p.kernel, p.user));
        i += 1;
    }
    Ok(out)
}

/// For raw counters in which idle does not exceed kernel — the shape a
/// correctly functioning platform reports — the system bucket is exactly
/// the kernel time less the idle time, and never negative.
pub proof fn lemma_system_is_kernel_less_idle(idle: int, kernel: int)
    requires
        0 <= idle <= kernel,
    ensures
        spec_system_ticks(idle, kernel) == kernel - idle,
        spec_system_ticks(idle, kernel) >= 0,
{
}

/// The bulk per-processor query and the logical-processor count agree when
/// both reflect the same hardware state — one raw entry per logical
/// processor, of which there is at least one. The bulk query then yields
/// exactly as many snapshots as the count reports.
pub proof fn lemma_times_matches_logical_count(procs: Seq<RawProcessorTimes>, reported: u64)
    requires
        procs.len() == reported as int,
        reported >= 1,
    ensures
        procs.len() == spec_logical_count(reported) as int,
{
}

} // verus!
