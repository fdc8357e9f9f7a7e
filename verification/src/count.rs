use vstd::prelude::*;

verus! {

/// The logical-processor count derived from what the platform binding
/// reports. A report of zero cannot be a processor count — at least the
/// processor answering the query exists — so the count is floored at one:
/// a best-effort minimum is preferred over failing.
pub open spec fn spec_logical_count(reported: u64) -> u64 {
    if reported >= 1 {
        reported
    } else {
        1u64
    }
}

/// The physical-core count derived from what the platform binding reports.
/// A binding that cannot determine the count reports unknown, which is a
/// valid terminal outcome, not an error; a reported count of zero cannot be
/// a core count and is likewise treated as unknown rather than handed on.
pub open spec fn spec_physical_count(reported: Option<u64>) -> Option<u64> {
    match reported {
        Some(n) => if n >= 1 {
            Some(n)
        } else {
            None
        },
        None => None,
    }
}

/// Number of logical processors, from the count the platform binding
/// reports. Never fails: an absent or zero report yields one.
pub fn logical_count(reported: u64) -> (r: u64)
    ensures
        r == spec_logical_count(reported),
        r >= 1,
{
    if reported >= 1 {
        reported
    } else {
        1
    }
}

/// Number of physical cores, or `None` where the platform binding cannot
/// determine it. The unknown outcome is first-class: it is not an error and
/// does not disturb the logical count.
pub fn physical_count(reported: Option<u64>) -> (r: Option<u64>)
    ensures
        r == spec_physical_count(reported),
{
    match reported {
        Some(n) => if n >= 1 {
            Some(n)
        } else {
            None
        },
        None => None,
    }
}

/// The processor population: a logical count of at least one, and a
/// physical count that may be unknown.
#[derive(Clone, Copy, Debug, PartialEq, Eq, Structural)]
pub struct ProcessorCount {
    logical: u64,
    physical: Option<u64>,
}

impl ProcessorCount {
    #[verifier::type_invariant]
    spec fn wf(self) -> bool {
        &&& self.logical >= 1
        &&& (self.physical matches Some(p) ==> p >= 1)
    }

    /// The logical count this population holds.
    pub closed spec fn spec_logical(self) -> u64 {
        self.logical
    }

    /// The physical count this population holds, where known.
    pub closed spec fn spec_physical(self) -> Option<u64> {
        self.physical
    }

    /// Builds the population from the two platform reports, normalizing
    /// each as `logical_count` and `physical_count` do.
    pub fn new(logical_reported: u64, physical_reported: Option<u64>) -> (r: ProcessorCount)
        ensures
            r.spec_logical() == spec_logical_count(logical_reported),
            r.spec_physical() == spec_physical_count(physical_reported),
    {
        ProcessorCount {
            logical: logical_count(logical_reported),
            physical: physical_count(physical_reported),
        }
    }

    pub fn logical(&self) -> (r: u64)
        ensures
            r == self.spec_logical(),
            r >= 1,
    {
        proof {
            use_type_invariant(self);
        }
        self.logical
    }

    pub fn physical(&self) -> (r: Option<u64>)
        ensures
            r == self.spec_physical(),
            r matches Some(p) ==> p >= 1,
    {
        proof {
            use_type_invariant(self);
        }
        self.physical
    }
}

} // verus!
