//! Normalized host metrics: the translation of raw operating-system
//! performance counters into immutable, unit-typed snapshot values.
//!
//! The platform's native queries live outside this crate; every operation
//! here takes the raw outcome of one such query — its status, the last-error
//! code captured right after it, and the structure it filled — and maps it
//! into the typed result objects `CpuTime`, `ProcessorCount`, `Memory` and
//! `Swap`, or into the one error this layer reports.

pub mod count;
pub mod error;
pub mod memory;
pub mod times;
pub mod units;

pub use count::ProcessorCount;
pub use count::logical_count;
pub use count::physical_count;
pub use error::Error;
pub use memory::Memory;
pub use memory::MemorySnapshot;
pub use memory::RawMemoryStatus;
pub use memory::Swap;
pub use times::CpuTime;
pub use times::RawFileTime;
pub use times::RawProcessorTimes;
pub use times::RawSystemTimes;
pub use units::Information;
pub use units::Time;
