//! Configure cgroups profile.
//!
//! The api follows the OCI Runtime Spec, which uses CGroups v1 names; the
//! conversions to CGroups v2 happen when the limits are applied.

mod cpu;
mod memory;
mod pids;

pub use cpu::{Cpu, CpuView};
pub use memory::{Memory, MemoryView};
pub use pids::{Pids, PidsView};
