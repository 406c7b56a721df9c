//! Memory usage of the internal process, as procfs reports it.

mod proc_pid_status;
mod smaps_rollup;

pub use proc_pid_status::{ProcPidStatus, StatusFields};
pub use smaps_rollup::{rollup_value, SmapsRollup};
