//! Process isolation for Linux: the configuration model of containers and
//! commands, with verified builders, orderings and encodings.

pub mod cgroups;
mod child;
mod command;
mod container;
pub mod contrib;
mod error;
pub mod etcfs;
mod fs;
mod idmap;
mod keyed;
pub mod metric;
pub mod landlock;
mod mount;
mod namespace;
mod namespaces;
pub mod network;
mod rlimit;
mod rootfs;
mod runc;
mod runctl;
mod seqs;
mod stdio;
mod text;

pub use child::{ExecutorResultStatus, ExitStatus, Output, RunOutcome, Rusage, UsageTimes, WaitStatus};
pub use command::{Command, CommandView};
pub use container::{Container, ContainerView, SETUP_NETWORK, SETUP_UGIDMAP};
pub use error::{Error, ProcessErrorKind, Result};
pub use fs::{MakeDir, MakeSymlink, Operation as FsOperation, WriteFile};
pub use idmap::IdMap;
pub use keyed::StrMap;
pub use mount::{Mount, MountOptions, MsFlags};
pub use namespace::{CloneFlags, Namespace};
pub use namespaces::Namespaces;
pub use network::{Network, Pasta};
pub use rlimit::{Resource, Rlimit};
pub use rootfs::{host_root_dirs, RootfsEntry};
pub use runc::{mainp_setup_step, MainpAction, MainpEvent, MainpState, FIN};
pub use runctl::Runctl;
pub use stdio::Stdio;
pub use text::{chars_of, str_eq, str_lt};
