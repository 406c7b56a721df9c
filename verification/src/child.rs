use std::time::Duration;
use vstd::prelude::*;

use crate::command::Command;
use crate::contrib::time::{
    duration_secs, duration_subsec_nanos, from_timeval_into_duration, timeval_fits, timeval_nanos,
    timeval_secs,
};
use crate::text::{push_signed_decimal, push_str, signed_decimal};

verus! {

/// Information about resource usage.
#[derive(Clone, Copy, Debug)]
pub struct Rusage {
    /// Wall clock time.
    pub real_time: Duration,
    /// Total amount of time spent executing in user mode.
    pub user_time: Duration,
    /// Total amount of time spent executing in kernel mode.
    pub system_time: Duration,
    /// The resident set size at its peak, in kilobytes.
    pub max_rss: i64,
}

/// What `getrusage(2)` reports of a process, as plain values: the user and
/// system times as seconds and microseconds, and the peak resident set size
/// in kilobytes.
#[derive(Clone, Copy, Debug)]
pub struct UsageTimes {
    pub user_sec: i64,
    pub user_usec: i64,
    pub system_sec: i64,
    pub system_usec: i64,
    pub max_rss: i64,
}

/// Whether `d` is the duration of the `timeval` of `sec` seconds and `usec`
/// microseconds.
pub open spec fn duration_of_timeval(d: Duration, sec: i64, usec: i64) -> bool {
    &&& duration_secs(d) == timeval_secs(sec) + timeval_nanos(usec) / 1_000_000_000
    &&& duration_subsec_nanos(d) == timeval_nanos(usec) % 1_000_000_000
}

impl Rusage {
    /// The resource usage of a process from what `getrusage(2)` reported of
    /// it and the wall clock time it ran.
    pub fn from_usage(usage: &UsageTimes, real_time: Duration) -> (r: Option<Self>)
        requires
            timeval_fits(usage.user_sec, usage.user_usec),
            timeval_fits(usage.system_sec, usage.system_usec),
        ensures
            r matches Some(u) && u.real_time == real_time && duration_of_timeval(
                u.user_time,
                usage.user_sec,
                usage.user_usec,
            ) && duration_of_timeval(u.system_time, usage.system_sec, usage.system_usec)
                && u.max_rss == usage.max_rss,
    {
        let user_time = from_timeval_into_duration(usage.user_sec, usage.user_usec);
        let system_time = from_timeval_into_duration(usage.system_sec, usage.system_usec);
        Some(Self { real_time, user_time, system_time, max_rss: usage.max_rss })
    }
}

/// Result of a process after it has terminated.
#[derive(Clone, Debug)]
pub struct ExitStatus {
    /// The exit code of the child process.
    pub code: i32,
    /// The detailed message of the code.
    pub reason: String,
    /// The exit code of the internal process.
    pub exit_code: Option<i32>,
    /// Information about resource usage of the internal process.
    pub rusage: Option<Rusage>,
}

/// How a waited-for process changed state, as `waitpid(2)` reports it.
#[derive(Clone, Debug)]
pub enum WaitStatus {
    /// The process exited with `status`.
    Exited { pid: i32, status: i32 },
    /// The process was killed by signal number `signal`, named `name`.
    Signaled { pid: i32, signal: i32, name: String, core_dumped: bool },
    /// Any other change of state.
    Other,
}

/// Exit code of success.
pub const SUCCESS: i32 = 0;

/// Exit code when the container itself fails.
pub const FAILURE: i32 = 125;

/// The reason of an exit with `status`.
pub open spec fn exited_reason(program: Seq<char>, status: i32) -> Seq<char> {
    "process("@ + program + ") exited with code "@ + signed_decimal(status as int)
}

/// The reason of a termination by the signal named `name`.
pub open spec fn signaled_reason(program: Seq<char>, name: Seq<char>) -> Seq<char> {
    "process("@ + program + ") received signal "@ + name
}

impl ExitStatus {
    /// Exit code of success.
    pub const SUCCESS: i32 = 0;

    /// Exit code when the container itself fails.
    pub const FAILURE: i32 = 125;

    /// Constructs a new ExitStatus with FAILURE code.
    pub fn new_failure(reason: &str) -> (s: Self)
        ensures
            s.code == FAILURE,
            s.reason@ == reason@,
            s.exit_code is None,
            s.rusage is None,
    {
        Self { code: FAILURE, reason: reason.to_owned(), exit_code: None, rusage: None }
    }

    /// Constructs a new ExitStatus from the wait status of the internal
    /// process of `command`: an exit keeps its code, a signal gives 128
    /// plus its number.
    pub fn from_wait_status(ws: &WaitStatus, command: &Command) -> (s: Self)
        requires
            !(ws is Other),
            ws matches WaitStatus::Signaled { signal, .. } ==> *signal <= i32::MAX - 128,
        ensures
            ws matches WaitStatus::Exited { status, .. } ==> s.code == *status && s.reason@ == exited_reason(
                command@.program,
                *status,
            ) && s.exit_code == Some(*status) && s.rusage is None,
            ws matches WaitStatus::Signaled { signal, name, .. } ==> s.code == 128 + *signal
                && s.reason@ == signaled_reason(command@.program, name@) && s.exit_code is None
                && s.rusage is None,
    {
        let program = command.get_program();
        match ws {
            WaitStatus::Exited { status, .. } => {
                let mut reason = String::new();
                push_str(&mut reason, "process(");
                push_str(&mut reason, program);
                push_str(&mut reason, ") exited with code ");
                push_signed_decimal(&mut reason, *status as i64);
                Self { code: *status, reason, exit_code: Some(*status), rusage: None }
            },
            WaitStatus::Signaled { signal, name, .. } => {
                let mut reason = String::new();
                push_str(&mut reason, "process(");
                push_str(&mut reason, program);
                push_str(&mut reason, ") received signal ");
                push_str(&mut reason, name.as_str());
                Self { code: 128 + *signal, reason, exit_code: None, rusage: None }
            },
            WaitStatus::Other => Self::new_failure("unexpected wait status"),
        }
    }

    /// The status that a waited-for container settles on: when its child
    /// was killed by `SIGKILL` the container itself was killed, which
    /// replaces whatever status was recorded; otherwise the recorded status
    /// stands.
    pub fn after_wait(killed: bool, recorded: Option<ExitStatus>) -> (s: Option<ExitStatus>)
        ensures
            killed ==> (s matches Some(x) && x.code == FAILURE && x.reason@
                == "container received signal SIGKILL"@ && x.exit_code is None && x.rusage is None),
            !killed ==> s == recorded,
    {
        if killed {
            Some(Self::new_failure("container received signal SIGKILL"))
        } else {
            recorded
        }
    }

    /// Was termination successful? Signal termination is not considered a
    /// success, and success is defined as a zero exit status of internal process.
    pub fn success(&self) -> (b: bool)
        ensures
            b == (self.code == SUCCESS),
    {
        self.code == SUCCESS
    }
}

/// `SIGKILL` in the Linux numbering.
pub const SIGKILL: i32 = 9;

/// `SIGXCPU` in the Linux numbering.
pub const SIGXCPU: i32 = 24;

/// `SIGXFSZ` in the Linux numbering.
pub const SIGXFSZ: i32 = 25;

/// `SIGSYS` in the Linux numbering.
pub const SIGSYS: i32 = 31;

/// How a sandboxed run ended.
#[derive(PartialEq, Eq, Structural, Clone, Copy, Debug)]
pub enum ExecutorResultStatus {
    /// Initial value.
    Unknown,
    /// The command exited normally, whether success or failure.
    Exited,
    /// The sandbox could not be set up.
    SandboxSetupError,
    /// The command was killed by a signal.
    Signaled,
    /// The command was killed by `SIGSYS`: a system call that seccomp
    /// forbids.
    RestrictedFunction,
    /// The command was killed by `SIGKILL` or `SIGXCPU`: a time limit.
    TimeLimitExceeded,
    /// The command was killed by `SIGXFSZ`: a file size limit.
    OutputLimitExceeded,
}

/// The status of a run that a signal ended.
pub open spec fn signal_status(signal: i32) -> ExecutorResultStatus {
    if signal == SIGKILL || signal == SIGXCPU {
        ExecutorResultStatus::TimeLimitExceeded
    } else if signal == SIGXFSZ {
        ExecutorResultStatus::OutputLimitExceeded
    } else if signal == SIGSYS {
        ExecutorResultStatus::RestrictedFunction
    } else {
        ExecutorResultStatus::Signaled
    }
}

/// A run ended by a signal counts as a time limit for `SIGKILL` (9) and
/// `SIGXCPU` (24), as a file size limit for `SIGXFSZ` (25), as a forbidden
/// system call exactly for `SIGSYS` (31), and as plainly signaled for every
/// other signal.
pub proof fn lemma_signal_status(signal: i32)
    ensures
        (signal_status(signal) == ExecutorResultStatus::TimeLimitExceeded) == (signal == 9 || signal == 24),
        (signal_status(signal) == ExecutorResultStatus::OutputLimitExceeded) == (signal == 25),
        (signal_status(signal) == ExecutorResultStatus::RestrictedFunction) == (signal == 31),
        (signal_status(signal) == ExecutorResultStatus::Signaled) == (signal != 9 && signal != 24 && signal
            != 25 && signal != 31),
{
}

/// How a sandboxed run ended: its status, the reason and the exit code.
#[derive(Clone, Debug)]
pub struct RunOutcome {
    pub status: ExecutorResultStatus,
    pub reason: String,
    pub exit_code: Option<i32>,
}

impl RunOutcome {
    /// How a sandboxed run ended, from the wait status of the command. An
    /// exit keeps its code with no reason; a signal named `name` gives
    /// `signaled: name` and 128 plus its number, with a status by the
    /// signal; any other wait status is a setup error with code 125.
    pub fn from_wait_status(ws: &WaitStatus) -> (o: Self)
        requires
            ws matches WaitStatus::Signaled { signal, .. } ==> *signal <= i32::MAX - 128,
        ensures
            ws matches WaitStatus::Exited { status, .. } ==> o.status == ExecutorResultStatus::Exited
                && o.reason@ == Seq::<char>::empty() && o.exit_code == Some(*status),
            ws matches WaitStatus::Signaled { signal, name, .. } ==> o.status == signal_status(*signal)
                && o.reason@ == "signaled: "@ + name@ && o.exit_code == Some((128 + *signal) as i32),
            ws is Other ==> o.status == ExecutorResultStatus::SandboxSetupError && o.reason@
                == "unexpected wait status"@ && o.exit_code == Some(FAILURE),
            (o.status == ExecutorResultStatus::Exited) == (ws is Exited),
            (o.status == ExecutorResultStatus::TimeLimitExceeded) == (ws matches WaitStatus::Signaled { signal, .. }
                && (*signal == 9 || *signal == 24)),
            (o.status == ExecutorResultStatus::OutputLimitExceeded) == (ws matches WaitStatus::Signaled {
                signal,
                ..
            } && *signal == 25),
            (o.status == ExecutorResultStatus::RestrictedFunction) == (ws matches WaitStatus::Signaled {
                signal,
                ..
            } && *signal == 31),
            (o.status == ExecutorResultStatus::Signaled) == (ws matches WaitStatus::Signaled { signal, .. }
                && *signal != 9 && *signal != 24 && *signal != 25 && *signal != 31),
            (o.status == ExecutorResultStatus::SandboxSetupError) == (ws is Other),
    {
        proof {
            if let WaitStatus::Signaled { signal, .. } = ws {
                lemma_signal_status(*signal);
            }
        }
        match ws {
            WaitStatus::Exited { status, .. } => {
                RunOutcome { status: ExecutorResultStatus::Exited, reason: String::new(), exit_code: Some(*status) }
            },
            WaitStatus::Signaled { signal, name, .. } => {
                let status = if *signal == SIGKILL || *signal == SIGXCPU {
                    ExecutorResultStatus::TimeLimitExceeded
                } else if *signal == SIGXFSZ {
                    ExecutorResultStatus::OutputLimitExceeded
                } else if *signal == SIGSYS {
                    ExecutorResultStatus::RestrictedFunction
                } else {
                    ExecutorResultStatus::Signaled
                };
                let mut reason = String::new();
                push_str(&mut reason, "signaled: ");
                push_str(&mut reason, name.as_str());
                RunOutcome { status, reason, exit_code: Some(128 + *signal) }
            },
            WaitStatus::Other => RunOutcome {
                status: ExecutorResultStatus::SandboxSetupError,
                reason: "unexpected wait status".to_owned(),
                exit_code: Some(FAILURE),
            },
        }
    }
}

/// The output of a finished process.
#[derive(Debug)]
pub struct Output {
    /// The status of the child process.
    pub status: ExitStatus,
    /// The data that the internal process wrote to stdout.
    pub stdout: Vec<u8>,
    /// The data that the internal process wrote to stderr.
    pub stderr: Vec<u8>,
}

} // verus!
