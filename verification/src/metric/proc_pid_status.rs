use vstd::prelude::*;

verus! {

/// The memory fields of `/proc/[pid]/status` as procfs parsed them, each
/// absent when the kernel did not report it.
#[derive(Clone, Copy, Debug)]
pub struct StatusFields {
    pub vmpeak: Option<u64>,
    pub vmsize: Option<u64>,
    pub vmhwm: Option<u64>,
    pub vmrss: Option<u64>,
    pub vmdata: Option<u64>,
    pub vmstk: Option<u64>,
    pub vmexe: Option<u64>,
    pub vmlib: Option<u64>,
    pub vmpte: Option<u64>,
    pub vmswap: Option<u64>,
    pub rssanon: Option<u64>,
    pub rssfile: Option<u64>,
    pub rssshmem: Option<u64>,
}

/// A reported value, or zero when it is absent.
pub open spec fn or_zero(v: Option<u64>) -> u64 {
    match v {
        Some(n) => n,
        None => 0,
    }
}

/// Memory usage and status information.
#[derive(Clone, Copy, Debug)]
pub struct ProcPidStatus {
    /// Peak virtual memory size by kibibytes.
    pub vmpeak: u64,
    /// Virtual memory size by kibibytes.
    pub vmsize: u64,
    /// Peak resident set size by kibibytes (“high water mark”).
    pub vmhwm: u64,
    /// Resident set size by kibibytes. Note that the value here is the sum of RssAnon, RssFile, and RssShmem.
    pub vmrss: u64,
    /// Size of data by kibibytes.
    pub vmdata: u64,
    /// Size of stack by kibibytes.
    pub vmstk: u64,
    /// Size of text segments by kibibytes.
    pub vmexe: u64,
    /// Shared library code size by kibibytes.
    pub vmlib: u64,
    /// Page table entries size by kibibytes.
    pub vmpte: u64,
    /// Swapped-out virtual memory size by anonymous private pages by kibibytes; shmem swap usage is not included.
    pub vmswap: u64,
    /// Size of resident anonymous memory by kibibytes.
    pub rssanon: u64,
    /// Size of resident file mappings by kibibytes.
    pub rssfile: u64,
    /// Size of resident shared memory by kibibytes.
    pub rssshmem: u64,
}

/// A reported value, or zero when it is absent.
fn unwrap_or_zero(v: Option<u64>) -> (n: u64)
    ensures
        n == or_zero(v),
{
    match v {
        Some(n) => n,
        None => 0,
    }
}

impl ProcPidStatus {
    /// The memory status of a process from the fields of its
    /// `/proc/[pid]/status`: a field that was not reported counts as zero.
    pub fn from_status_fields(status: &StatusFields) -> (r: Option<Self>)
        ensures
            r matches Some(s) && s.vmpeak == or_zero(status.vmpeak) && s.vmsize == or_zero(status.vmsize)
                && s.vmhwm == or_zero(status.vmhwm) && s.vmrss == or_zero(status.vmrss) && s.vmdata
                == or_zero(status.vmdata) && s.vmstk == or_zero(status.vmstk) && s.vmexe == or_zero(
                status.vmexe,
            ) && s.vmlib == or_zero(status.vmlib) && s.vmpte == or_zero(status.vmpte) && s.vmswap
                == or_zero(status.vmswap) && s.rssanon == or_zero(status.rssanon) && s.rssfile
                == or_zero(status.rssfile) && s.rssshmem == or_zero(status.rssshmem),
    {
        Some(Self {
            vmpeak: unwrap_or_zero(status.vmpeak),
            vmsize: unwrap_or_zero(status.vmsize),
            vmhwm: unwrap_or_zero(status.vmhwm),
            vmrss: unwrap_or_zero(status.vmrss),
            vmdata: unwrap_or_zero(status.vmdata),
            vmstk: unwrap_or_zero(status.vmstk),
            vmexe: unwrap_or_zero(status.vmexe),
            vmlib: unwrap_or_zero(status.vmlib),
            vmpte: unwrap_or_zero(status.vmpte),
            vmswap: unwrap_or_zero(status.vmswap),
            rssanon: unwrap_or_zero(status.rssanon),
            rssfile: unwrap_or_zero(status.rssfile),
            rssshmem: unwrap_or_zero(status.rssshmem),
        })
    }
}

} // verus!
