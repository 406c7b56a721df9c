use vstd::prelude::*;

verus! {

/// What the cpu subsystem of a cgroup is configured with.
pub struct CpuView {
    pub shares: Option<u64>,
    pub period: Option<u64>,
    pub quota: Option<i64>,
}

/// Represents the cgroup subsystems cpu.
#[derive(Clone, Copy, Debug)]
pub struct Cpu {
    shares: Option<u64>,
    period: Option<u64>,
    quota: Option<i64>,
}

impl View for Cpu {
    type V = CpuView;

    closed spec fn view(&self) -> CpuView {
        CpuView { shares: self.shares, period: self.period, quota: self.quota }
    }
}

impl Default for Cpu {
    fn default() -> (c: Self)
        ensures
            c@ == (CpuView { shares: None, period: None, quota: None }),
    {
        Cpu { shares: None, period: None, quota: None }
    }
}

impl Cpu {
    /// Specifies a relative value that determines how much CPU time a process gets
    /// in relation to its peers when the CPU is saturated. The default value is
    /// 1024, with a range of 2 to 262,144.
    pub fn shares(&mut self, val: u64) -> (r: &mut Self)
        ensures
            r@ == (CpuView { shares: Some(val), ..old(self)@ }),
            *final(self) == *final(r),
    {
        self.shares = Some(val);
        self
    }

    /// Specifies a period of time in microseconds for how regularly a cgroup's
    /// access to CPU resources should be reallocated (CFS scheduler only). Default
    /// period is usually 100,000 us (100 ms).
    pub fn period(&mut self, val: u64) -> (r: &mut Self)
        ensures
            r@ == (CpuView { period: Some(val), ..old(self)@ }),
            *final(self) == *final(r),
    {
        self.period = Some(val);
        self
    }

    /// Specifies the total amount of time in microseconds for which all tasks
    /// in a cgroup can run during one period (as defined by period).
    pub fn quota(&mut self, val: i64) -> (r: &mut Self)
        ensures
            r@ == (CpuView { quota: Some(val), ..old(self)@ }),
            *final(self) == *final(r),
    {
        self.quota = Some(val);
        self
    }

    /// The CPU shares, if set.
    pub fn get_shares(&self) -> (v: Option<u64>)
        ensures
            v == self@.shares,
    {
        self.shares
    }

    /// The CFS period, if set.
    pub fn get_period(&self) -> (v: Option<u64>)
        ensures
            v == self@.period,
    {
        self.period
    }

    /// The CFS quota, if set.
    pub fn get_quota(&self) -> (v: Option<i64>)
        ensures
            v == self@.quota,
    {
        self.quota
    }
}

} // verus!
