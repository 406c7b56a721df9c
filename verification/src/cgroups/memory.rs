use vstd::prelude::*;

verus! {

/// What the memory subsystem of a cgroup is configured with.
pub struct MemoryView {
    pub reservation: Option<i64>,
    pub limit: Option<i64>,
    pub swap: Option<i64>,
}

/// Represents the cgroup subsystem memory.
#[derive(Clone, Copy, Debug)]
pub struct Memory {
    reservation: Option<i64>,
    limit: Option<i64>,
    swap: Option<i64>,
}

impl View for Memory {
    type V = MemoryView;

    closed spec fn view(&self) -> MemoryView {
        MemoryView { reservation: self.reservation, limit: self.limit, swap: self.swap }
    }
}

impl Default for Memory {
    fn default() -> (m: Self)
        ensures
            m@ == (MemoryView { reservation: None, limit: None, swap: None }),
    {
        Memory { reservation: None, limit: None, swap: None }
    }
}

impl Memory {
    /// Sets soft limit of memory usage in bytes, a.k.a reservation.
    pub fn reservation(&mut self, val: i64) -> (r: &mut Self)
        ensures
            r@ == (MemoryView { reservation: Some(val), ..old(self)@ }),
            *final(self) == *final(r),
    {
        self.reservation = Some(val);
        self
    }

    /// Sets hard limit of memory usage in bytes, a.k.a physical ram usage.
    pub fn limit(&mut self, val: i64) -> (r: &mut Self)
        ensures
            r@ == (MemoryView { limit: Some(val), ..old(self)@ }),
            *final(self) == *final(r),
    {
        self.limit = Some(val);
        self
    }

    /// Sets limit of memory+swap usage in bytes.
    pub fn swap(&mut self, val: i64) -> (r: &mut Self)
        ensures
            r@ == (MemoryView { swap: Some(val), ..old(self)@ }),
            *final(self) == *final(r),
    {
        self.swap = Some(val);
        self
    }

    /// The soft limit, if set.
    pub fn get_reservation(&self) -> (v: Option<i64>)
        ensures
            v == self@.reservation,
    {
        self.reservation
    }

    /// The hard limit, if set.
    pub fn get_limit(&self) -> (v: Option<i64>)
        ensures
            v == self@.limit,
    {
        self.limit
    }

    /// The memory+swap limit, if set.
    pub fn get_swap(&self) -> (v: Option<i64>)
        ensures
            v == self@.swap,
    {
        self.swap
    }
}

} // verus!
