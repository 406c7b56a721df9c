use vstd::prelude::*;

verus! {

/// What the pids subsystem of a cgroup is configured with.
pub struct PidsView {
    pub limit: Option<i64>,
}

/// Represents the cgroup subsystem pids.
#[derive(Clone, Copy, Debug)]
pub struct Pids {
    limit: Option<i64>,
}

impl View for Pids {
    type V = PidsView;

    closed spec fn view(&self) -> PidsView {
        PidsView { limit: self.limit }
    }
}

impl Default for Pids {
    fn default() -> (p: Self)
        ensures
            p@ == (PidsView { limit: None }),
    {
        Pids { limit: None }
    }
}

impl Pids {
    /// Specifies the maximum number of tasks in the cgroup.
    pub fn limit(&mut self, val: i64) -> (r: &mut Self)
        ensures
            r@ == (PidsView { limit: Some(val) }),
            *final(self) == *final(r),
    {
        self.limit = Some(val);
        self
    }

    /// The task limit, if set.
    pub fn get_limit(&self) -> (v: Option<i64>)
        ensures
            v == self@.limit,
    {
        self.limit
    }
}

} // verus!
