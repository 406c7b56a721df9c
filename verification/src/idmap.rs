use vstd::prelude::*;

use crate::text::{decimal, push_decimal, push_str};

verus! {

/// One line of a `uid_map` or `gid_map` file: `size` ids starting at
/// `container_id` inside the namespace map to ids starting at `host_id`.
#[derive(PartialEq, Eq, Structural, Clone, Copy, Debug)]
pub struct IdMap {
    pub container_id: u32,
    pub host_id: u32,
    pub size: u32,
}

impl IdMap {
    /// The text of the mapping as the kernel reads it: the three numbers
    /// separated by single spaces.
    pub open spec fn spec_line(self) -> Seq<char> {
        decimal(self.container_id as nat) + seq![' '] + decimal(self.host_id as nat) + seq![' ']
            + decimal(self.size as nat)
    }

    /// The text of the mapping as the kernel reads it, e.g. `0 1000 1`.
    pub fn to_string(&self) -> (s: String)
        ensures
            s@ == self.spec_line(),
    {
        let mut s = String::new();
        push_decimal(&mut s, self.container_id as u64);
        s.push(' ');
        push_decimal(&mut s, self.host_id as u64);
        s.push(' ');
        push_decimal(&mut s, self.size as u64);
        assert(s@ =~= self.spec_line());
        s
    }

    /// A labelled description of the mapping.
    pub open spec fn spec_description(self) -> Seq<char> {
        "container_id: "@ + decimal(self.container_id as nat) + ", host_id: "@ + decimal(
            self.host_id as nat,
        ) + ", count: "@ + decimal(self.size as nat)
    }

    /// A labelled description of the mapping, e.g.
    /// `container_id: 0, host_id: 1000, count: 1`.
    pub fn description(&self) -> (s: String)
        ensures
            s@ == self.spec_description(),
    {
        let mut s = String::new();
        push_str(&mut s, "container_id: ");
        push_decimal(&mut s, self.container_id as u64);
        push_str(&mut s, ", host_id: ");
        push_decimal(&mut s, self.host_id as u64);
        push_str(&mut s, ", count: ");
        push_decimal(&mut s, self.size as u64);
        assert(s@ =~= self.spec_description());
        s
    }
}

} // verus!
