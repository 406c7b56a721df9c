use vstd::prelude::*;

use super::access::net_access_text;
use crate::text::{decimal, push_decimal, push_str};

verus! {

/// Represents a NET rule: `access` to `port`.
#[derive(PartialEq, Eq, Structural, Clone, Copy, Debug)]
pub struct Rule {
    pub port: u16,
    pub access: super::Access,
}

impl Rule {
    /// The text of the rule: the access text, a space and the port.
    pub fn to_string(&self) -> (s: String)
        ensures
            s@ == net_access_text(self.access.bits) + " "@ + decimal(self.port as nat),
    {
        let mut s = self.access.to_string();
        push_str(&mut s, " ");
        push_decimal(&mut s, self.port as u64);
        s
    }
}

} // verus!
