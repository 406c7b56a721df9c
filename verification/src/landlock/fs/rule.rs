use vstd::prelude::*;

use super::access::access_text;
use crate::keyed::Duplicate;
use crate::text::push_str;

verus! {

/// Represents a FS rule: access `mode` beneath `path`.
#[derive(PartialEq, Eq, Clone, Debug)]
pub struct Rule {
    pub path: String,
    pub mode: super::Access,
}

impl Duplicate for Rule {
    fn duplicate(&self) -> (r: Rule) {
        Rule { path: self.path.clone(), mode: self.mode }
    }
}

impl Rule {
    /// The text of the rule: the access text, a space and the path.
    pub fn to_string(&self) -> (s: String)
        ensures
            s@ == access_text(self.mode.bits) + " "@ + self.path@,
    {
        let mut s = self.mode.to_string();
        push_str(&mut s, " ");
        push_str(&mut s, self.path.as_str());
        s
    }
}

} // verus!
