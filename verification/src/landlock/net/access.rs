use vstd::prelude::*;

use crate::text::push_str;

verus! {

/// NET access flags: binding (`TCP_BIND`) and connecting (`TCP_CONNECT`)
/// TCP sockets.
#[derive(PartialEq, Eq, Structural, Clone, Copy, Debug, Hash)]
pub struct Access {
    pub bits: u64,
}

/// The text of NET access bits: the names of the accesses that are set,
/// joined by ` | `.
pub open spec fn net_access_text(bits: u64) -> Seq<char> {
    if bits & 1 != 0 && bits & 2 != 0 {
        "tcp.bind | tcp.connect"@
    } else if bits & 1 != 0 {
        "tcp.bind"@
    } else if bits & 2 != 0 {
        "tcp.connect"@
    } else {
        ""@
    }
}

impl Access {
    /// Binding a TCP socket to a local port.
    #[allow(non_snake_case)]
    pub fn TCP_BIND() -> (a: Access)
        ensures
            a.bits == 1,
    {
        Access { bits: 1 }
    }

    /// Connecting a TCP socket to a remote port.
    #[allow(non_snake_case)]
    pub fn TCP_CONNECT() -> (a: Access)
        ensures
            a.bits == 2,
    {
        Access { bits: 2 }
    }

    /// The text of the access, such as `tcp.bind | tcp.connect`.
    pub fn to_string(&self) -> (s: String)
        ensures
            s@ == net_access_text(self.bits),
    {
        let bind = self.bits & 1 != 0;
        let connect = self.bits & 2 != 0;
        let mut s = String::new();
        if bind {
            push_str(&mut s, "tcp.bind");
        }
        if connect {
            if bind {
                push_str(&mut s, " | ");
            }
            push_str(&mut s, "tcp.connect");
        }
        proof {
            reveal_strlit("tcp.bind | tcp.connect");
            reveal_strlit("tcp.bind");
            reveal_strlit("tcp.connect");
            reveal_strlit(" | ");
            reveal_strlit("");
        }
        assert(s@ =~= net_access_text(self.bits));
        s
    }
}

} // verus!
