use vstd::prelude::*;

verus! {

/// Linux namespace types.
#[derive(PartialEq, Eq, Structural, Clone, Copy, Debug, Hash)]
pub enum Namespace {
    Ipc,
    Network,
    Mount,
    Pid,
    User,
    Uts,
}

/// The `CLONE_NEW*` flags of `clone(2)` and `unshare(2)`, as the kernel
/// defines their bits.
#[derive(PartialEq, Eq, Structural, Clone, Copy, Debug)]
pub struct CloneFlags {
    pub bits: i32,
}

/// `CLONE_NEWNS`: new mount namespace.
pub const CLONE_NEWNS: i32 = 0x0002_0000;

/// `CLONE_NEWUTS`: new UTS namespace.
pub const CLONE_NEWUTS: i32 = 0x0400_0000;

/// `CLONE_NEWIPC`: new IPC namespace.
pub const CLONE_NEWIPC: i32 = 0x0800_0000;

/// `CLONE_NEWUSER`: new user namespace.
pub const CLONE_NEWUSER: i32 = 0x1000_0000;

/// `CLONE_NEWPID`: new PID namespace.
pub const CLONE_NEWPID: i32 = 0x2000_0000;

/// `CLONE_NEWNET`: new network namespace.
pub const CLONE_NEWNET: i32 = 0x4000_0000;

impl Namespace {
    /// The position of the namespace among the six kinds.
    pub open spec fn spec_index(self) -> int {
        match self {
            Namespace::Ipc => 0,
            Namespace::Network => 1,
            Namespace::Mount => 2,
            Namespace::Pid => 3,
            Namespace::User => 4,
            Namespace::Uts => 5,
        }
    }

    /// The position of the namespace among the six kinds.
    pub fn index(self) -> (i: usize)
        ensures
            i == self.spec_index(),
            i < 6,
    {
        match self {
            Namespace::Ipc => 0,
            Namespace::Network => 1,
            Namespace::Mount => 2,
            Namespace::Pid => 3,
            Namespace::User => 4,
            Namespace::Uts => 5,
        }
    }

    /// The `CLONE_NEW*` bit that creates a namespace of this kind.
    pub open spec fn flag_bit(self) -> i32 {
        match self {
            Namespace::Ipc => CLONE_NEWIPC,
            Namespace::Network => CLONE_NEWNET,
            Namespace::Mount => CLONE_NEWNS,
            Namespace::Pid => CLONE_NEWPID,
            Namespace::User => CLONE_NEWUSER,
            Namespace::Uts => CLONE_NEWUTS,
        }
    }

    /// The clone flag that creates a namespace of this kind.
    pub fn to_clone_flag(self) -> (f: CloneFlags)
        ensures
            f.bits == self.flag_bit(),
    {
        match self {
            Namespace::Ipc => CloneFlags { bits: CLONE_NEWIPC },
            Namespace::Network => CloneFlags { bits: CLONE_NEWNET },
            Namespace::Mount => CloneFlags { bits: CLONE_NEWNS },
            Namespace::Pid => CloneFlags { bits: CLONE_NEWPID },
            Namespace::User => CloneFlags { bits: CLONE_NEWUSER },
            Namespace::Uts => CloneFlags { bits: CLONE_NEWUTS },
        }
    }
}

/// The namespace at position `i` of the six kinds.
pub open spec fn namespace_at(i: int) -> Namespace {
    if i == 0 {
        Namespace::Ipc
    } else if i == 1 {
        Namespace::Network
    } else if i == 2 {
        Namespace::Mount
    } else if i == 3 {
        Namespace::Pid
    } else if i == 4 {
        Namespace::User
    } else {
        Namespace::Uts
    }
}

/// Positions and kinds correspond one to one.
pub proof fn lemma_namespace_index(n: Namespace)
    ensures
        namespace_at(n.spec_index()) == n,
        0 <= n.spec_index() < 6,
{
}

impl CloneFlags {
    /// No flag.
    pub fn empty() -> (f: CloneFlags)
        ensures
            f.bits == 0,
    {
        CloneFlags { bits: 0 }
    }

    /// Whether no flag is set.
    pub fn is_empty(&self) -> (b: bool)
        ensures
            b == (self.bits == 0),
    {
        self.bits == 0
    }

    /// Sets the bits of `other`.
    pub fn insert(&mut self, other: CloneFlags)
        ensures
            final(self).bits == old(self).bits | other.bits,
    {
        self.bits = self.bits | other.bits;
    }

    /// Whether every bit of `other` is set.
    pub fn contains(&self, other: CloneFlags) -> (b: bool)
        ensures
            b == (self.bits & other.bits == other.bits),
    {
        self.bits & other.bits == other.bits
    }
}

} // verus!
