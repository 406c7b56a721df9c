use vstd::prelude::*;

use crate::namespace::{CloneFlags, CLONE_NEWIPC, CLONE_NEWNET, CLONE_NEWNS, CLONE_NEWPID, CLONE_NEWUSER, CLONE_NEWUTS};

verus! {

/// Which namespaces to create: a namespace is created when its entry is
/// `Some(true)`.
#[derive(Clone, Copy, Debug)]
pub struct Namespaces {
    /// ipc namespace
    pub ipc: Option<bool>,
    /// network namespace
    pub net: Option<bool>,
    /// mount namespace
    pub ns: Option<bool>,
    /// pid namespace
    pub pid: Option<bool>,
    /// user namespace
    pub user: Option<bool>,
    /// uts namespace
    pub uts: Option<bool>,
}

/// Whether a namespace entry asks for a new namespace.
pub open spec fn requested(entry: Option<bool>) -> bool {
    entry == Some(true)
}

/// The bit `flag` when `entry` asks for its namespace, else none.
pub open spec fn bit_if(entry: Option<bool>, flag: i32) -> i32 {
    if requested(entry) {
        flag
    } else {
        0
    }
}

/// The six `CLONE_NEW*` bits together.
pub open spec fn all_namespace_bits() -> i32 {
    CLONE_NEWIPC | CLONE_NEWNET | CLONE_NEWNS | CLONE_NEWPID | CLONE_NEWUSER | CLONE_NEWUTS
}

/// Whether `bits` has the bit of each namespace that `n` asks for, and no
/// other bit.
pub open spec fn flags_of(n: Namespaces, bits: i32) -> bool {
    &&& (bits & CLONE_NEWIPC != 0) == requested(n.ipc)
    &&& (bits & CLONE_NEWNET != 0) == requested(n.net)
    &&& (bits & CLONE_NEWNS != 0) == requested(n.ns)
    &&& (bits & CLONE_NEWPID != 0) == requested(n.pid)
    &&& (bits & CLONE_NEWUSER != 0) == requested(n.user)
    &&& (bits & CLONE_NEWUTS != 0) == requested(n.uts)
    &&& bits & !all_namespace_bits() == 0
}

/// Six bits, each set or not, combine into a value that has exactly those
/// that are set.
proof fn lemma_combined_bits(a: i32, b: i32, c: i32, d: i32, e: i32, f: i32)
    by (bit_vector)
    requires
        a == 0 || a == 0x0800_0000i32,
        b == 0 || b == 0x4000_0000i32,
        c == 0 || c == 0x0002_0000i32,
        d == 0 || d == 0x2000_0000i32,
        e == 0 || e == 0x1000_0000i32,
        f == 0 || f == 0x0400_0000i32,
    ensures
        ((((((0i32 | a) | b) | c) | d) | e) | f) & 0x0800_0000i32 != 0 <==> a != 0,
        ((((((0i32 | a) | b) | c) | d) | e) | f) & 0x4000_0000i32 != 0 <==> b != 0,
        ((((((0i32 | a) | b) | c) | d) | e) | f) & 0x0002_0000i32 != 0 <==> c != 0,
        ((((((0i32 | a) | b) | c) | d) | e) | f) & 0x2000_0000i32 != 0 <==> d != 0,
        ((((((0i32 | a) | b) | c) | d) | e) | f) & 0x1000_0000i32 != 0 <==> e != 0,
        ((((((0i32 | a) | b) | c) | d) | e) | f) & 0x0400_0000i32 != 0 <==> f != 0,
        ((((((0i32 | a) | b) | c) | d) | e) | f) & !(0x0800_0000i32 | 0x4000_0000i32 | 0x0002_0000i32
            | 0x2000_0000i32 | 0x1000_0000i32 | 0x0400_0000i32) == 0,
{
}

impl Namespaces {
    /// The clone flags that create the namespaces asked for.
    pub fn to_clone_flags(&self) -> (f: CloneFlags)
        ensures
            flags_of(*self, f.bits),
    {
        let mut flags = CloneFlags::empty();
        Self::insert_clone_flag(&mut flags, CloneFlags { bits: CLONE_NEWIPC }, self.ipc);
        Self::insert_clone_flag(&mut flags, CloneFlags { bits: CLONE_NEWNET }, self.net);
        Self::insert_clone_flag(&mut flags, CloneFlags { bits: CLONE_NEWNS }, self.ns);
        Self::insert_clone_flag(&mut flags, CloneFlags { bits: CLONE_NEWPID }, self.pid);
        Self::insert_clone_flag(&mut flags, CloneFlags { bits: CLONE_NEWUSER }, self.user);
        Self::insert_clone_flag(&mut flags, CloneFlags { bits: CLONE_NEWUTS }, self.uts);
        proof {
            lemma_combined_bits(
                bit_if(self.ipc, CLONE_NEWIPC),
                bit_if(self.net, CLONE_NEWNET),
                bit_if(self.ns, CLONE_NEWNS),
                bit_if(self.pid, CLONE_NEWPID),
                bit_if(self.user, CLONE_NEWUSER),
                bit_if(self.uts, CLONE_NEWUTS),
            );
        }
        flags
    }

    /// Sets `flag` in `flags` when `namespace` asks for its namespace.
    fn insert_clone_flag(flags: &mut CloneFlags, flag: CloneFlags, namespace: Option<bool>)
        ensures
            final(flags).bits == old(flags).bits | bit_if(namespace, flag.bits),
    {
        match namespace {
            Some(true) => flags.insert(flag),
            Some(_) => {
                let b: i32 = flags.bits;
                assert(b | 0 == b) by (bit_vector);
            },
            None => {
                let b: i32 = flags.bits;
                assert(b | 0 == b) by (bit_vector);
            },
        }
    }
}

impl Default for Namespaces {
    /// Every namespace is created.
    fn default() -> (n: Self)
        ensures
            n == (Namespaces {
                ipc: Some(true),
                net: Some(true),
                ns: Some(true),
                pid: Some(true),
                user: Some(true),
                uts: Some(true),
            }),
    {
        Self {
            ipc: Some(true),
            net: Some(true),
            ns: Some(true),
            pid: Some(true),
            user: Some(true),
            uts: Some(true),
        }
    }
}

} // verus!
