use vstd::prelude::*;

use crate::command::Command;
use crate::fs::{MakeDir, MakeSymlink, Operation, WriteFile};
use crate::idmap::IdMap;
use crate::keyed::{lists_in_order, StrMap};
use crate::landlock::{Ruleset, RulesetView};
use crate::mount::{Mount, MountOptions};
use crate::namespace::{CloneFlags, Namespace, CLONE_NEWIPC, CLONE_NEWNET, CLONE_NEWNS, CLONE_NEWPID, CLONE_NEWUSER, CLONE_NEWUTS};
use crate::network::{Network, NetworkView};
use crate::rlimit::{rlimit_at, Rlimit};
use crate::runctl::Runctl;
use crate::text::{char_seq_lt, str_eq};

verus! {

/// The real user id of the calling process, from `getuid(2)` through
/// `nix::unistd::Uid::current`. It depends on the process, so nothing is
/// stated of it.
#[verifier::external_body]
fn current_uid() -> u32 {
    nix::unistd::Uid::current().as_raw()
}

/// The real group id of the calling process, from `getgid(2)` through
/// `nix::unistd::Gid::current`. It depends on the process, so nothing is
/// stated of it.
#[verifier::external_body]
fn current_gid() -> u32 {
    nix::unistd::Gid::current().as_raw()
}

/// Bit of the main process's network setup in a setup request.
pub const SETUP_NETWORK: u8 = 1;

/// Bit of the main process's UID/GID mapping setup in a setup request.
pub const SETUP_UGIDMAP: u8 = 2;

/// What a container is configured with.
pub struct ContainerView {
    pub namespaces: Set<Namespace>,
    pub rootdir: Option<Seq<char>>,
    pub mounts: Map<Seq<char>, Mount>,
    pub fs_operations: Map<Seq<char>, Operation>,
    pub uidmaps: Option<Seq<IdMap>>,
    pub gidmaps: Option<Seq<IdMap>>,
    pub hostname: Option<Seq<char>>,
    pub network: Option<NetworkView>,
    pub rlimits: Map<Rlimit, (u64, u64)>,
    pub landlock_ruleset: Option<RulesetView>,
    pub runctl: Set<Runctl>,
}

/// Whether bit `i` of `mask` is set.
pub open spec fn bit_set(mask: u8, i: int) -> bool {
    mask & (1u8 << (i as u8)) != 0
}

/// Setting bit `i` sets it and leaves the others; clearing it clears it and
/// leaves the others.
proof fn lemma_bit_update(m: u8, i: u8, j: u8)
    requires
        i < 8,
        j < 8,
    ensures
        ((m | (1u8 << i)) & (1u8 << j) != 0) == ((m & (1u8 << j) != 0) || i == j),
        ((m & !(1u8 << i)) & (1u8 << j) != 0) == ((m & (1u8 << j) != 0) && i != j),
        (0u8 & (1u8 << j)) == 0,
{
    assert(((m | (1u8 << i)) & (1u8 << j) != 0) == ((m & (1u8 << j) != 0) || i == j)) by (bit_vector)
        requires
            i < 8,
            j < 8,
    ;
    assert(((m & !(1u8 << i)) & (1u8 << j) != 0) == ((m & (1u8 << j) != 0) && i != j)) by (bit_vector)
        requires
            i < 8,
            j < 8,
    ;
    assert((0u8 & (1u8 << j)) == 0) by (bit_vector);
}

/// The characters of an optional string.
pub open spec fn opt_chars(s: Option<String>) -> Option<Seq<char>> {
    match s {
        Some(s) => Some(s@),
        None => None,
    }
}

/// The elements of an optional vector.
pub open spec fn opt_seq<T>(v: Option<Vec<T>>) -> Option<Seq<T>> {
    match v {
        Some(v) => Some(v@),
        None => None,
    }
}

/// The limits that a list of settings leaves: a later setting of a limit
/// replaces an earlier one.
pub open spec fn limits_map(s: Seq<(Rlimit, (u64, u64))>) -> Map<Rlimit, (u64, u64)>
    decreases s.len(),
{
    if s.len() == 0 {
        Map::empty()
    } else {
        limits_map(s.drop_last()).insert(s.last().0, s.last().1)
    }
}

/// The last setting of limit `r` in a list of settings, if any.
pub open spec fn last_setting(s: Seq<(Rlimit, (u64, u64))>, r: Rlimit) -> Option<(u64, u64)>
    decreases s.len(),
{
    if s.len() == 0 {
        None
    } else if s.last().0 == r {
        Some(s.last().1)
    } else {
        last_setting(s.drop_last(), r)
    }
}

/// A limit is set exactly when some setting names it, to its last setting.
proof fn lemma_limits_map(s: Seq<(Rlimit, (u64, u64))>, r: Rlimit)
    ensures
        limits_map(s).contains_key(r) == (last_setting(s, r) is Some),
        limits_map(s).contains_key(r) ==> Some(limits_map(s)[r]) == last_setting(s, r),
    decreases s.len(),
{
    if s.len() > 0 {
        lemma_limits_map(s.drop_last(), r);
    }
}

/// The id mappings of a list of `(container_id, host_id, size)` triples:
/// none for an empty list.
pub open spec fn idmaps_of(v: Seq<(u32, u32, u32)>) -> Option<Seq<IdMap>> {
    if v.len() == 0 {
        None
    } else {
        Some(v.map_values(|t: (u32, u32, u32)| IdMap { container_id: t.0, host_id: t.1, size: t.2 }))
    }
}

/// What setting the UID mappings to the triples `maps` makes of a
/// container.
pub open spec fn after_uidmaps(c: ContainerView, maps: Seq<(u32, u32, u32)>) -> ContainerView {
    ContainerView { uidmaps: idmaps_of(maps), ..c }
}

/// What setting the GID mappings to the triples `maps` makes of a
/// container.
pub open spec fn after_gidmaps(c: ContainerView, maps: Seq<(u32, u32, u32)>) -> ContainerView {
    ContainerView { gidmaps: idmaps_of(maps), ..c }
}

/// Whether `m` mounts `source` of type `fstype` on `target` with `options`.
pub open spec fn mount_is(m: Mount, source: Seq<char>, target: Seq<char>, fstype: Seq<char>, options: u32) -> bool {
    &&& m.source@ == source
    &&& m.target@ == target
    &&& m.fstype@ == fstype
    &&& m.options.bits == options
}

/// The mount options of a read-only bind mount: BIND, REC, NOSUID, RDONLY.
pub open spec fn bind_ro_options() -> u32 {
    4096u32 | 16384u32 | 2u32 | 1u32
}

/// The mount options of a read-write bind mount: BIND, REC, NOSUID.
pub open spec fn bind_rw_options() -> u32 {
    4096u32 | 16384u32 | 2u32
}

/// The mount options of a tmpfs: NOSUID, NODEV.
pub open spec fn tmpfs_options() -> u32 {
    2u32 | 4u32
}

/// The mount options of a procfs: NOSUID, NODEV, NOEXEC.
pub open spec fn procfs_options() -> u32 {
    2u32 | 4u32 | 8u32
}

/// The clone flags of a set of namespaces.
pub open spec fn clone_bits(s: Set<Namespace>) -> i32 {
    (if s.contains(Namespace::Ipc) { CLONE_NEWIPC } else { 0 }) | (if s.contains(Namespace::Network) {
        CLONE_NEWNET
    } else {
        0
    }) | (if s.contains(Namespace::Mount) { CLONE_NEWNS } else { 0 }) | (if s.contains(Namespace::Pid) {
        CLONE_NEWPID
    } else {
        0
    }) | (if s.contains(Namespace::User) { CLONE_NEWUSER } else { 0 }) | (if s.contains(Namespace::Uts) {
        CLONE_NEWUTS
    } else {
        0
    })
}

/// The bit of `clone(2)` that creates a namespace of kind `n`, as Linux
/// defines it: `CLONE_NEWIPC`, `CLONE_NEWNET`, `CLONE_NEWNS`,
/// `CLONE_NEWPID`, `CLONE_NEWUSER` or `CLONE_NEWUTS`.
pub open spec fn linux_clone_bit(n: Namespace) -> i32 {
    match n {
        Namespace::Ipc => 0x0800_0000i32,
        Namespace::Network => 0x4000_0000i32,
        Namespace::Mount => 0x0002_0000i32,
        Namespace::Pid => 0x2000_0000i32,
        Namespace::User => 0x1000_0000i32,
        Namespace::Uts => 0x0400_0000i32,
    }
}

/// The six `CLONE_NEW*` bits together.
pub open spec fn linux_clone_bits_all() -> i32 {
    0x7c02_0000i32
}

/// Six bits, each set or not, combine into the value that has exactly
/// those that are set.
proof fn lemma_six_clone_bits(a: i32, b: i32, c: i32, d: i32, e: i32, f: i32)
    by (bit_vector)
    requires
        a == 0 || a == 0x0800_0000i32,
        b == 0 || b == 0x4000_0000i32,
        c == 0 || c == 0x0002_0000i32,
        d == 0 || d == 0x2000_0000i32,
        e == 0 || e == 0x1000_0000i32,
        f == 0 || f == 0x0400_0000i32,
    ensures
        ((a | b | c | d | e | f) & 0x0800_0000i32 != 0) == (a != 0),
        ((a | b | c | d | e | f) & 0x4000_0000i32 != 0) == (b != 0),
        ((a | b | c | d | e | f) & 0x0002_0000i32 != 0) == (c != 0),
        ((a | b | c | d | e | f) & 0x2000_0000i32 != 0) == (d != 0),
        ((a | b | c | d | e | f) & 0x1000_0000i32 != 0) == (e != 0),
        ((a | b | c | d | e | f) & 0x0400_0000i32 != 0) == (f != 0),
        (a | b | c | d | e | f) & !0x7c02_0000i32 == 0,
{
}

/// The clone flags of a set of namespaces have the bit of each namespace
/// in the set, and no other bit.
pub proof fn lemma_clone_bits(s: Set<Namespace>)
    ensures
        forall|n: Namespace| ((clone_bits(s) & #[trigger] linux_clone_bit(n)) != 0) == s.contains(n),
        clone_bits(s) & !linux_clone_bits_all() == 0,
{
    lemma_six_clone_bits(
        if s.contains(Namespace::Ipc) { CLONE_NEWIPC } else { 0 },
        if s.contains(Namespace::Network) { CLONE_NEWNET } else { 0 },
        if s.contains(Namespace::Mount) { CLONE_NEWNS } else { 0 },
        if s.contains(Namespace::Pid) { CLONE_NEWPID } else { 0 },
        if s.contains(Namespace::User) { CLONE_NEWUSER } else { 0 },
        if s.contains(Namespace::Uts) { CLONE_NEWUTS } else { 0 },
    );
    assert forall|n: Namespace| ((clone_bits(s) & #[trigger] linux_clone_bit(n)) != 0) == s.contains(n) by {
        match n {
            Namespace::Ipc => {},
            Namespace::Network => {},
            Namespace::Mount => {},
            Namespace::Pid => {},
            Namespace::User => {},
            Namespace::Uts => {},
        }
    }
}

/// The main process sets up the network exactly when a new Network
/// namespace is created and a network mode is set, and writes the UID/GID
/// mappings exactly when a new USER namespace is created and one of the
/// mappings has more than one line; the setup requests hold these two
/// bits and no other.
pub proof fn lemma_mainp_setup_operations(v: ContainerView)
    ensures
        v.needs_mainp_setup_network() == (v.namespaces.contains(Namespace::Network) && v.network is Some),
        v.needs_mainp_setup_ugidmap() == (v.namespaces.contains(Namespace::User) && ((v.uidmaps matches Some(
            m,
        ) && m.len() > 1) || (v.gidmaps matches Some(m) && m.len() > 1))),
        (v.mainp_setup_operations() & 1 != 0) == (v.namespaces.contains(Namespace::Network)
            && v.network is Some),
        (v.mainp_setup_operations() & 2 != 0) == v.needs_mainp_setup_ugidmap(),
        v.mainp_setup_operations() & !3u8 == 0,
{
    let a: u8 = if v.needs_mainp_setup_network() { SETUP_NETWORK } else { 0 };
    let b: u8 = if v.needs_mainp_setup_ugidmap() { SETUP_UGIDMAP } else { 0 };
    assert(((a | b) & 1 != 0) == (a != 0) && ((a | b) & 2 != 0) == (b != 0) && (a | b) & !3u8 == 0) by (bit_vector)
        requires
            a == 0 || a == 1,
            b == 0 || b == 2,
    ;
}

impl ContainerView {
    /// Whether the main process sets up the network of the container: a
    /// network mode is set and a new Network namespace is created.
    pub open spec fn needs_mainp_setup_network(self) -> bool {
        self.namespaces.contains(Namespace::Network) && self.network is Some
    }

    /// Whether the main process writes the UID/GID mappings: a new USER
    /// namespace is created and a mapping has more than one line, which an
    /// unprivileged process cannot write for itself.
    pub open spec fn needs_mainp_setup_ugidmap(self) -> bool {
        &&& self.namespaces.contains(Namespace::User)
        &&& ((self.uidmaps matches Some(m) && m.len() > 1) || (self.gidmaps matches Some(m) && m.len() > 1))
    }

    /// Whether the child process stops the internal process at exit, to
    /// read its `/proc` entries.
    pub open spec fn needs_childp_traceexit(self) -> bool {
        self.runctl.contains(Runctl::GetProcPidSmapsRollup) || self.runctl.contains(Runctl::GetProcPidStatus)
    }

    /// The setup requests of the main process.
    pub open spec fn mainp_setup_operations(self) -> u8 {
        (if self.needs_mainp_setup_network() { SETUP_NETWORK } else { 0 }) | (if self.needs_mainp_setup_ugidmap() {
            SETUP_UGIDMAP
        } else {
            0
        })
    }
}

/// Safe and isolated environment for executing command.
///
/// A default environment can be generated using [Container::new], which will
/// unshare necessary namespaces. Then use [Container::bindmount_ro] or
/// [Container::bindmount_rw] to mount directories to the container root.
#[derive(Debug)]
///
/// The sets and maps of the configuration are not `HashSet` and `HashMap`:
/// vstd gives those a key model only for integer and `bool` keys, so with
/// a `Namespace`, `Runctl`, `Rlimit` or `String` key what an insert does
/// cannot be shown (a `HashSet<Namespace>` was tried: that it contains an
/// inserted namespace could not be proved). Namespaces and switches are
/// bits of a mask, mounts and filesystem operations are a `StrMap`, which
/// also gives the listings in order of target, and resource limits are the
/// list of settings, in which the last setting of a limit counts.
pub struct Container {
    /// Bit `i` set: the namespace at position `i` is created.
    namespaces: u8,
    rootdir: Option<String>,
    /// Mounts by target path.
    mounts: StrMap<Mount>,
    /// Filesystem operations by the path they create.
    fs_operations: StrMap<Operation>,
    uidmaps: Option<Vec<IdMap>>,
    gidmaps: Option<Vec<IdMap>>,
    hostname: Option<String>,
    network: Option<Network>,
    /// Every `setrlimit`, in order.
    rlimits: Vec<(Rlimit, (u64, u64))>,
    landlock_ruleset: Option<Ruleset>,
    /// Bit `i` set: the switch at position `i` is on.
    runctl: u8,
}

impl View for Container {
    type V = ContainerView;

    closed spec fn view(&self) -> ContainerView {
        ContainerView {
            namespaces: Set::new(|n: Namespace| bit_set(self.namespaces, n.spec_index())),
            rootdir: opt_chars(self.rootdir),
            mounts: self.mounts@,
            fs_operations: self.fs_operations@,
            uidmaps: opt_seq(self.uidmaps),
            gidmaps: opt_seq(self.gidmaps),
            hostname: opt_chars(self.hostname),
            network: match self.network {
                Some(n) => Some(n@),
                None => None,
            },
            rlimits: limits_map(self.rlimits@),
            landlock_ruleset: match self.landlock_ruleset {
                Some(r) => Some(r@),
                None => None,
            },
            runctl: Set::new(|c: Runctl| bit_set(self.runctl, c.spec_index())),
        }
    }
}

impl Container {
    #[verifier::type_invariant]
    closed spec fn keyed_by_target(self) -> bool {
        &&& forall|k: Seq<char>| #[trigger] self.mounts@.contains_key(k) ==> self.mounts@[k].target@ == k
        &&& forall|k: Seq<char>| #[trigger]
            self.fs_operations@.contains_key(k) ==> self.fs_operations@[k].spec_target() == k
    }

    /// Every mount is filed under its target and every filesystem
    /// operation under the path that it creates.
    pub fn keyed_by_target_holds(&self)
        ensures
            forall|k: Seq<char>| #[trigger] self@.mounts.contains_key(k) ==> self@.mounts[k].target@ == k,
            forall|k: Seq<char>| #[trigger]
                self@.fs_operations.contains_key(k) ==> self@.fs_operations[k].spec_target() == k,
    {
        proof {
            use_type_invariant(self);
        }
    }

    /// Constructs a new Container with following steps:
    ///
    /// - Create a new MOUNT namespace
    /// - Create a new USER namespace and map current user to itself
    /// - Create a new PID namespace and mount a new procfs on `/proc`
    #[allow(clippy::new_without_default)]
    pub fn new() -> (c: Self)
        ensures
            c@.namespaces == set![Namespace::Mount, Namespace::User, Namespace::Pid],
            c@.mounts.dom() == set!["/proc"@],
            mount_is(c@.mounts["/proc"@], "proc"@, "/proc"@, "proc"@, procfs_options()),
            c@.fs_operations == Map::<Seq<char>, Operation>::empty(),
            exists|uid: u32| c@.uidmaps == #[trigger] idmaps_of(seq![(uid, uid, 1u32)]),
            exists|gid: u32| c@.gidmaps == #[trigger] idmaps_of(seq![(gid, gid, 1u32)]),
            c@.rootdir is None,
            c@.hostname is None,
            c@.network is None,
            c@.rlimits == Map::<Rlimit, (u64, u64)>::empty(),
            c@.landlock_ruleset is None,
            c@.runctl == Set::<Runctl>::empty(),
    {
        let mut container = Self::empty();

        // Create a new MOUNT namespace.
        container.unshare(Namespace::Mount);

        // Required when creating container as a non-root user: a USER
        // namespace created along with other namespaces is created first,
        // and gives privileges over them. The current user and group map to
        // themselves.
        container.unshare(Namespace::User);
        let uid: u32 = current_uid();
        let uids = vec![(uid, uid, 1)];
        assert(uids@ =~= seq![(uid, uid, 1u32)]);
        container.uidmaps(uids);
        let gid: u32 = current_gid();
        let gids = vec![(gid, gid, 1)];
        assert(gids@ =~= seq![(gid, gid, 1u32)]);
        container.gidmaps(gids);

        // A new PID namespace needs a new procfs on /proc for tools such as
        // ps(1) to work.
        container.unshare(Namespace::Pid);
        container.procfsmount("/proc");
        assert(container@.namespaces =~= set![Namespace::Mount, Namespace::User, Namespace::Pid]);
        assert(container@.mounts.dom() =~= set!["/proc"@]);
        container
    }

    /// Constructs a new Container with a completely empty environment.
    pub fn empty() -> (c: Self)
        ensures
            c@.namespaces == Set::<Namespace>::empty(),
            c@.rootdir is None,
            c@.mounts == Map::<Seq<char>, Mount>::empty(),
            c@.fs_operations == Map::<Seq<char>, Operation>::empty(),
            c@.uidmaps is None,
            c@.gidmaps is None,
            c@.hostname is None,
            c@.network is None,
            c@.rlimits == Map::<Rlimit, (u64, u64)>::empty(),
            c@.landlock_ruleset is None,
            c@.runctl == Set::<Runctl>::empty(),
    {
        let c = Self {
            namespaces: 0,
            rootdir: None,
            mounts: StrMap::new(),
            fs_operations: StrMap::new(),
            uidmaps: None,
            gidmaps: None,
            hostname: None,
            network: None,
            rlimits: Vec::new(),
            landlock_ruleset: None,
            runctl: 0,
        };
        proof {
            assert forall|n: Namespace| !c@.namespaces.contains(n) by {
                lemma_bit_update(0, 0, n.spec_index() as u8);
            }
            assert forall|r: Runctl| !c@.runctl.contains(r) by {
                lemma_bit_update(0, 0, r.spec_index() as u8);
            }
        }
        assert(c@.namespaces =~= Set::<Namespace>::empty());
        assert(c@.runctl =~= Set::<Runctl>::empty());
        c
    }

    /// DONOT Create a new namespace.
    pub fn share(&mut self, namespace: Namespace) -> (r: &mut Self)
        ensures
            r@ == (ContainerView { namespaces: old(self)@.namespaces.remove(namespace), ..old(self)@ }),
            *final(self) == *final(r),
    {
        proof {
            use_type_invariant(&*self);
        }
        let i: u8 = namespace.index() as u8;
        self.namespaces = self.namespaces & !(1u8 << i);
        proof {
            assert forall|n: Namespace| self@.namespaces.contains(n) == old(self)@.namespaces.remove(
                namespace,
            ).contains(n) by {
                lemma_bit_update(old(self).namespaces, i, n.spec_index() as u8);
            }
        }
        assert(self@.namespaces =~= old(self)@.namespaces.remove(namespace));
        self
    }

    /// Create a new namespace.
    pub fn unshare(&mut self, namespace: Namespace) -> (r: &mut Self)
        ensures
            r@ == (ContainerView { namespaces: old(self)@.namespaces.insert(namespace), ..old(self)@ }),
            *final(self) == *final(r),
    {
        proof {
            use_type_invariant(&*self);
        }
        let i: u8 = namespace.index() as u8;
        self.namespaces = self.namespaces | (1u8 << i);
        proof {
            assert forall|n: Namespace| self@.namespaces.contains(n) == old(self)@.namespaces.insert(
                namespace,
            ).contains(n) by {
                lemma_bit_update(old(self).namespaces, i, n.spec_index() as u8);
            }
        }
        assert(self@.namespaces =~= old(self)@.namespaces.insert(namespace));
        self
    }

    /// Use the canonical path `host_path` as the mount point for the
    /// container root fs.
    pub fn set_rootdir(&mut self, host_path: &str) -> (r: &mut Self)
        ensures
            r@ == (ContainerView { rootdir: Some(host_path@), ..old(self)@ }),
            *final(self) == *final(r),
    {
        proof {
            use_type_invariant(&*self);
        }
        self.rootdir = Some(host_path.to_owned());
        self
    }

    /// Bind mount the `host_path` on `container_path` with read-only access in new MOUNT namespace.
    pub fn bindmount_ro(&mut self, host_path: &str, container_path: &str) -> (r: &mut Self)
        ensures
            r@ == (ContainerView {
                mounts: old(self)@.mounts.insert(container_path@, r@.mounts[container_path@]),
                ..old(self)@
            }),
            mount_is(r@.mounts[container_path@], host_path@, container_path@, ""@, bind_ro_options()),
            *final(self) == *final(r),
    {
        let flags = MountOptions::BIND().union(MountOptions::REC()).union(MountOptions::NOSUID()).union(
            MountOptions::RDONLY(),
        );
        self.mount(host_path, container_path, "", flags)
    }

    /// Bind mount the `host_path` on `container_path` with read-write access in new MOUNT namespace.
    pub fn bindmount_rw(&mut self, host_path: &str, container_path: &str) -> (r: &mut Self)
        ensures
            r@ == (ContainerView {
                mounts: old(self)@.mounts.insert(container_path@, r@.mounts[container_path@]),
                ..old(self)@
            }),
            mount_is(r@.mounts[container_path@], host_path@, container_path@, ""@, bind_rw_options()),
            *final(self) == *final(r),
    {
        let flags = MountOptions::BIND().union(MountOptions::REC()).union(MountOptions::NOSUID());
        self.mount(host_path, container_path, "", flags)
    }

    /// Mount new devfs on `container_path` in new MOUNT namespace.
    ///
    /// This is not a real linux filesystem type. It just bind mount a minimal set
    /// of device files in `container_path`, such as `/dev/null`.
    pub fn devfsmount(&mut self, container_path: &str) -> (r: &mut Self)
        ensures
            r@ == (ContainerView {
                mounts: old(self)@.mounts.insert(container_path@, r@.mounts[container_path@]),
                ..old(self)@
            }),
            mount_is(r@.mounts[container_path@], "devfs"@, container_path@, "devfs"@, 0),
            *final(self) == *final(r),
    {
        let flags = MountOptions::empty();
        self.mount("devfs", container_path, "devfs", flags)
    }

    /// Mount new tmpfs on `container_path` in new MOUNT namespace.
    pub fn tmpfsmount(&mut self, container_path: &str) -> (r: &mut Self)
        ensures
            r@ == (ContainerView {
                mounts: old(self)@.mounts.insert(container_path@, r@.mounts[container_path@]),
                ..old(self)@
            }),
            mount_is(r@.mounts[container_path@], "tmpfs"@, container_path@, "tmpfs"@, tmpfs_options()),
            *final(self) == *final(r),
    {
        let flags = MountOptions::NOSUID().union(MountOptions::NODEV());
        self.mount("tmpfs", container_path, "tmpfs", flags)
    }

    /// Mount new procfs on `container_path` in new MOUNT namespace.
    pub fn procfsmount(&mut self, container_path: &str) -> (r: &mut Self)
        ensures
            r@ == (ContainerView {
                mounts: old(self)@.mounts.insert(container_path@, r@.mounts[container_path@]),
                ..old(self)@
            }),
            mount_is(r@.mounts[container_path@], "proc"@, container_path@, "proc"@, procfs_options()),
            *final(self) == *final(r),
    {
        let flags = MountOptions::NOSUID().union(MountOptions::NODEV()).union(MountOptions::NOEXEC());
        self.mount("proc", container_path, "proc", flags)
    }

    /// Mount `host_path` of type `fstype` on `container_path`; a later
    /// mount on the same `container_path` replaces an earlier one.
    pub fn mount(&mut self, host_path: &str, container_path: &str, fstype: &str, options: MountOptions) -> (r:
        &mut Self)
        ensures
            r@ == (ContainerView {
                mounts: old(self)@.mounts.insert(container_path@, r@.mounts[container_path@]),
                ..old(self)@
            }),
            mount_is(r@.mounts[container_path@], host_path@, container_path@, fstype@, options.bits),
            *final(self) == *final(r),
    {
        proof {
            use_type_invariant(&*self);
        }
        let source = host_path.to_owned();
        let target = container_path.to_owned();
        let fstype = fstype.to_owned();
        let m = Mount { source, target: target.clone(), fstype, options };
        let mut mounts = StrMap::new();
        std::mem::swap(&mut mounts, &mut self.mounts);
        mounts.insert(target, m);
        self.mounts = mounts;
        self
    }

    /// Creates a new file with `contents` on the filesystem in new MOUNT namespace.
    pub fn file(&mut self, target: &str, contents: &str) -> (r: &mut Self)
        ensures
            r@ == (ContainerView {
                fs_operations: old(self)@.fs_operations.insert(target@, r@.fs_operations[target@]),
                ..old(self)@
            }),
            r@.fs_operations[target@] matches Operation::WriteFile(f) && f.target@ == target@
                && f.contents@ == contents@,
            *final(self) == *final(r),
    {
        proof {
            use_type_invariant(&*self);
        }
        let key = target.to_owned();
        let op = Operation::WriteFile(WriteFile { target: key.clone(), contents: contents.to_owned() });
        let mut ops = StrMap::new();
        std::mem::swap(&mut ops, &mut self.fs_operations);
        ops.insert(key, op);
        self.fs_operations = ops;
        self
    }

    /// Creates a new dir with `mode` in new MOUNT namespace.
    pub fn dir(&mut self, target: &str, mode: u32) -> (r: &mut Self)
        ensures
            r@ == (ContainerView {
                fs_operations: old(self)@.fs_operations.insert(target@, r@.fs_operations[target@]),
                ..old(self)@
            }),
            r@.fs_operations[target@] matches Operation::MakeDir(d) && d.target@ == target@ && d.mode == mode,
            *final(self) == *final(r),
    {
        proof {
            use_type_invariant(&*self);
        }
        let key = target.to_owned();
        let op = Operation::MakeDir(MakeDir { target: key.clone(), mode });
        let mut ops = StrMap::new();
        std::mem::swap(&mut ops, &mut self.fs_operations);
        ops.insert(key, op);
        self.fs_operations = ops;
        self
    }

    /// Creates a new symbolic link on the filesystem in new MOUNT namespace.
    pub fn symlink(&mut self, original: &str, link: &str) -> (r: &mut Self)
        ensures
            r@ == (ContainerView {
                fs_operations: old(self)@.fs_operations.insert(link@, r@.fs_operations[link@]),
                ..old(self)@
            }),
            r@.fs_operations[link@] matches Operation::MakeSymlink(l) && l.link@ == link@
                && l.original@ == original@,
            *final(self) == *final(r),
    {
        proof {
            use_type_invariant(&*self);
        }
        let key = link.to_owned();
        let op = Operation::MakeSymlink(MakeSymlink { original: original.to_owned(), link: key.clone() });
        let mut ops = StrMap::new();
        std::mem::swap(&mut ops, &mut self.fs_operations);
        ops.insert(key, op);
        self.fs_operations = ops;
        self
    }

    /// Map current user to uid in new USER namespace.
    ///
    /// This is a shorthand for `uidmaps(vec![(uid, <current uid>, 1)])`.
    pub fn uidmap(&mut self, uid: u32) -> (r: &mut Self)
        ensures
            exists|host: u32| r@ == #[trigger] after_uidmaps(old(self)@, seq![(uid, host, 1u32)]),
            *final(self) == *final(r),
    {
        let host = current_uid();
        let v = vec![(uid, host, 1)];
        assert(v@ =~= seq![(uid, host, 1u32)]);
        self.uidmaps(v);
        self
    }

    /// Map current group to gid in new USER namespace.
    ///
    /// This is a shorthand for `gidmaps(vec![(gid, <current gid>, 1)])`.
    pub fn gidmap(&mut self, gid: u32) -> (r: &mut Self)
        ensures
            exists|host: u32| r@ == #[trigger] after_gidmaps(old(self)@, seq![(gid, host, 1u32)]),
            *final(self) == *final(r),
    {
        let host = current_gid();
        let v = vec![(gid, host, 1)];
        assert(v@ =~= seq![(gid, host, 1u32)]);
        self.gidmaps(v);
        self
    }

    /// Create new UID maps in new USER namespace; an empty list removes
    /// the maps.
    pub fn uidmaps(&mut self, idmaps: Vec<(u32, u32, u32)>) -> (r: &Self)
        ensures
            final(self)@ == after_uidmaps(old(self)@, idmaps@),
            *r == *final(self),
    {
        proof {
            use_type_invariant(&*self);
        }
        self.uidmaps = Self::idmaps(idmaps);
        self
    }

    /// Create new GID maps in new USER namespace; an empty list removes
    /// the maps.
    pub fn gidmaps(&mut self, idmaps: Vec<(u32, u32, u32)>) -> (r: &Self)
        ensures
            final(self)@ == after_gidmaps(old(self)@, idmaps@),
            *r == *final(self),
    {
        proof {
            use_type_invariant(&*self);
        }
        self.gidmaps = Self::idmaps(idmaps);
        self
    }

    /// From `(container_id, host_id, size)` triples to id mappings.
    fn idmaps(idmaps: Vec<(u32, u32, u32)>) -> (r: Option<Vec<IdMap>>)
        ensures
            opt_seq(r) == idmaps_of(idmaps@),
    {
        if idmaps.len() == 0 {
            return None;
        }
        let mut maps: Vec<IdMap> = Vec::new();
        let mut i: usize = 0;
        while i < idmaps.len()
            invariant
                i <= idmaps@.len(),
                maps@ == idmaps@.take(i as int).map_values(
                    |t: (u32, u32, u32)| IdMap { container_id: t.0, host_id: t.1, size: t.2 },
                ),
            decreases idmaps.len() - i,
        {
            let e = idmaps[i];
            maps.push(IdMap { container_id: e.0, host_id: e.1, size: e.2 });
            assert(maps@ =~= idmaps@.take(i + 1).map_values(
                |t: (u32, u32, u32)| IdMap { container_id: t.0, host_id: t.1, size: t.2 },
            ));
            i = i + 1;
        }
        assert(idmaps@.take(idmaps@.len() as int) =~= idmaps@);
        Some(maps)
    }

    /// Changes the hostname in the new UTS namespace.
    pub fn hostname(&mut self, hostname: &str) -> (r: &mut Self)
        ensures
            r@ == (ContainerView { hostname: Some(hostname@), ..old(self)@ }),
            *final(self) == *final(r),
    {
        proof {
            use_type_invariant(&*self);
        }
        self.hostname = Some(hostname.to_owned());
        self
    }

    /// Change the network mode in new Network namespace.
    pub fn network(&mut self, network: Network) -> (r: &mut Self)
        ensures
            r@ == (ContainerView { network: Some(network@), ..old(self)@ }),
            *final(self) == *final(r),
    {
        proof {
            use_type_invariant(&*self);
        }
        self.network = Some(network);
        self
    }

    /// Set resource limit.
    pub fn setrlimit(&mut self, resource: Rlimit, soft_limit: u64, hard_limit: u64) -> (r: &mut Self)
        ensures
            r@ == (ContainerView {
                rlimits: old(self)@.rlimits.insert(resource, (soft_limit, hard_limit)),
                ..old(self)@
            }),
            *final(self) == *final(r),
    {
        proof {
            use_type_invariant(&*self);
        }
        let mut limits: Vec<(Rlimit, (u64, u64))> = Vec::new();
        std::mem::swap(&mut limits, &mut self.rlimits);
        let ghost before = limits@;
        limits.push((resource, (soft_limit, hard_limit)));
        assert(limits@.drop_last() =~= before);
        self.rlimits = limits;
        self
    }

    /// The resource limits to set: each limit that was set, once, with its
    /// last soft and hard values, in the order of the sixteen kinds.
    pub fn get_rlimits(&self) -> (limits: Vec<(Rlimit, u64, u64)>)
        ensures
            forall|i: int, j: int|
                0 <= i < j < limits@.len() ==> limits@[i].0.spec_index() < limits@[j].0.spec_index(),
            forall|i: int|
                0 <= i < limits@.len() ==> #[trigger] self@.rlimits.contains_key(limits@[i].0)
                    && self@.rlimits[limits@[i].0] == (limits@[i].1, limits@[i].2),
            forall|r: Rlimit|
                #[trigger] self@.rlimits.contains_key(r) ==> exists|i: int|
                    0 <= i < limits@.len() && limits@[i].0 == r,
    {
        let all = vec![
            Rlimit::As,
            Rlimit::Core,
            Rlimit::Cpu,
            Rlimit::Data,
            Rlimit::Fsize,
            Rlimit::Locks,
            Rlimit::Memlock,
            Rlimit::Msgqueue,
            Rlimit::Nice,
            Rlimit::Nofile,
            Rlimit::Nproc,
            Rlimit::Rss,
            Rlimit::Rtprio,
            Rlimit::Rttime,
            Rlimit::Sigpending,
            Rlimit::Stack,
        ];
        assert forall|k: int| 0 <= k < 16 implies #[trigger] all@[k] == rlimit_at(k) by {}
        let ghost settings = self.rlimits@;
        let mut limits: Vec<(Rlimit, u64, u64)> = Vec::new();
        let mut k: usize = 0;
        while k < 16
            invariant
                k <= 16,
                all@.len() == 16,
                forall|m: int| 0 <= m < 16 ==> #[trigger] all@[m] == rlimit_at(m),
                settings == self.rlimits@,
                self@.rlimits == limits_map(settings),
                forall|i: int, j: int|
                    0 <= i < j < limits@.len() ==> limits@[i].0.spec_index() < limits@[j].0.spec_index(),
                forall|i: int| 0 <= i < limits@.len() ==> limits@[i].0.spec_index() < k,
                forall|i: int|
                    0 <= i < limits@.len() ==> #[trigger] self@.rlimits.contains_key(limits@[i].0)
                        && self@.rlimits[limits@[i].0] == (limits@[i].1, limits@[i].2),
                forall|r: Rlimit|
                    r.spec_index() < k && #[trigger] self@.rlimits.contains_key(r) ==> exists|i: int|
                        0 <= i < limits@.len() && limits@[i].0 == r,
            decreases 16 - k,
        {
            let r = all[k];
            proof {
                crate::rlimit::lemma_rlimit_index(r, r);
            }
            let mut found: Option<(u64, u64)> = None;
            let mut j: usize = 0;
            while j < self.rlimits.len()
                invariant
                    j <= settings.len(),
                    settings == self.rlimits@,
                    found == last_setting(settings.take(j as int), r),
                decreases self.rlimits.len() - j,
            {
                assert(settings.take(j + 1).drop_last() =~= settings.take(j as int));
                if self.rlimits[j].0 == r {
                    found = Some(self.rlimits[j].1);
                }
                j = j + 1;
            }
            assert(settings.take(settings.len() as int) =~= settings);
            proof {
                lemma_limits_map(settings, r);
            }
            if let Some((soft, hard)) = found {
                let ghost before = limits@;
                limits.push((r, soft, hard));
                proof {
                    assert forall|q: Rlimit|
                        q.spec_index() < k + 1 && #[trigger] self@.rlimits.contains_key(q) implies exists|i: int|
                        0 <= i < limits@.len() && limits@[i].0 == q by {
                        crate::rlimit::lemma_rlimit_index(q, r);
                        if q.spec_index() < k {
                            let i = choose|i: int| 0 <= i < before.len() && before[i].0 == q;
                            assert(limits@[i].0 == q);
                        } else {
                            assert(limits@[before.len() as int].0 == q);
                        }
                    }
                }
            } else {
                proof {
                    assert forall|q: Rlimit|
                        q.spec_index() < k + 1 && #[trigger] self@.rlimits.contains_key(q) implies exists|i: int|
                        0 <= i < limits@.len() && limits@[i].0 == q by {
                        crate::rlimit::lemma_rlimit_index(q, r);
                    }
                }
            }
            k = k + 1;
        }
        proof {
            assert forall|r: Rlimit| #[trigger] self@.rlimits.contains_key(r) implies exists|i: int|
                0 <= i < limits@.len() && limits@[i].0 == r by {
                crate::rlimit::lemma_rlimit_index(r, r);
            }
        }
        limits
    }

    /// Set landlock ruleset.
    pub fn landlock_ruleset(&mut self, ruleset: Ruleset) -> (r: &mut Self)
        ensures
            r@ == (ContainerView { landlock_ruleset: Some(ruleset@), ..old(self)@ }),
            *final(self) == *final(r),
    {
        proof {
            use_type_invariant(&*self);
        }
        self.landlock_ruleset = Some(ruleset);
        self
    }

    /// Manipulates various aspects of the behavior of the container.
    pub fn runctl(&mut self, ctl: Runctl) -> (r: &mut Self)
        ensures
            r@ == (ContainerView { runctl: old(self)@.runctl.insert(ctl), ..old(self)@ }),
            *final(self) == *final(r),
    {
        proof {
            use_type_invariant(&*self);
        }
        let i: u8 = ctl.index() as u8;
        self.runctl = self.runctl | (1u8 << i);
        proof {
            assert forall|c: Runctl| self@.runctl.contains(c) == old(self)@.runctl.insert(ctl).contains(c) by {
                lemma_bit_update(old(self).runctl, i, c.spec_index() as u8);
            }
        }
        assert(self@.runctl =~= old(self)@.runctl.insert(ctl));
        self
    }

    /// Constructs a new Command for launching the program at path `program`
    /// within container.
    pub fn command(&self, program: &str) -> (c: Command)
        ensures
            c@.container == self@,
            c@.program == program@,
            c@.args == Seq::<Seq<char>>::empty(),
            c@.envs == Map::<Seq<char>, Seq<char>>::empty(),
            c@.dir is None,
            c@.stdin is None,
            c@.stdout is None,
            c@.stderr is None,
            c@.wait_timeout is None,
    {
        Command::new(program, self.duplicate())
    }

    /// A container with the same configuration.
    pub fn duplicate(&self) -> (r: Container)
        ensures
            r@ == self@,
    {
        proof {
            use_type_invariant(self);
        }
        let r = Container {
            namespaces: self.namespaces,
            rootdir: copy_string(&self.rootdir),
            mounts: self.mounts.duplicate(),
            fs_operations: self.fs_operations.duplicate(),
            uidmaps: copy_idmaps(&self.uidmaps),
            gidmaps: copy_idmaps(&self.gidmaps),
            hostname: copy_string(&self.hostname),
            network: match &self.network {
                Some(n) => Some(n.duplicate()),
                None => None,
            },
            rlimits: copy_limits(&self.rlimits),
            landlock_ruleset: match &self.landlock_ruleset {
                Some(r) => Some(r.duplicate()),
                None => None,
            },
            runctl: self.runctl,
        };
        assert(r@.namespaces =~= self@.namespaces);
        assert(r@.runctl =~= self@.runctl);
        r
    }

    /// The UID mappings of the new USER namespace, if any.
    pub fn get_uidmaps(&self) -> (m: Option<&Vec<IdMap>>)
        ensures
            match m {
                Some(v) => self@.uidmaps == Some(v@),
                None => self@.uidmaps is None,
            },
    {
        match &self.uidmaps {
            Some(v) => Some(v),
            None => None,
        }
    }

    /// The GID mappings of the new USER namespace, if any.
    pub fn get_gidmaps(&self) -> (m: Option<&Vec<IdMap>>)
        ensures
            match m {
                Some(v) => self@.gidmaps == Some(v@),
                None => self@.gidmaps is None,
            },
    {
        match &self.gidmaps {
            Some(v) => Some(v),
            None => None,
        }
    }

    /// The landlock ruleset, if one is set.
    pub fn get_landlock_ruleset(&self) -> (r: Option<&Ruleset>)
        ensures
            match r {
                Some(r) => self@.landlock_ruleset == Some(r@),
                None => self@.landlock_ruleset is None,
            },
    {
        match &self.landlock_ruleset {
            Some(r) => Some(r),
            None => None,
        }
    }

    /// The network mode of the new Network namespace, if one is set.
    pub fn get_network(&self) -> (n: Option<&Network>)
        ensures
            match n {
                Some(n) => self@.network == Some(n@),
                None => self@.network is None,
            },
    {
        match &self.network {
            Some(n) => Some(n),
            None => None,
        }
    }

    /// The clone flags of the namespaces to create.
    pub fn get_namespaces_clone_flags(&self) -> (f: CloneFlags)
        ensures
            f.bits == clone_bits(self@.namespaces),
            forall|n: Namespace| ((f.bits & #[trigger] linux_clone_bit(n)) != 0) == self@.namespaces.contains(n),
            f.bits & !linux_clone_bits_all() == 0,
    {
        let m = self.namespaces;
        let mut flags = CloneFlags::empty();
        if m & 1 != 0 {
            flags.insert(Namespace::Ipc.to_clone_flag());
        }
        if m & 2 != 0 {
            flags.insert(Namespace::Network.to_clone_flag());
        }
        if m & 4 != 0 {
            flags.insert(Namespace::Mount.to_clone_flag());
        }
        if m & 8 != 0 {
            flags.insert(Namespace::Pid.to_clone_flag());
        }
        if m & 16 != 0 {
            flags.insert(Namespace::User.to_clone_flag());
        }
        if m & 32 != 0 {
            flags.insert(Namespace::Uts.to_clone_flag());
        }
        proof {
            assert((1u8 << 0u8) == 1u8 && (1u8 << 1u8) == 2u8 && (1u8 << 2u8) == 4u8 && (1u8 << 3u8) == 8u8
                && (1u8 << 4u8) == 16u8 && (1u8 << 5u8) == 32u8) by (bit_vector);
            assert(self@.namespaces.contains(Namespace::Ipc) == (m & 1 != 0));
            assert(self@.namespaces.contains(Namespace::Network) == (m & 2 != 0));
            assert(self@.namespaces.contains(Namespace::Mount) == (m & 4 != 0));
            assert(self@.namespaces.contains(Namespace::Pid) == (m & 8 != 0));
            assert(self@.namespaces.contains(Namespace::User) == (m & 16 != 0));
            assert(self@.namespaces.contains(Namespace::Uts) == (m & 32 != 0));
            let a = if m & 1 != 0 { CLONE_NEWIPC } else { 0i32 };
            let b = if m & 2 != 0 { CLONE_NEWNET } else { 0i32 };
            let c = if m & 4 != 0 { CLONE_NEWNS } else { 0i32 };
            let d = if m & 8 != 0 { CLONE_NEWPID } else { 0i32 };
            let e = if m & 16 != 0 { CLONE_NEWUSER } else { 0i32 };
            let g = if m & 32 != 0 { CLONE_NEWUTS } else { 0i32 };
            assert(flags.bits == a | b | c | d | e | g) by {
                assert(0i32 | 0i32 == 0i32) by (bit_vector);
                assert(forall|x: i32| #[trigger] (x | 0i32) == x) by (bit_vector);
                assert(forall|x: i32| #[trigger] (0i32 | x) == x) by (bit_vector);
            }
        }
        proof {
            lemma_clone_bits(self@.namespaces);
        }
        flags
    }

    /// The mounts, in ascending order of target path.
    pub fn get_mounts(&self) -> (mounts: Vec<&Mount>)
        ensures
            mounts@.len() == self@.mounts.dom().len(),
            forall|i: int, j: int|
                0 <= i < j < mounts@.len() ==> char_seq_lt(mounts@[i].target@, mounts@[j].target@),
            forall|i: int|
                0 <= i < mounts@.len() ==> #[trigger] self@.mounts.contains_key(mounts@[i].target@)
                    && self@.mounts[mounts@[i].target@] == *mounts@[i],
            forall|k: Seq<char>|
                #[trigger] self@.mounts.contains_key(k) ==> exists|i: int|
                    0 <= i < mounts@.len() && mounts@[i].target@ == k,
    {
        proof {
            use_type_invariant(self);
            self.mounts.lemma_in_order();
        }
        let ghost listing = self.mounts.in_order();
        let n: usize = self.mounts.len();
        let mut mounts: Vec<&Mount> = Vec::new();
        let mut i: usize = 0;
        while i < n
            invariant
                n == listing.len(),
                i <= n,
                listing == self.mounts.in_order(),
                lists_in_order(listing, self.mounts@),
                forall|k: Seq<char>| #[trigger] self.mounts@.contains_key(k) ==> self.mounts@[k].target@ == k,
                mounts@.len() == i,
                forall|j: int| 0 <= j < i ==> *mounts@[j] == listing[j].1 && mounts@[j].target@ == listing[j].0,
            decreases n - i,
        {
            let (_k, v) = self.mounts.entry_at(i);
            proof {
                assert(self.mounts@.contains_key(listing[i as int].0));
            }
            mounts.push(v);
            i = i + 1;
        }
        proof {
            assert forall|k: Seq<char>| #[trigger] self@.mounts.contains_key(k) implies exists|i: int|
                0 <= i < mounts@.len() && mounts@[i].target@ == k by {
                let i = choose|i: int| 0 <= i < listing.len() && listing[i].0 == k;
                assert(mounts@[i].target@ == k);
            }
        }
        mounts
    }

    /// The mount of a new procfs with the least target path, if any.
    #[verifier::loop_isolation(false)]
    pub fn get_mount_newproc(&self) -> (m: Option<&Mount>)
        ensures
            m matches Some(m) ==> self@.mounts.contains_key(m.target@) && self@.mounts[m.target@] == *m
                && m.fstype@ == "proc"@,
            m matches Some(m) ==> forall|k: Seq<char>|
                #[trigger] self@.mounts.contains_key(k) && self@.mounts[k].fstype@ == "proc"@ ==> !char_seq_lt(
                    k,
                    m.target@,
                ),
            m is None ==> forall|k: Seq<char>|
                #[trigger] self@.mounts.contains_key(k) ==> self@.mounts[k].fstype@ != "proc"@,
    {
        let mounts = self.get_mounts();
        let mut i: usize = 0;
        while i < mounts.len()
            invariant
                i <= mounts@.len(),
                forall|j: int| 0 <= j < i ==> mounts@[j].fstype@ != "proc"@,
            decreases mounts.len() - i,
        {
            if str_eq(mounts[i].fstype.as_str(), "proc") {
                proof {
                    assert(self@.mounts.contains_key(mounts@[i as int].target@));
                    assert forall|k: Seq<char>|
                        #[trigger] self@.mounts.contains_key(k) && self@.mounts[k].fstype@ == "proc"@ implies !char_seq_lt(
                        k,
                        mounts@[i as int].target@,
                    ) by {
                        let j = choose|j: int| 0 <= j < mounts@.len() && mounts@[j].target@ == k;
                        assert(self@.mounts.contains_key(mounts@[j].target@));
                        if j < i {
                        } else if j > i {
                            assert(char_seq_lt(mounts@[i as int].target@, mounts@[j].target@));
                            crate::text::lemma_lt_total(mounts@[i as int].target@, k);
                        } else {
                            crate::text::lemma_lt_irreflexive(k);
                        }
                    }
                }
                return Some(mounts[i]);
            }
            i = i + 1;
        }
        proof {
            assert forall|k: Seq<char>| #[trigger] self@.mounts.contains_key(k) implies self@.mounts[k].fstype@
                != "proc"@ by {
                let j = choose|j: int| 0 <= j < mounts@.len() && mounts@[j].target@ == k;
                assert(self@.mounts.contains_key(mounts@[j].target@));
            }
        }
        None
    }

    /// The filesystem operations, in ascending order of the path that they
    /// create.
    pub fn get_fs_operations(&self) -> (ops: Vec<&Operation>)
        ensures
            ops@.len() == self@.fs_operations.dom().len(),
            forall|i: int, j: int|
                0 <= i < j < ops@.len() ==> char_seq_lt(ops@[i].spec_target(), ops@[j].spec_target()),
            forall|i: int|
                0 <= i < ops@.len() ==> #[trigger] self@.fs_operations.contains_key(ops@[i].spec_target())
                    && self@.fs_operations[ops@[i].spec_target()] == *ops@[i],
            forall|k: Seq<char>|
                #[trigger] self@.fs_operations.contains_key(k) ==> exists|i: int|
                    0 <= i < ops@.len() && ops@[i].spec_target() == k,
    {
        proof {
            use_type_invariant(self);
            self.fs_operations.lemma_in_order();
        }
        let ghost listing = self.fs_operations.in_order();
        let n: usize = self.fs_operations.len();
        let mut ops: Vec<&Operation> = Vec::new();
        let mut i: usize = 0;
        while i < n
            invariant
                n == listing.len(),
                i <= n,
                listing == self.fs_operations.in_order(),
                lists_in_order(listing, self.fs_operations@),
                forall|k: Seq<char>| #[trigger]
                    self.fs_operations@.contains_key(k) ==> self.fs_operations@[k].spec_target() == k,
                ops@.len() == i,
                forall|j: int| 0 <= j < i ==> *ops@[j] == listing[j].1 && ops@[j].spec_target() == listing[j].0,
            decreases n - i,
        {
            let (_k, v) = self.fs_operations.entry_at(i);
            proof {
                assert(self.fs_operations@.contains_key(listing[i as int].0));
            }
            ops.push(v);
            i = i + 1;
        }
        proof {
            assert forall|k: Seq<char>| #[trigger] self@.fs_operations.contains_key(k) implies exists|i: int|
                0 <= i < ops@.len() && ops@[i].spec_target() == k by {
                let i = choose|i: int| 0 <= i < listing.len() && listing[i].0 == k;
                assert(ops@[i].spec_target() == k);
            }
        }
        ops
    }

    /// Returns the setup requests of the main process in bit flags.
    pub fn get_mainp_setup_operations(&self) -> (ops: u8)
        ensures
            ops == self@.mainp_setup_operations(),
            (ops & 1 != 0) == (self@.namespaces.contains(Namespace::Network) && self@.network is Some),
            (ops & 2 != 0) == (self@.namespaces.contains(Namespace::User) && ((self@.uidmaps matches Some(m)
                && m.len() > 1) || (self@.gidmaps matches Some(m) && m.len() > 1))),
            ops & !3u8 == 0,
    {
        proof {
            lemma_mainp_setup_operations(self@);
        }
        let mut operations: u8 = 0;
        if self.needs_mainp_setup_network() {
            operations = operations | SETUP_NETWORK;
        }
        if self.needs_mainp_setup_ugidmap() {
            operations = operations | SETUP_UGIDMAP;
        }
        assert(0u8 | 1u8 == 1u8 && 0u8 | 2u8 == 2u8 && 0u8 | 0u8 == 0u8 && 1u8 | 2u8 == 3u8 && 1u8 | 0u8 == 1u8) by (bit_vector);
        operations
    }

    /// Whether a namespace of kind `n` is created.
    pub fn has_namespace(&self, n: Namespace) -> (b: bool)
        ensures
            b == self@.namespaces.contains(n),
    {
        let i: u8 = n.index() as u8;
        self.namespaces & (1u8 << i) != 0
    }

    /// Returns true if the container needs the main process to setup
    /// the network.
    pub fn needs_mainp_setup_network(&self) -> (b: bool)
        ensures
            b == self@.needs_mainp_setup_network(),
            b == (self@.namespaces.contains(Namespace::Network) && self@.network is Some),
    {
        if !self.has_namespace(Namespace::Network) {
            return false;
        }
        self.network.is_some()
    }

    /// Returns true if the container needs the main process to setup
    /// the [ug]idmap.
    pub fn needs_mainp_setup_ugidmap(&self) -> (b: bool)
        ensures
            b == self@.needs_mainp_setup_ugidmap(),
            b == (self@.namespaces.contains(Namespace::User) && ((self@.uidmaps matches Some(m) && m.len() > 1)
                || (self@.gidmaps matches Some(m) && m.len() > 1))),
    {
        if !self.has_namespace(Namespace::User) {
            return false;
        }
        let u = match &self.uidmaps {
            Some(m) => m.len(),
            None => 0,
        };
        let g = match &self.gidmaps {
            Some(m) => m.len(),
            None => 0,
        };
        u > 1 || g > 1
    }

    /// Returns true if the container needs the child process to stop
    /// the internal process at exit.
    pub fn needs_childp_traceexit(&self) -> (b: bool)
        ensures
            b == self@.needs_childp_traceexit(),
    {
        let a = Runctl::GetProcPidSmapsRollup.index() as u8;
        let b = Runctl::GetProcPidStatus.index() as u8;
        self.runctl & (1u8 << a) != 0 || self.runctl & (1u8 << b) != 0
    }
}

/// A copy of an optional string.
fn copy_string(s: &Option<String>) -> (r: Option<String>)
    ensures
        opt_chars(r) == opt_chars(*s),
{
    match s {
        Some(s) => Some(s.clone()),
        None => None,
    }
}

/// A copy of optional id mappings.
fn copy_idmaps(v: &Option<Vec<IdMap>>) -> (r: Option<Vec<IdMap>>)
    ensures
        opt_seq(r) == opt_seq(*v),
{
    match v {
        Some(v) => Some(copy_vec(v)),
        None => None,
    }
}

/// A copy of the limit settings.
fn copy_limits(v: &Vec<(Rlimit, (u64, u64))>) -> (r: Vec<(Rlimit, (u64, u64))>)
    ensures
        r@ == v@,
{
    copy_vec(v)
}

/// A copy of a vector of plain values.
fn copy_vec<T: Copy>(v: &Vec<T>) -> (r: Vec<T>)
    ensures
        r@ == v@,
{
    let mut c: Vec<T> = Vec::new();
    let mut i: usize = 0;
    while i < v.len()
        invariant
            i <= v@.len(),
            c@ == v@.take(i as int),
        decreases v.len() - i,
    {
        c.push(v[i]);
        assert(c@ =~= v@.take(i + 1));
        i = i + 1;
    }
    assert(c@ =~= v@);
    c
}

} // verus!
