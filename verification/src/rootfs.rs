use vstd::prelude::*;

use crate::container::{bind_ro_options, mount_is, Container, ContainerView};
use crate::fs::Operation;
use crate::seqs::views_of;
use crate::text::{push_str, str_eq};

verus! {

/// An entry of the host directory that a container takes as its root
/// filesystem, as the host reports it.
#[derive(Clone, Debug)]
pub struct RootfsEntry {
    /// The entry's path relative to that directory, such as `bin`.
    pub relpath: String,
    /// The entry's path on the host.
    pub host_path: String,
    /// Whether the entry is a directory, or a symbolic link to one.
    pub is_dir: bool,
    /// What the entry points to, when it is a symbolic link.
    pub link_target: Option<String>,
}

/// The path in the container that a rootfs entry appears at.
pub open spec fn rootfs_target(e: RootfsEntry) -> Seq<char> {
    "/"@ + e.relpath@
}

/// Whether a rootfs entry is taken into the container: a directory other
/// than the one where procfs goes.
pub open spec fn rootfs_taken(e: RootfsEntry) -> bool {
    e.is_dir && rootfs_target(e) != "/proc"@
}

/// The index of the last entry of `entries` that is taken into the
/// container at `k`, as a symbolic link when `links` holds and as a
/// read-only bind mount otherwise.
pub open spec fn last_rootfs_entry(entries: Seq<RootfsEntry>, k: Seq<char>, links: bool) -> Option<int>
    decreases entries.len(),
{
    if entries.len() == 0 {
        None
    } else {
        let e = entries.last();
        if rootfs_taken(e) && (e.link_target is Some) == links && rootfs_target(e) == k {
            Some(entries.len() - 1)
        } else {
            last_rootfs_entry(entries.drop_last(), k, links)
        }
    }
}

/// The entry that `last_rootfs_entry` finds is one of `entries`, taken at
/// `k` in the way asked for.
proof fn lemma_last_rootfs_entry(entries: Seq<RootfsEntry>, k: Seq<char>, links: bool)
    ensures
        last_rootfs_entry(entries, k, links) matches Some(j) ==> 0 <= j < entries.len() && rootfs_taken(
            entries[j],
        ) && (entries[j].link_target is Some) == links && rootfs_target(entries[j]) == k,
    decreases entries.len(),
{
    if entries.len() > 0 {
        let rest = entries.drop_last();
        lemma_last_rootfs_entry(rest, k, links);
        if let Some(j) = last_rootfs_entry(rest, k, links) {
            assert(rest[j] == entries[j]);
        }
    }
}

/// What taking `entries` as the root filesystem leaves of the container
/// `old`: every entry taken is bind mounted read-only on its target, or
/// linked there when it is a symbolic link, the last entry for a target
/// winning; nothing else changes.
pub open spec fn rootfs_applied(old: ContainerView, new: ContainerView, entries: Seq<RootfsEntry>) -> bool {
    &&& new == (ContainerView { mounts: new.mounts, fs_operations: new.fs_operations, ..old })
    &&& forall|k: Seq<char>|
        #![trigger new.mounts.contains_key(k)]
        #![trigger last_rootfs_entry(entries, k, false)]
        new.mounts.contains_key(k) <==> (old.mounts.contains_key(k) || last_rootfs_entry(
            entries,
            k,
            false,
        ) is Some)
    &&& forall|k: Seq<char>|
        #![trigger new.mounts[k]]
        old.mounts.contains_key(k) && last_rootfs_entry(entries, k, false) is None ==> new.mounts[k]
            == old.mounts[k]
    &&& forall|k: Seq<char>|
        #![trigger last_rootfs_entry(entries, k, false)]
        last_rootfs_entry(entries, k, false) matches Some(i) ==> mount_is(
            new.mounts[k],
            entries[i].host_path@,
            k,
            ""@,
            bind_ro_options(),
        )
    &&& forall|k: Seq<char>|
        #![trigger new.fs_operations.contains_key(k)]
        #![trigger last_rootfs_entry(entries, k, true)]
        new.fs_operations.contains_key(k) <==> (old.fs_operations.contains_key(k)
            || last_rootfs_entry(entries, k, true) is Some)
    &&& forall|k: Seq<char>|
        #![trigger new.fs_operations[k]]
        old.fs_operations.contains_key(k) && last_rootfs_entry(entries, k, true) is None
            ==> new.fs_operations[k] == old.fs_operations[k]
    &&& forall|k: Seq<char>|
        #![trigger last_rootfs_entry(entries, k, true)]
        last_rootfs_entry(entries, k, true) matches Some(i) ==> (new.fs_operations[k] matches Operation::MakeSymlink(
            l,
        ) && l.link@ == k && Some(l.original@) == (match entries[i].link_target {
            Some(t) => Some(t@),
            None => None,
        }))
}

/// The directories of the host root that a container whose root
/// filesystem is `/` takes: `/bin`, `/etc`, `/lib`, `/lib64`, `/lib32`,
/// `/sbin` and `/usr`.
pub fn host_root_dirs() -> (v: Vec<String>)
    ensures
        views_of(v@) == seq!["/bin"@, "/etc"@, "/lib"@, "/lib64"@, "/lib32"@, "/sbin"@, "/usr"@],
{
    let mut v: Vec<String> = Vec::new();
    v.push("/bin".to_owned());
    v.push("/etc".to_owned());
    v.push("/lib".to_owned());
    v.push("/lib64".to_owned());
    v.push("/lib32".to_owned());
    v.push("/sbin".to_owned());
    v.push("/usr".to_owned());
    assert(views_of(v@) =~= seq!["/bin"@, "/etc"@, "/lib"@, "/lib64"@, "/lib32"@, "/sbin"@, "/usr"@]);
    v
}

impl Container {
    /// Bind mount the subdirectories of a host directory to the container
    /// with read-only access in new MOUNT namespace.
    ///
    /// `entries` are the entries of that directory, in the order in which
    /// they were read. An entry that is not a directory is passed over, and
    /// so is `proc`; a symbolic link is recreated as a link, any other
    /// directory is bind mounted read-only on `/` followed by its relative
    /// path.
    pub fn rootfs(&mut self, entries: &[RootfsEntry]) -> (r: &mut Self)
        ensures
            rootfs_applied(old(self)@, r@, entries@),
            *final(self) == *final(r),
    {
        let ghost start = self@;
        let mut i: usize = 0;
        while i < entries.len()
            invariant
                i <= entries@.len(),
                rootfs_applied(start, self@, entries@.take(i as int)),
            decreases entries.len() - i,
        {
            let e = &entries[i];
            let mut target = String::new();
            push_str(&mut target, "/");
            push_str(&mut target, e.relpath.as_str());
            assert(target@ == rootfs_target(*e));
            if e.is_dir && !str_eq(target.as_str(), "/proc") {
                match &e.link_target {
                    Some(original) => {
                        self.symlink(original.as_str(), target.as_str());
                    },
                    None => {
                        self.bindmount_ro(e.host_path.as_str(), target.as_str());
                    },
                }
            }
            proof {
                let taken = entries@.take(i + 1);
                let prev = entries@.take(i as int);
                assert(taken.drop_last() =~= prev);
                assert(taken.last() == entries@[i as int]);
                assert forall|k: Seq<char>, b: bool| #[trigger]
                    last_rootfs_entry(taken, k, b) == (if rootfs_taken(*e) && (e.link_target is Some)
                        == b && rootfs_target(*e) == k {
                        Some(i as int)
                    } else {
                        last_rootfs_entry(prev, k, b)
                    }) by {}
                assert(self@ == (ContainerView { mounts: self@.mounts, fs_operations: self@.fs_operations, ..start }));
                assert forall|k: Seq<char>| #[trigger] self@.mounts.contains_key(k) <==> (start.mounts.contains_key(k)
                    || last_rootfs_entry(taken, k, false) is Some) by {}
                assert forall|k: Seq<char>| #[trigger] self@.fs_operations.contains_key(k) <==> (
                    start.fs_operations.contains_key(k) || last_rootfs_entry(taken, k, true) is Some) by {}
                assert forall|k: Seq<char>| start.mounts.contains_key(k) && last_rootfs_entry(taken, k, false) is None
                    implies #[trigger] self@.mounts[k] == start.mounts[k] by {
                    assert(last_rootfs_entry(prev, k, false) is None);
                }
                assert forall|k: Seq<char>| start.fs_operations.contains_key(k) && last_rootfs_entry(taken, k, true) is None
                    implies #[trigger] self@.fs_operations[k] == start.fs_operations[k] by {
                    assert(last_rootfs_entry(prev, k, true) is None);
                }
                assert forall|k: Seq<char>| #[trigger] last_rootfs_entry(taken, k, false) is Some implies mount_is(
                    self@.mounts[k],
                    taken[last_rootfs_entry(taken, k, false)->0].host_path@,
                    k,
                    ""@,
                    bind_ro_options(),
                ) by {
                    let j = last_rootfs_entry(taken, k, false)->0;
                    lemma_last_rootfs_entry(prev, k, false);
                    if j < i {
                        assert(prev[j] == taken[j]);
                    }
                }
                assert forall|k: Seq<char>| #[trigger] last_rootfs_entry(taken, k, true) is Some implies (
                self@.fs_operations[k] matches Operation::MakeSymlink(l) && l.link@ == k && Some(l.original@) == (
                match taken[last_rootfs_entry(taken, k, true)->0].link_target {
                    Some(t) => Some(t@),
                    None => None,
                })) by {
                    let j = last_rootfs_entry(taken, k, true)->0;
                    lemma_last_rootfs_entry(prev, k, true);
                    if j < i {
                        assert(prev[j] == taken[j]);
                    }
                }
                assert(rootfs_applied(start, self@, taken));
            }
            i = i + 1;
        }
        assert(entries@.take(entries@.len() as int) =~= entries@);
        self
    }
}

} // verus!
