use hakoniwa::{
    host_root_dirs, Container, FsOperation, MountOptions, Namespace, Network, Pasta, Rlimit,
    RootfsEntry, Runctl, SETUP_NETWORK, SETUP_UGIDMAP,
};

fn targets(c: &Container) -> Vec<String> {
    c.get_mounts().iter().map(|m| m.target.clone()).collect()
}

#[test]
fn new_container_unshares_mount_user_pid_and_mounts_proc() {
    let c = Container::new();
    let flags = c.get_namespaces_clone_flags();
    assert_eq!(flags.bits, 0x0002_0000 | 0x1000_0000 | 0x2000_0000);
    let proc = c.get_mount_newproc().unwrap();
    assert_eq!(proc.source, "proc");
    assert_eq!(proc.target, "/proc");
    assert_eq!(proc.fstype, "proc");
    assert_eq!(proc.options.bits, 2 | 4 | 8);
    assert!(!c.needs_mainp_setup_network());
    assert!(!c.needs_mainp_setup_ugidmap());
    assert_eq!(c.get_mainp_setup_operations(), 0);
}

#[test]
fn empty_container_has_nothing() {
    let c = Container::empty();
    assert!(c.get_namespaces_clone_flags().is_empty());
    assert!(c.get_mounts().is_empty());
    assert!(c.get_fs_operations().is_empty());
    assert!(c.get_mount_newproc().is_none());
    assert!(!c.needs_childp_traceexit());
}

#[test]
fn share_and_unshare_toggle_one_namespace() {
    let mut c = Container::empty();
    c.unshare(Namespace::Network).unshare(Namespace::Uts);
    assert_eq!(c.get_namespaces_clone_flags().bits, 0x4000_0000 | 0x0400_0000);
    c.share(Namespace::Network);
    assert_eq!(c.get_namespaces_clone_flags().bits, 0x0400_0000);
    c.share(Namespace::Network);
    assert_eq!(c.get_namespaces_clone_flags().bits, 0x0400_0000);
}

#[test]
fn mounts_come_sorted_by_target_and_later_mount_replaces() {
    let mut c = Container::empty();
    c.bindmount_ro("/usr", "/usr")
        .bindmount_rw("/home/user", "/home")
        .tmpfsmount("/tmp")
        .bindmount_ro("/bin", "/bin");
    assert_eq!(targets(&c), vec!["/bin", "/home", "/tmp", "/usr"]);
    let home = c.get_mounts()[1];
    assert_eq!(home.source, "/home/user");
    assert_eq!(home.options.bits, 4096 | 16384 | 2);
    c.bindmount_ro("/srv", "/home");
    let home = c.get_mounts()[1];
    assert_eq!(home.source, "/srv");
    assert_eq!(home.options.bits, 4096 | 16384 | 2 | 1);
    assert_eq!(c.get_mounts().len(), 4);
    let tmp = c.get_mounts()[2];
    assert_eq!(tmp.fstype, "tmpfs");
    assert_eq!(tmp.options.bits, 2 | 4);
}

#[test]
fn custom_mount_keeps_options() {
    let mut c = Container::empty();
    let opts = MountOptions::RDONLY().union(MountOptions::NOEXEC());
    c.mount("none", "/data", "tmpfs", opts);
    let m = c.get_mounts()[0];
    assert_eq!(m.fstype, "tmpfs");
    assert_eq!(m.options.bits, 1 | 8);
    assert!(m.options.contains(MountOptions::RDONLY()));
    assert!(!m.options.contains(MountOptions::BIND()));
}

#[test]
fn fs_operations_sorted_by_target() {
    let mut c = Container::empty();
    c.file("/etc/hosts", "127.0.0.1 localhost")
        .dir("/var/tmp", 0o1777)
        .symlink("/usr/bin", "/bin");
    let ops = c.get_fs_operations();
    assert_eq!(ops.len(), 3);
    assert_eq!(ops[0].to_string(), "symlink: /bin -> /usr/bin");
    match ops[1] {
        FsOperation::WriteFile(f) => {
            assert_eq!(f.target, "/etc/hosts");
            assert_eq!(f.contents, "127.0.0.1 localhost");
        }
        _ => panic!("expected a file"),
    }
    match ops[2] {
        FsOperation::MakeDir(d) => assert_eq!(d.mode, 0o1777),
        _ => panic!("expected a directory"),
    }
}

#[test]
fn ugidmap_setup_needed_only_for_several_maps() {
    let mut c = Container::new();
    c.uidmaps(vec![(0, 1000, 1), (1, 100000, 65536)]);
    assert!(c.needs_mainp_setup_ugidmap());
    assert_eq!(c.get_mainp_setup_operations(), SETUP_UGIDMAP);
    c.uidmaps(vec![(0, 1000, 1)]);
    assert!(!c.needs_mainp_setup_ugidmap());
    c.gidmaps(vec![(0, 1000, 1), (1, 100000, 65536)]);
    assert!(c.needs_mainp_setup_ugidmap());
    c.share(Namespace::User);
    assert!(!c.needs_mainp_setup_ugidmap());
}

#[test]
fn network_setup_needs_namespace_and_mode() {
    let mut c = Container::new();
    c.network(Network::from(Pasta::default()));
    assert!(!c.needs_mainp_setup_network());
    c.unshare(Namespace::Network);
    assert!(c.needs_mainp_setup_network());
    assert_eq!(c.get_mainp_setup_operations(), SETUP_NETWORK);
    c.uidmaps(vec![(0, 1000, 1), (1, 100000, 65536)]);
    assert_eq!(c.get_mainp_setup_operations(), SETUP_NETWORK | SETUP_UGIDMAP);
}

#[test]
fn runctl_switches_trace_exit() {
    let mut c = Container::new();
    assert!(!c.needs_childp_traceexit());
    c.runctl(Runctl::GetProcPidStatus);
    assert!(c.needs_childp_traceexit());
    let mut d = Container::new();
    d.runctl(Runctl::GetProcPidSmapsRollup);
    assert!(d.needs_childp_traceexit());
}

#[test]
fn command_carries_container_and_program() {
    let mut c = Container::new();
    c.setrlimit(Rlimit::Nofile, 32, 64).hostname("box");
    let cmd = c.command("/bin/echo");
    assert_eq!(cmd.get_program(), "/bin/echo");
    assert!(cmd.get_args().is_empty());
    assert_eq!(cmd.get_container().get_mount_newproc().unwrap().target, "/proc");
}

#[test]
fn duplicate_keeps_configuration() {
    let mut c = Container::new();
    c.bindmount_ro("/bin", "/bin").file("/a", "b");
    let d = c.duplicate();
    assert_eq!(targets(&d), targets(&c));
    assert_eq!(d.get_fs_operations().len(), 1);
}

fn entry(rel: &str, host: &str, is_dir: bool, link: Option<&str>) -> RootfsEntry {
    RootfsEntry {
        relpath: rel.to_string(),
        host_path: host.to_string(),
        is_dir,
        link_target: link.map(|s| s.to_string()),
    }
}

#[test]
fn rootfs_mounts_dirs_links_symlinks_and_skips_proc() {
    let mut c = Container::empty();
    c.rootfs(&[
        entry("usr", "/srv/root/usr", true, None),
        entry("bin", "/srv/root/bin", true, Some("usr/bin")),
        entry("proc", "/srv/root/proc", true, None),
        entry("README", "/srv/root/README", false, None),
        entry("etc", "/srv/root/etc", true, None),
    ]);
    assert_eq!(targets(&c), vec!["/etc", "/usr"]);
    let usr = c.get_mounts()[1];
    assert_eq!(usr.source, "/srv/root/usr");
    assert_eq!(usr.options.bits, 4096 | 16384 | 2 | 1);
    let ops = c.get_fs_operations();
    assert_eq!(ops.len(), 1);
    assert_eq!(ops[0].to_string(), "symlink: /bin -> usr/bin");
}

#[test]
fn rootfs_later_entry_for_a_target_wins() {
    let mut c = Container::empty();
    c.rootfs(&[
        entry("lib", "/a/lib", true, None),
        entry("lib", "/b/lib", true, None),
    ]);
    assert_eq!(c.get_mounts().len(), 1);
    assert_eq!(c.get_mounts()[0].source, "/b/lib");
}

#[test]
fn host_root_dirs_are_the_seven_system_dirs() {
    assert_eq!(
        host_root_dirs(),
        vec!["/bin", "/etc", "/lib", "/lib64", "/lib32", "/sbin", "/usr"]
    );
}

#[test]
fn new_container_maps_current_user_to_itself() {
    let c = Container::new();
    let uid = nix::unistd::getuid().as_raw();
    let gid = nix::unistd::getgid().as_raw();
    let uids = c.get_uidmaps().unwrap();
    assert_eq!(uids.len(), 1);
    assert_eq!((uids[0].container_id, uids[0].host_id, uids[0].size), (uid, uid, 1));
    let gids = c.get_gidmaps().unwrap();
    assert_eq!((gids[0].container_id, gids[0].host_id, gids[0].size), (gid, gid, 1));
}

#[test]
fn uidmap_is_shorthand_for_one_mapping_of_current_user() {
    let mut c = Container::empty();
    c.uidmap(0).gidmap(0);
    let uid = nix::unistd::getuid().as_raw();
    let uids = c.get_uidmaps().unwrap();
    assert_eq!((uids[0].container_id, uids[0].host_id, uids[0].size), (0, uid, 1));
    c.uidmaps(vec![]);
    assert!(c.get_uidmaps().is_none());
    assert_eq!(c.get_gidmaps().unwrap().len(), 1);
}

#[test]
fn namespace_and_ruleset_queries() {
    let mut c = Container::new();
    assert!(c.has_namespace(Namespace::Mount));
    assert!(!c.has_namespace(Namespace::Network));
    assert!(c.get_landlock_ruleset().is_none());
    assert!(c.get_network().is_none());
    c.landlock_ruleset(hakoniwa::landlock::Ruleset::default());
    assert!(c.get_landlock_ruleset().is_some());
}

#[test]
fn rlimits_listed_once_with_last_setting_in_kind_order() {
    let mut c = Container::empty();
    assert!(c.get_rlimits().is_empty());
    c.setrlimit(Rlimit::Nofile, 32, 64)
        .setrlimit(Rlimit::As, 1 << 20, 1 << 21)
        .setrlimit(Rlimit::Nofile, 16, 16);
    assert_eq!(
        c.get_rlimits(),
        vec![(Rlimit::As, 1 << 20, 1 << 21), (Rlimit::Nofile, 16, 16)]
    );
}
