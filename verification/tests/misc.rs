use hakoniwa::cgroups::{Cpu, Memory, Pids};
use hakoniwa::contrib::tmpdir::{random_name, Dir};
use hakoniwa::{
    mainp_setup_step, CloneFlags, IdMap, MainpAction, MainpEvent, MainpState, MountOptions, Namespace,
    Namespaces, Resource, Rlimit, Runctl, FIN, SETUP_NETWORK, SETUP_UGIDMAP,
};

#[test]
fn cgroup_builders_record_values() {
    let mut cpu = Cpu::default();
    assert_eq!(cpu.get_shares(), None);
    cpu.shares(1024).period(100_000).quota(50_000);
    assert_eq!(cpu.get_shares(), Some(1024));
    assert_eq!(cpu.get_period(), Some(100_000));
    assert_eq!(cpu.get_quota(), Some(50_000));
    let mut mem = Memory::default();
    mem.limit(1 << 30).reservation(1 << 29).swap(-1);
    assert_eq!(mem.get_limit(), Some(1 << 30));
    assert_eq!(mem.get_reservation(), Some(1 << 29));
    assert_eq!(mem.get_swap(), Some(-1));
    let mut pids = Pids::default();
    pids.limit(64);
    assert_eq!(pids.get_limit(), Some(64));
}

#[test]
fn random_names_have_prefix_dash_and_eight_alphanumerics() {
    let a = random_name("hakoniwa");
    assert_eq!(a.len(), "hakoniwa".len() + 9);
    assert!(a.starts_with("hakoniwa-"));
    assert!(a["hakoniwa-".len()..].chars().all(|c| c.is_ascii_alphanumeric()));
    let b = random_name("hakoniwa");
    let c = random_name("hakoniwa");
    assert!(a != b || b != c);
}

#[test]
fn tmpdir_removes_only_what_it_created() {
    let created = Dir::new("/tmp/hakoniwa-new", false);
    assert!(created.is_auto_remove());
    assert_eq!(created.get_path(), "/tmp/hakoniwa-new");
    let existing = Dir::new("/tmp", true);
    assert!(!existing.is_auto_remove());
}

#[test]
fn namespaces_default_creates_all() {
    let n = Namespaces::default();
    assert_eq!(
        n.to_clone_flags().bits,
        0x0800_0000 | 0x4000_0000 | 0x0002_0000 | 0x2000_0000 | 0x1000_0000 | 0x0400_0000
    );
    let only = Namespaces { ipc: Some(false), net: None, ns: Some(true), pid: None, user: Some(true), uts: Some(false) };
    assert_eq!(only.to_clone_flags().bits, 0x0002_0000 | 0x1000_0000);
}

#[test]
fn clone_flags_of_namespaces() {
    let mut f = CloneFlags::empty();
    assert!(f.is_empty());
    f.insert(Namespace::Pid.to_clone_flag());
    f.insert(Namespace::Ipc.to_clone_flag());
    assert!(f.contains(Namespace::Pid.to_clone_flag()));
    assert!(!f.contains(Namespace::User.to_clone_flag()));
    assert_eq!(f.bits, 0x2000_0000 | 0x0800_0000);
}

#[test]
fn mount_options_to_ms_flags() {
    let o = MountOptions::BIND().union(MountOptions::REC()).union(MountOptions::NOSUID()).union(MountOptions::RDONLY());
    assert_eq!(o.to_ms_flags().bits, 4096 | 16384 | 2 | 1);
    assert_eq!(MountOptions::NODEV().to_ms_flags().bits, 4);
    assert_eq!(MountOptions::NOEXEC().to_ms_flags().bits, 8);
    assert_eq!(MountOptions::empty().to_ms_flags().bits, 0);
}

#[test]
fn idmap_text() {
    let m = IdMap { container_id: 0, host_id: 1000, size: 1 };
    assert_eq!(m.to_string(), "0 1000 1");
    assert_eq!(m.description(), "container_id: 0, host_id: 1000, count: 1");
}

#[test]
fn rlimits_map_to_resources() {
    assert_eq!(Rlimit::As.to_resource(), Resource::RLIMIT_AS);
    assert_eq!(Rlimit::Nofile.to_resource(), Resource::RLIMIT_NOFILE);
    assert_eq!(Rlimit::Stack.to_resource(), Resource::RLIMIT_STACK);
    assert_eq!(Runctl::GetProcPidSmapsRollup.index(), 1);
}

fn run(ops: u8, request: u8, network_ok: bool, ugidmap_ok: bool) -> (Vec<MainpAction>, u8) {
    let mut actions = vec![];
    let mut state = MainpState::Idle;
    let mut event = MainpEvent::Start;
    loop {
        let (next, action) = mainp_setup_step(ops, state, event);
        actions.push(action);
        state = next;
        event = match action {
            MainpAction::ReadRequest => MainpEvent::Request(request),
            MainpAction::SetupNetwork => MainpEvent::NetworkDone(network_ok),
            MainpAction::SetupUgidmap => MainpEvent::UgidmapDone(ugidmap_ok),
            MainpAction::Reply { result, .. } | MainpAction::Finish { result } => return (actions, result),
        };
    }
}

#[test]
fn mainp_without_operations_finishes_at_once() {
    assert_eq!(run(0, 0, true, true), (vec![MainpAction::Finish { result: 0 }], 0));
}

#[test]
fn mainp_child_gone_before_request() {
    let (actions, result) = run(SETUP_NETWORK, FIN, true, true);
    assert_eq!(actions, vec![MainpAction::ReadRequest, MainpAction::Finish { result: 1 }]);
    assert_eq!(result, 1);
}

#[test]
fn mainp_sets_up_network_then_ugidmap() {
    let ops = SETUP_NETWORK | SETUP_UGIDMAP;
    let (actions, _) = run(ops, ops, true, true);
    assert_eq!(
        actions,
        vec![
            MainpAction::ReadRequest,
            MainpAction::SetupNetwork,
            MainpAction::SetupUgidmap,
            MainpAction::Reply { byte: 0, result: 0 }
        ]
    );
}

#[test]
fn mainp_reports_failed_setup() {
    let ops = SETUP_NETWORK | SETUP_UGIDMAP;
    let (actions, _) = run(ops, ops, false, true);
    assert_eq!(actions.last(), Some(&MainpAction::Reply { byte: SETUP_NETWORK, result: 0 }));
    let (actions, _) = run(ops, SETUP_UGIDMAP, true, false);
    assert_eq!(
        actions,
        vec![MainpAction::ReadRequest, MainpAction::SetupUgidmap, MainpAction::Reply { byte: SETUP_UGIDMAP, result: 0 }]
    );
}
