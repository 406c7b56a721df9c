use hakoniwa::landlock::{CompatMode, FsAccess, FsRule, NetAccess, NetRule, Perm, Resource, Ruleset};
use hakoniwa::{Container, Error};

#[test]
fn fs_access_parses_case_insensitively() {
    assert_eq!(FsAccess::parse("r-x").unwrap().bits, 1 | 4);
    assert_eq!(FsAccess::parse("RWX").unwrap().bits, 7);
    assert_eq!(FsAccess::parse("").unwrap().bits, 0);
    assert_eq!(FsAccess::parse("---").unwrap().bits, 0);
    assert_eq!(FsAccess::parse("xr").unwrap().bits, 5);
}

#[test]
fn fs_access_rejects_unknown_letter() {
    match FsAccess::parse("rq-") {
        Err(Error::LandLockError(msg)) => assert_eq!(msg, "unknown access \"q\""),
        other => panic!("unexpected {:?}", other),
    }
}

#[test]
fn fs_access_from_str_is_parse() {
    let a: FsAccess = "rw-".parse().unwrap();
    assert_eq!(a.bits, 3);
}

#[test]
fn fs_access_text_roundtrip() {
    for bits in 0..8u64 {
        let text = FsAccess { bits }.to_string();
        assert_eq!(FsAccess::parse(&text).unwrap().bits, bits);
    }
    assert_eq!(FsAccess::R().union(FsAccess::X()).to_string(), "r-x");
    assert_eq!(FsAccess::empty().to_string(), "---");
    assert_eq!(FsAccess::W().to_string(), "-w-");
}

#[test]
fn perm_parses_the_seven_texts() {
    assert_eq!(Perm::parse("r--").unwrap().bits, 1);
    assert_eq!(Perm::parse("rw-").unwrap().bits, 3);
    assert_eq!(Perm::parse("R-X").unwrap().bits, 5);
    assert_eq!(Perm::parse("rwx").unwrap().bits, 7);
    assert_eq!(Perm::parse("-w-").unwrap().bits, 2);
    assert_eq!(Perm::parse("-WX").unwrap().bits, 6);
    assert_eq!(Perm::parse("--x").unwrap().bits, 4);
}

#[test]
fn perm_rejects_other_texts() {
    match Perm::parse("---") {
        Err(Error::Unexpected(msg)) => assert_eq!(msg, "unknown permission ---"),
        other => panic!("unexpected {:?}", other),
    }
    match Perm::parse("RWXX") {
        Err(Error::Unexpected(msg)) => assert_eq!(msg, "unknown permission rwxx"),
        other => panic!("unexpected {:?}", other),
    }
}

#[test]
fn perm_text_roundtrip() {
    for bits in 1..8u32 {
        let p = Perm { bits };
        assert_eq!(Perm::parse(&p.to_string()).unwrap().bits, bits);
    }
    assert_eq!(Perm { bits: 0 }.to_string(), "---");
    assert_eq!(Perm::RD().bits | Perm::EXEC().bits, 5);
    assert_eq!(Perm::WR().bits, 2);
}

#[test]
fn rules_print_access_and_target() {
    let fs = FsRule { path: "/bin".to_string(), mode: FsAccess { bits: 5 } };
    assert_eq!(fs.to_string(), "r-x /bin");
    let net = NetRule { port: 443, access: NetAccess::TCP_CONNECT() };
    assert_eq!(net.to_string(), "tcp.connect 443");
    let both = NetAccess { bits: NetAccess::TCP_BIND().bits | NetAccess::TCP_CONNECT().bits };
    assert_eq!(both.to_string(), "tcp.bind | tcp.connect");
    assert_eq!(Resource::NET_TCP_BIND.to_string(), "tcp.bind");
    assert_eq!(Resource::FS.to_string(), "fs");
}

#[test]
fn ruleset_restricts_and_unrestricts() {
    let mut r = Ruleset::default();
    assert_eq!(r.get_restriction(Resource::FS), None);
    r.restrict(Resource::FS, CompatMode::Enforce)
        .restrict(Resource::NET_TCP_BIND, CompatMode::Relax);
    assert_eq!(r.get_restriction(Resource::FS), Some(CompatMode::Enforce));
    assert_eq!(r.get_restriction(Resource::NET_TCP_BIND), Some(CompatMode::Relax));
    r.unrestrict(Resource::FS);
    assert_eq!(r.get_restriction(Resource::FS), None);
    assert_eq!(r.get_restriction(Resource::NET_TCP_BIND), Some(CompatMode::Relax));
}

#[test]
fn ruleset_fs_rules_sorted_and_replaced_by_path() {
    let mut r = Ruleset::default();
    r.allow_path("/usr", FsAccess { bits: 5 })
        .allow_path("/bin", FsAccess { bits: 5 })
        .allow_path("/usr", FsAccess { bits: 1 });
    let rules = r.get_fs_rules();
    assert_eq!(rules.len(), 2);
    assert_eq!(rules[0].to_string(), "r-x /bin");
    assert_eq!(rules[1].to_string(), "r-- /usr");
}

#[test]
fn ruleset_net_rules_append_per_resource() {
    let mut r = Ruleset::default();
    r.allow_tcp_bind(8080).allow_tcp_connect(443).allow_tcp_bind(8081);
    let bind: Vec<u16> = r.get_net_rules(Resource::NET_TCP_BIND).iter().map(|x| x.port).collect();
    assert_eq!(bind, vec![8080, 8081]);
    let connect = r.get_net_rules(Resource::NET_TCP_CONNECT);
    assert_eq!(connect.len(), 1);
    assert_eq!(connect[0].to_string(), "tcp.connect 443");
    assert!(r.get_net_rules(Resource::FS).is_empty());
}

#[test]
fn ruleset_goes_into_container() {
    let mut r = Ruleset::default();
    r.restrict(Resource::FS, CompatMode::Enforce).allow_path("/bin", FsAccess { bits: 5 });
    let d = r.duplicate();
    assert_eq!(d.get_fs_rules().len(), 1);
    let mut c = Container::new();
    c.landlock_ruleset(r);
    assert!(c.get_mount_newproc().is_some());
}

#[test]
fn fs_access_unknown_letter_is_quoted() {
    match FsAccess::parse("z") {
        Err(Error::LandLockError(msg)) => assert_eq!(msg, "unknown access \"z\""),
        other => panic!("unexpected {:?}", other),
    }
}
