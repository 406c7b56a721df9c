use hakoniwa::{Network, Pasta};

#[test]
fn pasta_default_cmdline_closes_everything() {
    let p = Pasta::default();
    assert_eq!(
        p.to_cmdline(42),
        vec![
            "pasta", "--config-net", "--no-map-gw", "--tcp-ports", "none", "--udp-ports", "none",
            "--tcp-ns", "none", "--udp-ns", "none", "42"
        ]
    );
}

#[test]
fn pasta_given_options_replace_defaults() {
    let mut p = Pasta::default();
    p.program("/usr/bin/pasta").args(&["--map-gw", "-t", "8080", "--udp-ns", "53"]);
    assert_eq!(
        p.to_cmdline(7),
        vec![
            "/usr/bin/pasta", "--config-net", "--udp-ports", "none", "--tcp-ns", "none", "-t", "8080",
            "--udp-ns", "53", "7"
        ]
    );
}

#[test]
fn pasta_map_gw_is_dropped_wherever_it_stands() {
    let mut p = Pasta::default();
    p.args(&["-T", "1", "--map-gw"]).args(&["-U", "2", "-u", "3", "--tcp-ports", "4"]);
    assert_eq!(
        p.to_cmdline(-1),
        vec!["pasta", "--config-net", "-T", "1", "-U", "2", "-u", "3", "--tcp-ports", "4", "-1"]
    );
}

#[test]
fn network_from_pasta_and_duplicate() {
    let mut p = Pasta::default();
    p.args(&["--map-gw"]);
    let n = Network::from(p);
    let d = n.duplicate();
    assert_eq!(d, n);
    match d {
        Network::Pasta(q) => assert_eq!(q.to_cmdline(1)[2], "--tcp-ports"),
    }
}
