use vstd::prelude::*;

use crate::seqs::{lemma_contains_push, lemma_filter_push, lemma_take_push, views_of};
use crate::text::{push_signed_decimal, signed_decimal, str_eq};

verus! {

/// Configuration of `pasta(1)`, which connects a new Network namespace to
/// the host's network.
#[derive(PartialEq, Eq, Clone, Debug)]
pub struct Pasta {
    prog: String,
    args: Vec<String>,
}

/// Whether an argument is not `--map-gw`.
pub open spec fn not_map_gw(a: Seq<char>) -> bool {
    a != "--map-gw"@
}

/// The pair `[option, "none"]`, unless `args` holds `short` or `long`.
pub open spec fn none_unless_given(args: Seq<Seq<char>>, short: Seq<char>, long: Seq<char>) -> Seq<
    Seq<char>,
> {
    if args.contains(short) || args.contains(long) {
        seq![]
    } else {
        seq![long, "none"@]
    }
}

/// The command line that configures the network of process `child`: the
/// program, `--config-net`, `--no-map-gw` unless `--map-gw` was given, the
/// port forwarding options that were not given set to `none`, the given
/// arguments without `--map-gw`, and the process id.
pub open spec fn pasta_cmdline(prog: Seq<char>, args: Seq<Seq<char>>, child: int) -> Seq<Seq<char>> {
    seq![prog, "--config-net"@]
        + (if args.contains("--map-gw"@) { seq![] } else { seq!["--no-map-gw"@] })
        + none_unless_given(args, "-t"@, "--tcp-ports"@)
        + none_unless_given(args, "-u"@, "--udp-ports"@)
        + none_unless_given(args, "-T"@, "--tcp-ns"@)
        + none_unless_given(args, "-U"@, "--udp-ns"@)
        + args.filter(|a: Seq<char>| not_map_gw(a))
        + seq![signed_decimal(child)]
}

/// Whether `r` is a pasta command line for program `prog`, extra arguments
/// `args` and process `child`: the program and `--config-net` first, the
/// process id last, and just before it the extra arguments other than
/// `--map-gw`, in order. Between them stand the defaults: `--no-map-gw`
/// exactly when `--map-gw` is not among the arguments, and each port
/// forwarding option (`--tcp-ports`, `--udp-ports`, `--tcp-ns`,
/// `--udp-ns`) exactly when neither its short nor its long form is among
/// them; nothing else stands there but `none`.
pub open spec fn pasta_cmdline_shape(prog: Seq<char>, args: Seq<Seq<char>>, child: int, r: Seq<Seq<char>>) -> bool {
    let kept = args.filter(|a: Seq<char>| not_map_gw(a));
    let n = r.len() as int;
    let d = r.subrange(2, n - 1 - kept.len());
    &&& n >= 3 + kept.len()
    &&& r[0] == prog
    &&& r[1] == "--config-net"@
    &&& r[n - 1] == signed_decimal(child)
    &&& r.subrange(n - 1 - kept.len(), n - 1) == kept
    &&& d.contains("--no-map-gw"@) == !args.contains("--map-gw"@)
    &&& d.contains("--tcp-ports"@) == !(args.contains("-t"@) || args.contains("--tcp-ports"@))
    &&& d.contains("--udp-ports"@) == !(args.contains("-u"@) || args.contains("--udp-ports"@))
    &&& d.contains("--tcp-ns"@) == !(args.contains("-T"@) || args.contains("--tcp-ns"@))
    &&& d.contains("--udp-ns"@) == !(args.contains("-U"@) || args.contains("--udp-ns"@))
    &&& forall|i: int|
        0 <= i < d.len() ==> (#[trigger] d[i] == "--no-map-gw"@ || d[i] == "--tcp-ports"@ || d[i] == "--udp-ports"@
            || d[i] == "--tcp-ns"@ || d[i] == "--udp-ns"@ || d[i] == "none"@)
}

/// A concatenation contains what either part contains.
proof fn lemma_contains_concat(a: Seq<Seq<char>>, b: Seq<Seq<char>>, x: Seq<char>)
    ensures
        (a + b).contains(x) == (a.contains(x) || b.contains(x)),
{
    if a.contains(x) {
        let i = choose|i: int| 0 <= i < a.len() && a[i] == x;
        assert((a + b)[i] == x);
    }
    if b.contains(x) {
        let i = choose|i: int| 0 <= i < b.len() && b[i] == x;
        assert((a + b)[a.len() + i] == x);
    }
    if (a + b).contains(x) {
        let i = choose|i: int| 0 <= i < (a + b).len() && (a + b)[i] == x;
        if i < a.len() {
            assert(a[i] == x);
        } else {
            assert(b[i - a.len()] == x);
        }
    }
}

/// The default options of a pasta command line are distinct texts.
proof fn lemma_defaults_distinct()
    ensures
        "--no-map-gw"@ != "--tcp-ports"@,
        "--no-map-gw"@ != "--udp-ports"@,
        "--no-map-gw"@ != "--tcp-ns"@,
        "--no-map-gw"@ != "--udp-ns"@,
        "--no-map-gw"@ != "none"@,
        "--tcp-ports"@ != "--udp-ports"@,
        "--tcp-ports"@ != "--tcp-ns"@,
        "--tcp-ports"@ != "--udp-ns"@,
        "--tcp-ports"@ != "none"@,
        "--udp-ports"@ != "--tcp-ns"@,
        "--udp-ports"@ != "--udp-ns"@,
        "--udp-ports"@ != "none"@,
        "--tcp-ns"@ != "--udp-ns"@,
        "--tcp-ns"@ != "none"@,
        "--udp-ns"@ != "none"@,
{
    reveal_strlit("--no-map-gw");
    reveal_strlit("--tcp-ports");
    reveal_strlit("--udp-ports");
    reveal_strlit("--tcp-ns");
    reveal_strlit("--udp-ns");
    reveal_strlit("none");
    assert("--no-map-gw"@.len() == 11);
    assert("--tcp-ports"@.len() == 11);
    assert("--udp-ports"@.len() == 11);
    assert("--tcp-ns"@.len() == 8);
    assert("--udp-ns"@.len() == 8);
    assert("none"@.len() == 4);
    assert("--no-map-gw"@[2] == 'n');
    assert("--tcp-ports"@[2] == 't');
    assert("--udp-ports"@[2] == 'u');
    assert("--tcp-ns"@[2] == 't');
    assert("--udp-ns"@[2] == 'u');
}

/// The part of the defaults that one port forwarding option contributes.
proof fn lemma_none_pair(args: Seq<Seq<char>>, short: Seq<char>, long: Seq<char>, x: Seq<char>)
    requires
        x != "none"@,
    ensures
        none_unless_given(args, short, long).contains(x) == (x == long && !(args.contains(short)
            || args.contains(long))),
        forall|i: int|
            0 <= i < none_unless_given(args, short, long).len() ==> #[trigger] none_unless_given(
                args,
                short,
                long,
            )[i] == long || none_unless_given(args, short, long)[i] == "none"@,
{
    let p = none_unless_given(args, short, long);
    if p.len() > 0 {
        assert(p[0] == long && p[1] == "none"@);
        if p.contains(x) {
            let i = choose|i: int| 0 <= i < p.len() && p[i] == x;
        }
        if x == long {
            assert(p[0] == x);
        }
    }
}

/// Every pasta command line has the shape of one: the defaults are there
/// exactly for what the arguments do not give.
pub proof fn lemma_pasta_cmdline_shape(prog: Seq<char>, args: Seq<Seq<char>>, child: int)
    ensures
        pasta_cmdline_shape(prog, args, child, pasta_cmdline(prog, args, child)),
{
    let r = pasta_cmdline(prog, args, child);
    let kept = args.filter(|a: Seq<char>| not_map_gw(a));
    let a = if args.contains("--map-gw"@) { seq![] } else { seq!["--no-map-gw"@] };
    let b1 = none_unless_given(args, "-t"@, "--tcp-ports"@);
    let b2 = none_unless_given(args, "-u"@, "--udp-ports"@);
    let b3 = none_unless_given(args, "-T"@, "--tcp-ns"@);
    let b4 = none_unless_given(args, "-U"@, "--udp-ns"@);
    let d = a + b1 + b2 + b3 + b4;
    let n = r.len() as int;
    assert(r =~= seq![prog, "--config-net"@] + d + kept + seq![signed_decimal(child)]);
    assert(r.subrange(2, n - 1 - kept.len()) =~= d);
    assert(r.subrange(n - 1 - kept.len(), n - 1) =~= kept);
    lemma_defaults_distinct();
    reveal_strlit("none");
    assert("none"@.len() == 4);
    assert forall|x: Seq<char>|
        x == "--no-map-gw"@ || x == "--tcp-ports"@ || x == "--udp-ports"@ || x == "--tcp-ns"@ || x == "--udp-ns"@
        implies #[trigger] d.contains(x) == ((x == "--no-map-gw"@ && !args.contains("--map-gw"@)) || (x
        == "--tcp-ports"@ && !(args.contains("-t"@) || args.contains("--tcp-ports"@))) || (x == "--udp-ports"@
        && !(args.contains("-u"@) || args.contains("--udp-ports"@))) || (x == "--tcp-ns"@ && !(args.contains(
        "-T"@) || args.contains("--tcp-ns"@))) || (x == "--udp-ns"@ && !(args.contains("-U"@) || args.contains(
        "--udp-ns"@)))) by {
        lemma_contains_concat(a + b1 + b2 + b3, b4, x);
        lemma_contains_concat(a + b1 + b2, b3, x);
        lemma_contains_concat(a + b1, b2, x);
        lemma_contains_concat(a, b1, x);
        lemma_none_pair(args, "-t"@, "--tcp-ports"@, x);
        lemma_none_pair(args, "-u"@, "--udp-ports"@, x);
        lemma_none_pair(args, "-T"@, "--tcp-ns"@, x);
        lemma_none_pair(args, "-U"@, "--udp-ns"@, x);
        if a.contains(x) {
            let i = choose|i: int| 0 <= i < a.len() && a[i] == x;
        }
        if x == "--no-map-gw"@ && !args.contains("--map-gw"@) {
            assert(a[0] == x);
        }
    }
    assert(d.contains("--no-map-gw"@) == !args.contains("--map-gw"@));
    assert(d.contains("--tcp-ports"@) == !(args.contains("-t"@) || args.contains("--tcp-ports"@)));
    assert(d.contains("--udp-ports"@) == !(args.contains("-u"@) || args.contains("--udp-ports"@)));
    assert(d.contains("--tcp-ns"@) == !(args.contains("-T"@) || args.contains("--tcp-ns"@)));
    assert(d.contains("--udp-ns"@) == !(args.contains("-U"@) || args.contains("--udp-ns"@)));
    lemma_none_pair(args, "-t"@, "--tcp-ports"@, "--tcp-ports"@);
    lemma_none_pair(args, "-u"@, "--udp-ports"@, "--udp-ports"@);
    lemma_none_pair(args, "-T"@, "--tcp-ns"@, "--tcp-ns"@);
    lemma_none_pair(args, "-U"@, "--udp-ns"@, "--udp-ns"@);
    assert forall|i: int| 0 <= i < d.len() implies (#[trigger] d[i] == "--no-map-gw"@ || d[i] == "--tcp-ports"@
        || d[i] == "--udp-ports"@ || d[i] == "--tcp-ns"@ || d[i] == "--udp-ns"@ || d[i] == "none"@) by {
        let la = a.len() as int;
        let l1 = la + b1.len();
        let l2 = l1 + b2.len();
        let l3 = l2 + b3.len();
        if i < la {
            assert(d[i] == a[i]);
        } else if i < l1 {
            assert(d[i] == b1[i - la]);
        } else if i < l2 {
            assert(d[i] == b2[i - l1]);
        } else if i < l3 {
            assert(d[i] == b3[i - l2]);
        } else {
            assert(d[i] == b4[i - l3]);
        }
    }
}

/// `--map-gw` is none of the port forwarding options.
proof fn lemma_map_gw_distinct()
    ensures
        "--map-gw"@ != "-t"@,
        "--map-gw"@ != "--tcp-ports"@,
        "--map-gw"@ != "-u"@,
        "--map-gw"@ != "--udp-ports"@,
        "--map-gw"@ != "-T"@,
        "--map-gw"@ != "--tcp-ns"@,
        "--map-gw"@ != "-U"@,
        "--map-gw"@ != "--udp-ns"@,
{
    reveal_strlit("--map-gw");
    reveal_strlit("-t");
    reveal_strlit("--tcp-ports");
    reveal_strlit("-u");
    reveal_strlit("--udp-ports");
    reveal_strlit("-T");
    reveal_strlit("--tcp-ns");
    reveal_strlit("-U");
    reveal_strlit("--udp-ns");
    assert("--map-gw"@.len() == 8);
    assert("-t"@.len() == 2);
    assert("--tcp-ports"@.len() == 11);
    assert("-u"@.len() == 2);
    assert("--udp-ports"@.len() == 11);
    assert("-T"@.len() == 2);
    assert("-U"@.len() == 2);
    assert("--map-gw"@[2] == 'm');
    assert("--tcp-ns"@[2] == 't');
    assert("--udp-ns"@[2] == 'u');
}

impl Pasta {
    /// The program to run.
    pub closed spec fn spec_program(self) -> Seq<char> {
        self.prog@
    }

    /// The extra arguments, in the order given.
    pub closed spec fn spec_args(self) -> Seq<Seq<char>> {
        views_of(self.args@)
    }

    /// A configuration with the same program and arguments.
    pub fn duplicate(&self) -> (r: Pasta)
        ensures
            r.spec_program() == self.spec_program(),
            r.spec_args() == self.spec_args(),
    {
        let mut args: Vec<String> = Vec::new();
        let mut i: usize = 0;
        while i < self.args.len()
            invariant
                i <= self.args@.len(),
                views_of(args@) == views_of(self.args@).take(i as int),
            decreases self.args.len() - i,
        {
            let c = self.args[i].clone();
            let ghost before = args@;
            args.push(c);
            assert(args@ == before.push(c));
            assert(c@ == self.args@[i as int]@);
            assert(views_of(args@) =~= views_of(before).push(c@));
            assert(views_of(self.args@).take(i + 1) =~= views_of(self.args@).take(i as int).push(
                self.args@[i as int]@,
            ));
            i = i + 1;
        }
        assert(views_of(self.args@).take(self.args@.len() as int) =~= views_of(self.args@));
        Pasta { prog: self.prog.clone(), args }
    }

    /// Sets the program to run.
    pub fn program(&mut self, program: &str) -> (r: &mut Self)
        ensures
            r.spec_program() == program@,
            r.spec_args() == old(self).spec_args(),
            *final(self) == *final(r),
    {
        self.prog = program.to_owned();
        self
    }

    /// Appends extra arguments.
    pub fn args(&mut self, args: &[&str]) -> (r: &mut Self)
        ensures
            r.spec_program() == old(self).spec_program(),
            r.spec_args() == old(self).spec_args() + args@.map_values(|a: &str| a@),
            *final(self) == *final(r),
    {
        let mut i: usize = 0;
        while i < args.len()
            invariant
                i <= args@.len(),
                self.prog == old(self).prog,
                views_of(self.args@) == views_of(old(self).args@) + args@.map_values(
                    |a: &str| a@,
                ).take(i as int),
            decreases args.len() - i,
        {
            let a = args[i].to_owned();
            let ghost before = self.args@;
            self.args.push(a);
            assert(self.args@ == before.push(a));
            assert(views_of(self.args@) =~= views_of(before).push(args@[i as int]@));
            assert(args@.map_values(|a: &str| a@).take(i + 1) =~= args@.map_values(|a: &str| a@).take(i as int).push(args@[i as int]@));
            assert(views_of(self.args@) =~= views_of(old(self).args@) + args@.map_values(
                |a: &str| a@,
            ).take(i + 1));
            i = i + 1;
        }
        assert(args@.map_values(|a: &str| a@).take(args.len() as int) =~= args@.map_values(
            |a: &str| a@,
        ));
        self
    }

    /// The command line that configures the network of process `child`.
    ///
    /// Unless given otherwise, the gateway is not mapped and no port is
    /// forwarded in either direction.
    #[verifier::rlimit(40)]
    pub fn to_cmdline(&self, child: i32) -> (r: Vec<String>)
        ensures
            views_of(r@) == pasta_cmdline(self.spec_program(), self.spec_args(), child as int),
            pasta_cmdline_shape(self.spec_program(), self.spec_args(), child as int, views_of(r@)),
    {
        let ghost all = views_of(self.args@);
        let ghost pred = |a: Seq<char>| not_map_gw(a);
        let mut no_map_gw = true;
        let mut no_tcp_ports = true;
        let mut no_udp_ports = true;
        let mut no_tcp_ns_ports = true;
        let mut no_udp_ns_ports = true;

        let mut cmdline: Vec<String> = Vec::new();
        cmdline.push(self.prog.clone());
        cmdline.push("--config-net".to_owned());

        let mut args: Vec<String> = Vec::new();
        let mut i: usize = 0;
        assert(all.take(0).filter(pred) =~= Seq::<Seq<char>>::empty()) by {
            reveal(Seq::filter);
        }
        while i < self.args.len()
            invariant
                i <= self.args@.len(),
                all == views_of(self.args@),
                pred == (|a: Seq<char>| not_map_gw(a)),
                views_of(args@) == all.take(i as int).filter(pred),
                no_map_gw == !all.take(i as int).contains("--map-gw"@),
                no_tcp_ports == !(all.take(i as int).contains("-t"@) || all.take(i as int).contains(
                    "--tcp-ports"@,
                )),
                no_udp_ports == !(all.take(i as int).contains("-u"@) || all.take(i as int).contains(
                    "--udp-ports"@,
                )),
                no_tcp_ns_ports == !(all.take(i as int).contains("-T"@) || all.take(
                    i as int,
                ).contains("--tcp-ns"@)),
                no_udp_ns_ports == !(all.take(i as int).contains("-U"@) || all.take(
                    i as int,
                ).contains("--udp-ns"@)),
            decreases self.args.len() - i,
        {
            let arg = &self.args[i];
            let ghost a = arg@;
            proof {
                lemma_map_gw_distinct();
                lemma_take_push(all, i as int);
                assert(all[i as int] == a);
                lemma_contains_push(all.take(i as int), a, "--map-gw"@);
                lemma_contains_push(all.take(i as int), a, "-t"@);
                lemma_contains_push(all.take(i as int), a, "--tcp-ports"@);
                lemma_contains_push(all.take(i as int), a, "-u"@);
                lemma_contains_push(all.take(i as int), a, "--udp-ports"@);
                lemma_contains_push(all.take(i as int), a, "-T"@);
                lemma_contains_push(all.take(i as int), a, "--tcp-ns"@);
                lemma_contains_push(all.take(i as int), a, "-U"@);
                lemma_contains_push(all.take(i as int), a, "--udp-ns"@);
                lemma_filter_push(all.take(i as int), pred, a);
            }
            let s = arg.as_str();
            if str_eq(s, "--map-gw") {
                no_map_gw = false;
            } else {
                if str_eq(s, "-t") || str_eq(s, "--tcp-ports") {
                    no_tcp_ports = false;
                }
                if str_eq(s, "-u") || str_eq(s, "--udp-ports") {
                    no_udp_ports = false;
                }
                if str_eq(s, "-T") || str_eq(s, "--tcp-ns") {
                    no_tcp_ns_ports = false;
                }
                if str_eq(s, "-U") || str_eq(s, "--udp-ns") {
                    no_udp_ns_ports = false;
                }
                args.push(arg.clone());
                assert(views_of(args@) =~= all.take(i as int).filter(pred).push(a));
            }
            i = i + 1;
        }
        assert(all.take(self.args.len() as int) =~= all);

        if no_map_gw {
            cmdline.push("--no-map-gw".to_owned());
        }
        if no_tcp_ports {
            cmdline.push("--tcp-ports".to_owned());
            cmdline.push("none".to_owned());
        }
        if no_udp_ports {
            cmdline.push("--udp-ports".to_owned());
            cmdline.push("none".to_owned());
        }
        if no_tcp_ns_ports {
            cmdline.push("--tcp-ns".to_owned());
            cmdline.push("none".to_owned());
        }
        if no_udp_ns_ports {
            cmdline.push("--udp-ns".to_owned());
            cmdline.push("none".to_owned());
        }
        cmdline.append(&mut args);
        let mut pid = String::new();
        push_signed_decimal(&mut pid, child as i64);
        cmdline.push(pid);
        proof {
            let spec = pasta_cmdline(self.spec_program(), all, child as int);
            assert(views_of(cmdline@) =~= spec);
            lemma_pasta_cmdline_shape(self.spec_program(), all, child as int);
        }
        cmdline
    }
}

impl Default for Pasta {
    fn default() -> (r: Self)
        ensures
            r.spec_program() == "pasta"@,
            r.spec_args() == Seq::<Seq<char>>::empty(),
    {
        let p = Pasta { prog: "pasta".to_owned(), args: Vec::new() };
        assert(views_of(p.args@) =~= Seq::<Seq<char>>::empty());
        p
    }
}

} // verus!
