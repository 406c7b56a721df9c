use vstd::prelude::*;

use super::{FsAccess, FsRule, NetAccess, NetRule};
use crate::keyed::{lists_in_order, StrMap};
use crate::text::char_seq_lt;

verus! {

/// Resource type.
#[allow(non_camel_case_types)]
#[derive(PartialEq, Eq, Structural, Clone, Copy, Debug, Hash)]
pub enum Resource {
    FS,
    NET_TCP_BIND,
    NET_TCP_CONNECT,
}

impl Resource {
    /// The name of the resource.
    pub open spec fn spec_name(self) -> Seq<char> {
        match self {
            Resource::FS => "fs"@,
            Resource::NET_TCP_BIND => "tcp.bind"@,
            Resource::NET_TCP_CONNECT => "tcp.connect"@,
        }
    }

    /// The name of the resource: `fs`, `tcp.bind` or `tcp.connect`.
    pub fn to_string(&self) -> (s: String)
        ensures
            s@ == self.spec_name(),
    {
        match self {
            Resource::FS => "fs".to_owned(),
            Resource::NET_TCP_BIND => "tcp.bind".to_owned(),
            Resource::NET_TCP_CONNECT => "tcp.connect".to_owned(),
        }
    }
}

/// Compatibility mode.
#[derive(PartialEq, Eq, Structural, Clone, Copy, Debug, Hash)]
pub enum CompatMode {
    Enforce,
    Relax,
}

/// What a ruleset holds: the restricted resources with their modes, the FS
/// rules by path and the NET rules by resource.
pub struct RulesetView {
    pub restrictions: Map<Resource, CompatMode>,
    pub fs_rules: Map<Seq<char>, FsRule>,
    pub net_rules: Map<Resource, Seq<NetRule>>,
}

/// The NET rules of `m` for `resource`, none if there are none.
pub open spec fn rules_of(m: Map<Resource, Seq<NetRule>>, resource: Resource) -> Seq<NetRule> {
    if m.contains_key(resource) {
        m[resource]
    } else {
        Seq::empty()
    }
}

/// The NET rules after allowing `mode` on `port`: a rule per access of
/// `mode` is appended to the rules of its resource.
pub open spec fn net_rules_after(m: Map<Resource, Seq<NetRule>>, port: u16, mode: u64) -> Map<
    Resource,
    Seq<NetRule>,
> {
    let m1 = if mode & 1 == 1 {
        m.insert(
            Resource::NET_TCP_BIND,
            rules_of(m, Resource::NET_TCP_BIND).push(NetRule { port, access: NetAccess { bits: 1 } }),
        )
    } else {
        m
    };
    if mode & 2 == 2 {
        m1.insert(
            Resource::NET_TCP_CONNECT,
            rules_of(m1, Resource::NET_TCP_CONNECT).push(
                NetRule { port, access: NetAccess { bits: 2 } },
            ),
        )
    } else {
        m1
    }
}

/// Landlock ruleset builder.
///
/// The restrictions and NET rules by resource are one slot per resource
/// rather than a `HashMap<Resource, _>`: vstd gives `HashMap` a key model
/// only for integer and `bool` keys, so with a `Resource` key what an
/// insert does cannot be shown. The FS rules by path are a `StrMap` for the
/// same reason.
#[derive(Debug)]
pub struct Ruleset {
    restrict_fs: Option<CompatMode>,
    restrict_tcp_bind: Option<CompatMode>,
    restrict_tcp_connect: Option<CompatMode>,
    fs_rules: StrMap<FsRule>,
    tcp_bind_rules: Option<Vec<NetRule>>,
    tcp_connect_rules: Option<Vec<NetRule>>,
}

/// A map of the resources whose slot holds a value.
pub open spec fn slots_map<T>(fs: Option<T>, bind: Option<T>, connect: Option<T>) -> Map<Resource, T> {
    Map::new(
        |r: Resource|
            match r {
                Resource::FS => fs is Some,
                Resource::NET_TCP_BIND => bind is Some,
                Resource::NET_TCP_CONNECT => connect is Some,
            },
        |r: Resource|
            match r {
                Resource::FS => fs->0,
                Resource::NET_TCP_BIND => bind->0,
                Resource::NET_TCP_CONNECT => connect->0,
            },
    )
}

/// The rules held in an optional vector.
pub open spec fn opt_rules(v: Option<Vec<NetRule>>) -> Option<Seq<NetRule>> {
    match v {
        Some(v) => Some(v@),
        None => None,
    }
}

/// A copy of optional rules.
fn copy_rules(v: &Option<Vec<NetRule>>) -> (r: Option<Vec<NetRule>>)
    ensures
        opt_rules(r) == opt_rules(*v),
{
    match v {
        Some(v) => {
            let mut c: Vec<NetRule> = Vec::new();
            let mut i: usize = 0;
            while i < v.len()
                invariant
                    i <= v@.len(),
                    c@ == v@.take(i as int),
                decreases v.len() - i,
            {
                c.push(v[i]);
                assert(c@ =~= v@.take(i + 1));
                i = i + 1;
            }
            assert(c@ =~= v@);
            Some(c)
        },
        None => None,
    }
}

impl View for Ruleset {
    type V = RulesetView;

    closed spec fn view(&self) -> RulesetView {
        RulesetView {
            restrictions: slots_map(
                self.restrict_fs,
                self.restrict_tcp_bind,
                self.restrict_tcp_connect,
            ),
            fs_rules: self.fs_rules@,
            net_rules: slots_map(
                None,
                opt_rules(self.tcp_bind_rules),
                opt_rules(self.tcp_connect_rules),
            ),
        }
    }
}

impl Ruleset {
    #[verifier::type_invariant]
    closed spec fn rules_keyed_by_path(self) -> bool {
        forall|k: Seq<char>| #[trigger]
            self.fs_rules@.contains_key(k) ==> self.fs_rules@[k].path@ == k
    }

    /// A ruleset with the same restrictions and rules.
    pub fn duplicate(&self) -> (r: Ruleset)
        ensures
            r@ == self@,
    {
        proof {
            use_type_invariant(self);
        }
        let r = Ruleset {
            restrict_fs: self.restrict_fs,
            restrict_tcp_bind: self.restrict_tcp_bind,
            restrict_tcp_connect: self.restrict_tcp_connect,
            fs_rules: self.fs_rules.duplicate(),
            tcp_bind_rules: copy_rules(&self.tcp_bind_rules),
            tcp_connect_rules: copy_rules(&self.tcp_connect_rules),
        };
        assert(r@.net_rules =~= self@.net_rules);
        r
    }

    /// Every FS rule is filed under its own path.
    pub fn fs_rules_keyed_by_path(&self)
        ensures
            forall|k: Seq<char>| #[trigger]
                self@.fs_rules.contains_key(k) ==> self@.fs_rules[k].path@ == k,
    {
        proof {
            use_type_invariant(self);
        }
    }

    /// DONOT Impose restrictions on resource.
    pub fn unrestrict(&mut self, resource: Resource) -> (r: &mut Self)
        ensures
            r@ == (RulesetView { restrictions: old(self)@.restrictions.remove(resource), ..old(self)@ }),
            *final(self) == *final(r),
    {
        proof {
            use_type_invariant(&*self);
        }
        match resource {
            Resource::FS => self.restrict_fs = None,
            Resource::NET_TCP_BIND => self.restrict_tcp_bind = None,
            Resource::NET_TCP_CONNECT => self.restrict_tcp_connect = None,
        }
        assert(self@.restrictions =~= old(self)@.restrictions.remove(resource));
        self
    }

    /// Impose restrictions on resource.
    pub fn restrict(&mut self, resource: Resource, mode: CompatMode) -> (r: &mut Self)
        ensures
            r@ == (RulesetView {
                restrictions: old(self)@.restrictions.insert(resource, mode),
                ..old(self)@
            }),
            *final(self) == *final(r),
    {
        proof {
            use_type_invariant(&*self);
        }
        match resource {
            Resource::FS => self.restrict_fs = Some(mode),
            Resource::NET_TCP_BIND => self.restrict_tcp_bind = Some(mode),
            Resource::NET_TCP_CONNECT => self.restrict_tcp_connect = Some(mode),
        }
        assert(self@.restrictions =~= old(self)@.restrictions.insert(resource, mode));
        self
    }

    /// Allow access to files beneath PATH with given mode.
    ///
    /// An allow rule on its own does **not** enable filesystem sandboxing: a
    /// resource is enforced only once it has been turned on explicitly with
    /// [`restrict`](Self::restrict).
    pub fn allow_path(&mut self, path: &str, mode: FsAccess) -> (r: &mut Self)
        ensures
            r@ == (RulesetView {
                fs_rules: old(self)@.fs_rules.insert(path@, r@.fs_rules[path@]),
                ..old(self)@
            }),
            r@.fs_rules[path@].path@ == path@,
            r@.fs_rules[path@].mode == mode,
            *final(self) == *final(r),
    {
        self.add_fs_rule(path, mode)
    }

    /// Allow binding a TCP socket to a local port.
    ///
    /// Takes effect only after [`Resource::NET_TCP_BIND`] is enabled via
    /// [`restrict`](Self::restrict).
    pub fn allow_tcp_bind(&mut self, port: u16) -> (r: &mut Self)
        ensures
            r@ == (RulesetView { net_rules: net_rules_after(old(self)@.net_rules, port, 1), ..old(self)@ }),
            *final(self) == *final(r),
    {
        self.add_net_rule(port, NetAccess::TCP_BIND())
    }

    /// Allow connecting an active TCP socket to a remote port.
    ///
    /// Takes effect only after [`Resource::NET_TCP_CONNECT`] is enabled via
    /// [`restrict`](Self::restrict).
    pub fn allow_tcp_connect(&mut self, port: u16) -> (r: &mut Self)
        ensures
            r@ == (RulesetView { net_rules: net_rules_after(old(self)@.net_rules, port, 2), ..old(self)@ }),
            *final(self) == *final(r),
    {
        self.add_net_rule(port, NetAccess::TCP_CONNECT())
    }

    /// Add a new FS rule to the ruleset.
    fn add_fs_rule(&mut self, path: &str, mode: FsAccess) -> (r: &mut Self)
        ensures
            r@ == (RulesetView {
                fs_rules: old(self)@.fs_rules.insert(path@, r@.fs_rules[path@]),
                ..old(self)@
            }),
            r@.fs_rules[path@].path@ == path@,
            r@.fs_rules[path@].mode == mode,
            *final(self) == *final(r),
    {
        proof {
            use_type_invariant(&*self);
        }
        let path = path.to_owned();
        let rule = FsRule { path: path.clone(), mode };
        let mut rules = StrMap::new();
        std::mem::swap(&mut rules, &mut self.fs_rules);
        rules.insert(path, rule);
        self.fs_rules = rules;
        self
    }

    /// Appends `rule` to the rules of resource `NET_TCP_BIND` or
    /// `NET_TCP_CONNECT`.
    fn push_net_rule(&mut self, bind: bool, rule: NetRule)
        ensures
            final(self)@ == (RulesetView {
                net_rules: old(self)@.net_rules.insert(
                    if bind { Resource::NET_TCP_BIND } else { Resource::NET_TCP_CONNECT },
                    rules_of(
                        old(self)@.net_rules,
                        if bind { Resource::NET_TCP_BIND } else { Resource::NET_TCP_CONNECT },
                    ).push(rule),
                ),
                ..old(self)@
            }),
    {
        proof {
            use_type_invariant(&*self);
        }
        let ghost res = if bind { Resource::NET_TCP_BIND } else { Resource::NET_TCP_CONNECT };
        let mut cur: Option<Vec<NetRule>> = None;
        if bind {
            std::mem::swap(&mut cur, &mut self.tcp_bind_rules);
        } else {
            std::mem::swap(&mut cur, &mut self.tcp_connect_rules);
        }
        proof {
            let m = old(self)@.net_rules;
            assert(m.contains_key(res) == (cur is Some));
            if cur is Some {
                assert(m[res] == cur->0@);
            }
        }
        let mut rules = match cur {
            Some(v) => v,
            None => Vec::new(),
        };
        assert(rules@ == rules_of(old(self)@.net_rules, res));
        rules.push(rule);
        if bind {
            self.tcp_bind_rules = Some(rules);
        } else {
            self.tcp_connect_rules = Some(rules);
        }
        proof {
            let m = old(self)@.net_rules;
            let n = self@.net_rules;
            assert forall|k: Resource| #[trigger] n.contains_key(k) == m.insert(res, rules@).contains_key(k) by {}
            assert forall|k: Resource| #[trigger] n.contains_key(k) implies n[k] == m.insert(res, rules@)[k] by {}
        }
        assert(self@.net_rules =~= old(self)@.net_rules.insert(
            res,
            rules_of(old(self)@.net_rules, res).push(rule),
        ));
    }

    /// Add a new NET rule per access of `mode` to the ruleset.
    fn add_net_rule(&mut self, port: u16, mode: NetAccess) -> (r: &mut Self)
        ensures
            r@ == (RulesetView {
                net_rules: net_rules_after(old(self)@.net_rules, port, mode.bits),
                ..old(self)@
            }),
            *final(self) == *final(r),
    {
        if mode.bits & 1 == 1 {
            self.push_net_rule(true, NetRule { port, access: NetAccess { bits: 1 } });
        }
        if mode.bits & 2 == 2 {
            self.push_net_rule(false, NetRule { port, access: NetAccess { bits: 2 } });
        }
        self
    }

    /// The compatibility mode of the restriction on `resource`, if it is
    /// restricted.
    pub fn get_restriction(&self, resource: Resource) -> (m: Option<CompatMode>)
        ensures
            m == (if self@.restrictions.contains_key(resource) {
                Some(self@.restrictions[resource])
            } else {
                None
            }),
    {
        match resource {
            Resource::FS => self.restrict_fs,
            Resource::NET_TCP_BIND => self.restrict_tcp_bind,
            Resource::NET_TCP_CONNECT => self.restrict_tcp_connect,
        }
    }

    /// The NET rules of `resource`, in the order in which they were added.
    pub fn get_net_rules(&self, resource: Resource) -> (rules: Vec<NetRule>)
        ensures
            rules@ == rules_of(self@.net_rules, resource),
    {
        let ghost m = self@.net_rules;
        assert(m == slots_map(None, opt_rules(self.tcp_bind_rules), opt_rules(self.tcp_connect_rules)));
        let copied = match resource {
            Resource::FS => {
                assert(!m.contains_key(Resource::FS));
                None
            },
            Resource::NET_TCP_BIND => {
                assert(m.contains_key(resource) == (self.tcp_bind_rules is Some));
                assert(self.tcp_bind_rules is Some ==> m[resource] == self.tcp_bind_rules->0@);
                copy_rules(&self.tcp_bind_rules)
            },
            Resource::NET_TCP_CONNECT => {
                assert(m.contains_key(resource) == (self.tcp_connect_rules is Some));
                assert(self.tcp_connect_rules is Some ==> m[resource] == self.tcp_connect_rules->0@);
                copy_rules(&self.tcp_connect_rules)
            },
        };
        match copied {
            Some(v) => v,
            None => Vec::new(),
        }
    }

    /// The FS rules in ascending order of path.
    pub fn get_fs_rules(&self) -> (rules: Vec<&FsRule>)
        ensures
            rules@.len() == self@.fs_rules.dom().len(),
            forall|i: int, j: int|
                0 <= i < j < rules@.len() ==> char_seq_lt(rules@[i].path@, rules@[j].path@),
            forall|i: int|
                0 <= i < rules@.len() ==> #[trigger] self@.fs_rules.contains_key(rules@[i].path@)
                    && self@.fs_rules[rules@[i].path@] == *rules@[i],
            forall|k: Seq<char>|
                #[trigger] self@.fs_rules.contains_key(k) ==> exists|i: int|
                    0 <= i < rules@.len() && rules@[i].path@ == k,
    {
        proof {
            use_type_invariant(self);
            self.fs_rules.lemma_in_order();
        }
        let ghost listing = self.fs_rules.in_order();
        let n: usize = self.fs_rules.len();
        let mut rules: Vec<&FsRule> = Vec::new();
        let mut i: usize = 0;
        while i < n
            invariant
                n == listing.len(),
                i <= n,
                listing == self.fs_rules.in_order(),
                lists_in_order(listing, self.fs_rules@),
                forall|k: Seq<char>| #[trigger]
                    self.fs_rules@.contains_key(k) ==> self.fs_rules@[k].path@ == k,
                rules@.len() == i,
                forall|j: int| 0 <= j < i ==> *rules@[j] == listing[j].1 && rules@[j].path@ == listing[j].0,
            decreases n - i,
        {
            let (_k, v) = self.fs_rules.entry_at(i);
            proof {
                assert(self.fs_rules@.contains_key(listing[i as int].0));
            }
            rules.push(v);
            i = i + 1;
        }
        proof {
            assert forall|k: Seq<char>| #[trigger] self@.fs_rules.contains_key(k) implies exists|i: int|
                0 <= i < rules@.len() && rules@[i].path@ == k by {
                let i = choose|i: int| 0 <= i < listing.len() && listing[i].0 == k;
                assert(rules@[i].path@ == k);
            }
        }
        rules
    }
}

impl Default for Ruleset {
    fn default() -> (r: Self)
        ensures
            r@.restrictions == Map::<Resource, CompatMode>::empty(),
            r@.fs_rules == Map::<Seq<char>, FsRule>::empty(),
            r@.net_rules == Map::<Resource, Seq<NetRule>>::empty(),
    {
        let r = Ruleset {
            restrict_fs: None,
            restrict_tcp_bind: None,
            restrict_tcp_connect: None,
            fs_rules: StrMap::new(),
            tcp_bind_rules: None,
            tcp_connect_rules: None,
        };
        assert(r@.restrictions =~= Map::<Resource, CompatMode>::empty());
        assert(r@.net_rules =~= Map::<Resource, Seq<NetRule>>::empty());
        r
    }
}

} // verus!
