use vstd::prelude::*;

use crate::container::{Container, ContainerView};
use crate::keyed::{lists_in_order, StrMap};
use crate::seqs::views_of;
use crate::stdio::Stdio;

verus! {

/// What a command is configured with.
pub struct CommandView {
    pub container: ContainerView,
    pub program: Seq<char>,
    pub args: Seq<Seq<char>>,
    pub envs: Map<Seq<char>, Seq<char>>,
    pub dir: Option<Seq<char>>,
    pub stdin: Option<Stdio>,
    pub stdout: Option<Stdio>,
    pub stderr: Option<Stdio>,
    pub wait_timeout: Option<u64>,
}

/// The variables after setting each pair in turn; a later pair replaces
/// an earlier one with the same key.
pub open spec fn envs_after(m: Map<Seq<char>, Seq<char>>, pairs: Seq<(Seq<char>, Seq<char>)>) -> Map<
    Seq<char>,
    Seq<char>,
>
    decreases pairs.len(),
{
    if pairs.len() == 0 {
        m
    } else {
        envs_after(m, pairs.drop_last()).insert(pairs.last().0, pairs.last().1)
    }
}

/// What adding the argument `arg` makes of a command.
pub open spec fn after_arg(c: CommandView, arg: Seq<char>) -> CommandView {
    CommandView { args: c.args.push(arg), ..c }
}

/// What adding each of `args` in turn, one argument at a time, makes of a
/// command.
pub open spec fn after_each_arg(c: CommandView, args: Seq<Seq<char>>) -> CommandView
    decreases args.len(),
{
    if args.len() == 0 {
        c
    } else {
        after_arg(after_each_arg(c, args.drop_last()), args.last())
    }
}

/// What setting the variable `key` to `val` makes of a command.
pub open spec fn after_env(c: CommandView, key: Seq<char>, val: Seq<char>) -> CommandView {
    CommandView { envs: c.envs.insert(key, val), ..c }
}

/// What setting each of `pairs` in turn, one variable at a time, makes of
/// a command.
pub open spec fn after_each_env(c: CommandView, pairs: Seq<(Seq<char>, Seq<char>)>) -> CommandView
    decreases pairs.len(),
{
    if pairs.len() == 0 {
        c
    } else {
        after_env(after_each_env(c, pairs.drop_last()), pairs.last().0, pairs.last().1)
    }
}

/// Adding several arguments at once gives the same command as adding them
/// one at a time, in order: the arguments are appended after those the
/// command had.
pub proof fn lemma_args_one_by_one(c: CommandView, args: Seq<Seq<char>>)
    ensures
        after_each_arg(c, args) == (CommandView { args: c.args + args, ..c }),
    decreases args.len(),
{
    if args.len() > 0 {
        lemma_args_one_by_one(c, args.drop_last());
        assert(c.args + args =~= (c.args + args.drop_last()).push(args.last()));
    } else {
        assert(c.args + args =~= c.args);
    }
}

/// Setting several variables at once gives the same command as setting
/// them one at a time, in order; so of two pairs with one key the later
/// value stays.
pub proof fn lemma_envs_one_by_one(c: CommandView, pairs: Seq<(Seq<char>, Seq<char>)>)
    ensures
        after_each_env(c, pairs) == (CommandView { envs: envs_after(c.envs, pairs), ..c }),
    decreases pairs.len(),
{
    if pairs.len() > 0 {
        lemma_envs_one_by_one(c, pairs.drop_last());
    }
}

/// The variables of a map of strings, by their characters.
pub open spec fn string_values(m: Map<Seq<char>, String>) -> Map<Seq<char>, Seq<char>> {
    m.map_values(|v: String| v@)
}

/// Process builder, providing fine-grained control over how a new process
/// should be spawned.
///
/// A command is created via [Container::command]. This struct is similar
/// to `std::process::Command`.
#[derive(Debug)]
pub struct Command {
    container: Container,
    program: String,
    args: Vec<String>,
    /// Environment variables by name; a `StrMap` rather than a
    /// `HashMap<String, String>`, whose inserts vstd cannot reason about
    /// with a `String` key.
    envs: StrMap<String>,
    dir: Option<String>,
    stdin: Option<Stdio>,
    stdout: Option<Stdio>,
    stderr: Option<Stdio>,
    wait_timeout: Option<u64>,
}

impl View for Command {
    type V = CommandView;

    closed spec fn view(&self) -> CommandView {
        CommandView {
            container: self.container@,
            program: self.program@,
            args: views_of(self.args@),
            envs: string_values(self.envs@),
            dir: match self.dir {
                Some(d) => Some(d@),
                None => None,
            },
            stdin: self.stdin,
            stdout: self.stdout,
            stderr: self.stderr,
            wait_timeout: self.wait_timeout,
        }
    }
}

impl Command {
    /// Constructs a new Command for launching the program at path `program`
    /// within `container`.
    pub(crate) fn new(program: &str, container: Container) -> (c: Self)
        ensures
            c@.container == container@,
            c@.program == program@,
            c@.args == Seq::<Seq<char>>::empty(),
            c@.envs == Map::<Seq<char>, Seq<char>>::empty(),
            c@.dir is None,
            c@.stdin is None,
            c@.stdout is None,
            c@.stderr is None,
            c@.wait_timeout is None,
    {
        let c = Self {
            container,
            program: program.to_owned(),
            args: Vec::new(),
            envs: StrMap::new(),
            dir: None,
            stdin: None,
            stdout: None,
            stderr: None,
            wait_timeout: None,
        };
        assert(c@.args =~= Seq::<Seq<char>>::empty());
        assert(c@.envs =~= Map::<Seq<char>, Seq<char>>::empty());
        c
    }

    /// Adds an argument to pass to the program.
    pub fn arg(&mut self, arg: &str) -> (r: &mut Self)
        ensures
            r@ == after_arg(old(self)@, arg@),
            *final(self) == *final(r),
    {
        let ghost before = self.args@;
        self.args.push(arg.to_owned());
        assert(views_of(self.args@) =~= views_of(before).push(arg@));
        self
    }

    /// Adds multiple arguments to pass to the program.
    pub fn args(&mut self, args: &[&str]) -> (r: &mut Self)
        ensures
            r@ == (CommandView {
                args: old(self)@.args + args@.map_values(|a: &str| a@),
                ..old(self)@
            }),
            r@ == after_each_arg(old(self)@, args@.map_values(|a: &str| a@)),
            *final(self) == *final(r),
    {
        let mut i: usize = 0;
        while i < args.len()
            invariant
                i <= args@.len(),
                self@ == (CommandView {
                    args: old(self)@.args + args@.map_values(|a: &str| a@).take(i as int),
                    ..old(self)@
                }),
            decreases args.len() - i,
        {
            let ghost before = self@;
            self.arg(args[i]);
            assert(args@.map_values(|a: &str| a@).take(i + 1) =~= args@.map_values(|a: &str| a@).take(
                i as int,
            ).push(args@[i as int]@));
            assert(self@.args =~= old(self)@.args + args@.map_values(|a: &str| a@).take(i + 1));
            i = i + 1;
        }
        assert(args@.map_values(|a: &str| a@).take(args@.len() as int) =~= args@.map_values(
            |a: &str| a@,
        ));
        proof {
            lemma_args_one_by_one(old(self)@, args@.map_values(|a: &str| a@));
        }
        self
    }

    /// Inserts or updates an explicit environment variable mapping.
    pub fn env(&mut self, key: &str, val: &str) -> (r: &mut Self)
        ensures
            r@ == after_env(old(self)@, key@, val@),
            *final(self) == *final(r),
    {
        let v = val.to_owned();
        let ghost before = self.envs@;
        self.envs.insert(key.to_owned(), v);
        assert(string_values(self.envs@) =~= string_values(before).insert(key@, val@));
        self
    }

    /// Inserts or updates multiple explicit environment variable mappings;
    /// of pairs with the same key, the last one stays.
    pub fn envs(&mut self, vars: &[(&str, &str)]) -> (r: &mut Self)
        ensures
            r@ == (CommandView {
                envs: envs_after(old(self)@.envs, vars@.map_values(|p: (&str, &str)| (p.0@, p.1@))),
                ..old(self)@
            }),
            r@ == after_each_env(old(self)@, vars@.map_values(|p: (&str, &str)| (p.0@, p.1@))),
            *final(self) == *final(r),
    {
        let ghost pairs = vars@.map_values(|p: (&str, &str)| (p.0@, p.1@));
        let mut i: usize = 0;
        while i < vars.len()
            invariant
                i <= vars@.len(),
                pairs == vars@.map_values(|p: (&str, &str)| (p.0@, p.1@)),
                self@ == (CommandView { envs: envs_after(old(self)@.envs, pairs.take(i as int)), ..old(self)@ }),
            decreases vars.len() - i,
        {
            let (k, v) = vars[i];
            self.env(k, v);
            assert(pairs.take(i + 1).drop_last() =~= pairs.take(i as int));
            i = i + 1;
        }
        assert(pairs.take(vars@.len() as int) =~= pairs);
        proof {
            lemma_envs_one_by_one(old(self)@, pairs);
        }
        self
    }

    /// Sets the working directory for the child process.
    pub fn current_dir(&mut self, dir: &str) -> (r: &mut Self)
        ensures
            r@ == (CommandView { dir: Some(dir@), ..old(self)@ }),
            *final(self) == *final(r),
    {
        self.dir = Some(dir.to_owned());
        self
    }

    /// Sets the number of seconds to wait for the child process to terminate.
    pub fn wait_timeout(&mut self, timeout: u64) -> (r: &mut Self)
        ensures
            r@ == (CommandView { wait_timeout: Some(timeout), ..old(self)@ }),
            *final(self) == *final(r),
    {
        self.wait_timeout = Some(timeout);
        self
    }

    /// Configuration for the child process's standard input (stdin) handle.
    ///
    /// Defaults to inherit when used with `spawn` or `status`, and defaults
    /// to piped when used with `output`.
    pub fn stdin(&mut self, cfg: Stdio) -> (r: &mut Self)
        ensures
            r@ == (CommandView { stdin: Some(cfg), ..old(self)@ }),
            *final(self) == *final(r),
    {
        self.stdin = Some(cfg);
        self
    }

    /// Configuration for the child process's standard output (stdout) handle.
    ///
    /// Defaults to inherit when used with `spawn` or `status`, and defaults
    /// to piped when used with `output`.
    pub fn stdout(&mut self, cfg: Stdio) -> (r: &mut Self)
        ensures
            r@ == (CommandView { stdout: Some(cfg), ..old(self)@ }),
            *final(self) == *final(r),
    {
        self.stdout = Some(cfg);
        self
    }

    /// Configuration for the child process's standard error (stderr) handle.
    ///
    /// Defaults to inherit when used with `spawn` or `status`, and defaults
    /// to piped when used with `output`.
    pub fn stderr(&mut self, cfg: Stdio) -> (r: &mut Self)
        ensures
            r@ == (CommandView { stderr: Some(cfg), ..old(self)@ }),
            *final(self) == *final(r),
    {
        self.stderr = Some(cfg);
        self
    }

    /// Returns the path to the program.
    pub fn get_program(&self) -> (p: &str)
        ensures
            p@ == self@.program,
    {
        self.program.as_str()
    }

    /// Returns the arguments that will be passed to the program.
    pub fn get_args(&self) -> (args: Vec<String>)
        ensures
            views_of(args@) == self@.args,
    {
        let mut args: Vec<String> = Vec::new();
        let mut i: usize = 0;
        while i < self.args.len()
            invariant
                i <= self.args@.len(),
                views_of(args@) == views_of(self.args@).take(i as int),
            decreases self.args.len() - i,
        {
            let c = self.args[i].clone();
            let ghost before = args@;
            args.push(c);
            assert(views_of(args@) =~= views_of(before).push(self.args@[i as int]@));
            assert(views_of(self.args@).take(i + 1) =~= views_of(self.args@).take(i as int).push(
                self.args@[i as int]@,
            ));
            i = i + 1;
        }
        assert(views_of(self.args@).take(self.args@.len() as int) =~= views_of(self.args@));
        args
    }

    /// Returns the environment variables explicitly set for the child
    /// process, in ascending order of name.
    pub fn get_envs(&self) -> (envs: Vec<(String, String)>)
        ensures
            lists_in_order(envs@.map_values(|e: (String, String)| (e.0@, e.1@)), self@.envs),
    {
        proof {
            self.envs.lemma_in_order();
        }
        let ghost listing = self.envs.in_order();
        let ghost target = listing.map_values(|e: (Seq<char>, String)| (e.0, e.1@));
        let n: usize = self.envs.len();
        let mut envs: Vec<(String, String)> = Vec::new();
        let mut i: usize = 0;
        while i < n
            invariant
                n == listing.len(),
                i <= n,
                listing == self.envs.in_order(),
                target == listing.map_values(|e: (Seq<char>, String)| (e.0, e.1@)),
                envs@.map_values(|e: (String, String)| (e.0@, e.1@)) == target.take(i as int),
            decreases n - i,
        {
            let (k, v) = self.envs.entry_at(i);
            let e = (k.clone(), v.clone());
            let ghost before = envs@;
            envs.push(e);
            assert(envs@ == before.push(e));
            assert(e.0@ == listing[i as int].0 && e.1@ == listing[i as int].1@);
            assert(envs@.map_values(|e: (String, String)| (e.0@, e.1@)) =~= before.map_values(
                |e: (String, String)| (e.0@, e.1@),
            ).push((e.0@, e.1@)));
            assert(target.take(i + 1) =~= target.take(i as int).push(target[i as int]));
            i = i + 1;
        }
        proof {
            let m = self.envs@;
            let vm = string_values(m);
            assert(target.take(n as int) =~= target);
            assert forall|j: int| 0 <= j < target.len() implies #[trigger] vm.contains_key(target[j].0)
                && vm[target[j].0] == target[j].1 by {
                assert(m.contains_key(listing[j].0));
            }
            assert forall|k: Seq<char>| #[trigger] vm.contains_key(k) implies exists|j: int|
                0 <= j < target.len() && target[j].0 == k by {
                assert(m.contains_key(k));
                let j = choose|j: int| 0 <= j < listing.len() && listing[j].0 == k;
                assert(target[j].0 == k);
            }
            assert(vm.dom() =~= m.dom());
        }
        envs
    }

    /// Returns the working directory for the child process.
    pub fn get_current_dir(&self) -> (d: Option<&str>)
        ensures
            match d {
                Some(d) => self@.dir == Some(d@),
                None => self@.dir is None,
            },
    {
        match &self.dir {
            Some(d) => Some(d.as_str()),
            None => None,
        }
    }

    /// Returns the container that the command runs in.
    pub fn get_container(&self) -> (c: &Container)
        ensures
            c@ == self@.container,
    {
        &self.container
    }

    /// Returns the configuration of standard input, output and error.
    pub fn get_stdio(&self) -> (s: (Option<Stdio>, Option<Stdio>, Option<Stdio>))
        ensures
            s == (self@.stdin, self@.stdout, self@.stderr),
    {
        (self.stdin, self.stdout, self.stderr)
    }

    /// The configuration of standard input, output and error that a spawn
    /// uses: what was configured for each stream, else `default`.
    pub fn stdio_or(&self, default: Stdio) -> (s: (Stdio, Stdio, Stdio))
        ensures
            s.0 == (match self@.stdin {
                Some(c) => c,
                None => default,
            }),
            s.1 == (match self@.stdout {
                Some(c) => c,
                None => default,
            }),
            s.2 == (match self@.stderr {
                Some(c) => c,
                None => default,
            }),
    {
        (self.stdin.unwrap_or(default), self.stdout.unwrap_or(default), self.stderr.unwrap_or(default))
    }

    /// Returns the number of seconds to wait for the child process.
    pub fn get_wait_timeout(&self) -> (t: Option<u64>)
        ensures
            t == self@.wait_timeout,
    {
        self.wait_timeout
    }
}

} // verus!
