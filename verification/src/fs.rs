use vstd::prelude::*;

use crate::keyed::Duplicate;
use crate::text::push_str;

verus! {

/// Writes `contents` to the file at `target`.
#[derive(PartialEq, Eq, Clone, Debug)]
pub struct WriteFile {
    pub target: String,
    pub contents: String,
}

/// Creates the directory `target` with permission bits `mode`.
#[derive(PartialEq, Eq, Clone, Debug)]
pub struct MakeDir {
    pub target: String,
    pub mode: u32,
}

/// Creates a symbolic link at `link` that points to `original`.
#[derive(PartialEq, Eq, Clone, Debug)]
pub struct MakeSymlink {
    pub original: String,
    pub link: String,
}

/// A filesystem operation performed in the new MOUNT namespace.
#[derive(PartialEq, Eq, Clone, Debug)]
pub enum Operation {
    WriteFile(WriteFile),
    MakeDir(MakeDir),
    MakeSymlink(MakeSymlink),
}

impl From<WriteFile> for Operation {
    fn from(val: WriteFile) -> (r: Self) {
        Self::WriteFile(val)
    }
}

impl vstd::std_specs::convert::FromSpecImpl<WriteFile> for Operation {
    open spec fn obeys_from_spec() -> bool {
        true
    }

    open spec fn from_spec(v: WriteFile) -> Operation {
        Operation::WriteFile(v)
    }
}

impl From<MakeDir> for Operation {
    fn from(val: MakeDir) -> (r: Self) {
        Self::MakeDir(val)
    }
}

impl vstd::std_specs::convert::FromSpecImpl<MakeDir> for Operation {
    open spec fn obeys_from_spec() -> bool {
        true
    }

    open spec fn from_spec(v: MakeDir) -> Operation {
        Operation::MakeDir(v)
    }
}

impl From<MakeSymlink> for Operation {
    fn from(val: MakeSymlink) -> (r: Self) {
        Self::MakeSymlink(val)
    }
}

impl vstd::std_specs::convert::FromSpecImpl<MakeSymlink> for Operation {
    open spec fn obeys_from_spec() -> bool {
        true
    }

    open spec fn from_spec(v: MakeSymlink) -> Operation {
        Operation::MakeSymlink(v)
    }
}

impl Duplicate for Operation {
    fn duplicate(&self) -> (r: Operation) {
        match self {
            Operation::WriteFile(f) => Operation::WriteFile(
                WriteFile { target: f.target.clone(), contents: f.contents.clone() },
            ),
            Operation::MakeDir(d) => Operation::MakeDir(MakeDir { target: d.target.clone(), mode: d.mode }),
            Operation::MakeSymlink(l) => Operation::MakeSymlink(
                MakeSymlink { original: l.original.clone(), link: l.link.clone() },
            ),
        }
    }
}

impl Operation {
    /// The path that the operation creates.
    pub open spec fn spec_target(self) -> Seq<char> {
        match self {
            Operation::WriteFile(f) => f.target@,
            Operation::MakeDir(d) => d.target@,
            Operation::MakeSymlink(l) => l.link@,
        }
    }

    /// A one-line description of the operation.
    pub open spec fn spec_line(self) -> Seq<char> {
        match self {
            Operation::WriteFile(f) => "  write: "@ + f.target@,
            Operation::MakeDir(d) => "  mkdir: "@ + d.target@,
            Operation::MakeSymlink(l) => "symlink: "@ + l.link@ + " -> "@ + l.original@,
        }
    }

    /// A one-line description of the operation, such as `  mkdir: /tmp`
    /// or `symlink: /bin -> usr/bin`.
    pub fn to_string(&self) -> (s: String)
        ensures
            s@ == self.spec_line(),
    {
        let mut s = String::new();
        match self {
            Operation::WriteFile(f) => {
                push_str(&mut s, "  write: ");
                push_str(&mut s, f.target.as_str());
            },
            Operation::MakeDir(d) => {
                push_str(&mut s, "  mkdir: ");
                push_str(&mut s, d.target.as_str());
            },
            Operation::MakeSymlink(l) => {
                push_str(&mut s, "symlink: ");
                push_str(&mut s, l.link.as_str());
                push_str(&mut s, " -> ");
                push_str(&mut s, l.original.as_str());
            },
        }
        assert(s@ =~= self.spec_line());
        s
    }
}

} // verus!
