use vstd::prelude::*;

verus! {

/// Describes what to do with a standard I/O stream of a child process.
#[derive(PartialEq, Eq, Structural, Clone, Copy, Debug)]
pub enum Stdio {
    /// The child inherits the stream from the parent.
    Inherit,
    /// A new pipe connects the parent and the child.
    MakePipe,
}

impl Stdio {
    /// The child inherits the stream from the parent.
    pub fn inherit() -> (s: Stdio)
        ensures
            s == Stdio::Inherit,
    {
        Stdio::Inherit
    }

    /// A new pipe connects the parent and the child.
    pub fn piped() -> (s: Stdio)
        ensures
            s == Stdio::MakePipe,
    {
        Stdio::MakePipe
    }
}

} // verus!
