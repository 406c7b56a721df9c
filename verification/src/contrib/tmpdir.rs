use vstd::prelude::*;

use crate::text::push_str;

verus! {

/// Whether `c` is one of a-z, A-Z and 0-9.
pub open spec fn is_alphanumeric(c: char) -> bool {
    ||| 'a' as u32 <= c as u32 <= 'z' as u32
    ||| 'A' as u32 <= c as u32 <= 'Z' as u32
    ||| '0' as u32 <= c as u32 <= '9' as u32
}

/// A random character in a-z, A-Z and 0-9, from `fastrand::alphanumeric`,
/// which picks one of those 62 characters with the thread's generator.
/// Which one comes back is left open.
#[verifier::external_body]
fn random_alphanumeric() -> (c: char)
    ensures
        is_alphanumeric(c),
{
    fastrand::alphanumeric()
}

/// Whether `name` is `prefix`, a dash and eight characters of a-z, A-Z
/// and 0-9.
pub open spec fn is_tmp_name(name: Seq<char>, prefix: Seq<char>) -> bool {
    &&& name.len() == prefix.len() + 9
    &&& name.take(prefix.len() as int) == prefix
    &&& name[prefix.len() as int] == '-'
    &&& forall|i: int| prefix.len() < i < name.len() ==> is_alphanumeric(#[trigger] name[i])
}

/// A fresh name for a temporary directory: `prefix`, a dash and eight
/// random alphanumeric characters.
pub fn random_name(prefix: &str) -> (name: String)
    ensures
        is_tmp_name(name@, prefix@),
{
    let mut name = String::new();
    push_str(&mut name, prefix);
    name.push('-');
    let mut i: usize = 0;
    while i < 8
        invariant
            i <= 8,
            name@.len() == prefix@.len() + 1 + i,
            name@.take(prefix@.len() as int) == prefix@,
            name@[prefix@.len() as int] == '-',
            forall|j: int| prefix@.len() < j < name@.len() ==> is_alphanumeric(#[trigger] name@[j]),
        decreases 8 - i,
    {
        let c = random_alphanumeric();
        let ghost before = name@;
        name.push(c);
        assert(name@.take(prefix@.len() as int) =~= before.take(prefix@.len() as int));
        i = i + 1;
    }
    name
}

/// A directory that exists for as long as the value lives, and is removed
/// with it when the value created it.
#[derive(Debug)]
pub struct Dir {
    path: String,
    auto_remove: bool,
}

impl Dir {
    /// A directory at `path`, which the caller has just created unless it
    /// `existed` already: only one that did not exist is removed again.
    pub fn new(path: &str, existed: bool) -> (d: Self)
        ensures
            d.path()@ == path@,
            d.auto_remove() == !existed,
    {
        Dir { path: path.to_owned(), auto_remove: !existed }
    }

    /// The path of the directory.
    pub closed spec fn path(&self) -> String {
        self.path
    }

    /// Whether the directory is removed with the value.
    pub closed spec fn auto_remove(&self) -> bool {
        self.auto_remove
    }

    /// The path of the directory.
    pub fn get_path(&self) -> (p: &str)
        ensures
            p@ == self.path()@,
    {
        self.path.as_str()
    }

    /// Whether the directory is removed with the value.
    pub fn is_auto_remove(&self) -> (b: bool)
        ensures
            b == self.auto_remove(),
    {
        self.auto_remove
    }
}

} // verus!
