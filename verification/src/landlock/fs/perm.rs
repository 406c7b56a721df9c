use vstd::prelude::*;

use crate::error::Error;
use crate::text::{ascii_lower, lower_text, push_str, str_eq, str_to_lowercase};

verus! {

/// Permission flags: read (`RD`), write (`WR`) and execute (`EXEC`).
#[derive(PartialEq, Eq, Structural, Clone, Copy, Debug, Hash)]
pub struct Perm {
    pub bits: u32,
}

/// The bits of a permission text that is not lowercase-insensitive yet:
/// the seven texts with at least one permission.
pub open spec fn perm_bits(mode: Seq<char>) -> Option<u32> {
    if mode == "r--"@ {
        Some(1)
    } else if mode == "rw-"@ {
        Some(3)
    } else if mode == "r-x"@ {
        Some(5)
    } else if mode == "rwx"@ {
        Some(7)
    } else if mode == "-w-"@ {
        Some(2)
    } else if mode == "-wx"@ {
        Some(6)
    } else if mode == "--x"@ {
        Some(4)
    } else {
        None
    }
}

/// The text of permission bits: `r`, `w` and `x` for the bits that are
/// set, `-` for those that are not.
pub open spec fn perm_text(bits: u32) -> Seq<char> {
    seq![
        if bits & 1 == 1 { 'r' } else { '-' },
        if bits & 2 == 2 { 'w' } else { '-' },
        if bits & 4 == 4 { 'x' } else { '-' },
    ]
}

/// Reading the text of a permission gives the permission back, for every
/// permission that grants something: its text is already lowercase, and
/// is one of the seven that are accepted.
pub proof fn lemma_perm_text_roundtrip(p: Perm)
    requires
        1 <= p.bits <= 7,
    ensures
        perm_bits(lower_text(perm_text(p.bits))) == Some(p.bits),
{
    let t = perm_text(p.bits);
    assert(t.all(|c: char| (c as u32) < 128));
    assert(t.map_values(|c: char| ascii_lower(c)) =~= t);
    reveal_strlit("r--");
    reveal_strlit("rw-");
    reveal_strlit("r-x");
    reveal_strlit("rwx");
    reveal_strlit("-w-");
    reveal_strlit("-wx");
    reveal_strlit("--x");
    let b = p.bits;
    assert(b & 1 == 1 <==> (b == 1 || b == 3 || b == 5 || b == 7)) by (bit_vector)
        requires
            1 <= b <= 7,
    ;
    assert(b & 2 == 2 <==> (b == 2 || b == 3 || b == 6 || b == 7)) by (bit_vector)
        requires
            1 <= b <= 7,
    ;
    assert(b & 4 == 4 <==> (b == 4 || b == 5 || b == 6 || b == 7)) by (bit_vector)
        requires
            1 <= b <= 7,
    ;
    if b == 1 {
        assert(t =~= "r--"@);
    } else if b == 3 {
        assert(t =~= "rw-"@);
        assert(t[1] != "r--"@[1]);
    } else if b == 5 {
        assert(t =~= "r-x"@);
        assert(t[2] != "r--"@[2] && t[1] != "rw-"@[1]);
    } else if b == 7 {
        assert(t =~= "rwx"@);
        assert(t[2] != "r--"@[2] && t[2] != "rw-"@[2] && t[1] != "r-x"@[1]);
    } else if b == 2 {
        assert(t =~= "-w-"@);
        assert(t[0] != "r--"@[0] && t[0] != "rw-"@[0] && t[0] != "r-x"@[0] && t[0] != "rwx"@[0]);
    } else if b == 6 {
        assert(t =~= "-wx"@);
        assert(t[0] != "r--"@[0] && t[0] != "rw-"@[0] && t[0] != "r-x"@[0] && t[0] != "rwx"@[0]);
        assert(t[2] != "-w-"@[2]);
    } else {
        assert(t =~= "--x"@);
        assert(t[0] != "r--"@[0] && t[0] != "rw-"@[0] && t[0] != "r-x"@[0] && t[0] != "rwx"@[0]);
        assert(t[1] != "-w-"@[1] && t[1] != "-wx"@[1]);
    }
}

impl Perm {
    /// Read.
    #[allow(non_snake_case)]
    pub fn RD() -> (p: Perm)
        ensures
            p.bits == 1,
    {
        Perm { bits: 1 }
    }

    /// Write.
    #[allow(non_snake_case)]
    pub fn WR() -> (p: Perm)
        ensures
            p.bits == 2,
    {
        Perm { bits: 2 }
    }

    /// Execute.
    #[allow(non_snake_case)]
    pub fn EXEC() -> (p: Perm)
        ensures
            p.bits == 4,
    {
        Perm { bits: 4 }
    }

    /// Reads a permission text such as `r-x`, case-insensitively. The text
    /// must grant at least one permission.
    pub fn parse(mode: &str) -> (r: Result<Perm, Error>)
        ensures
            perm_bits(lower_text(mode@)) matches Some(b) ==> r == Ok::<Perm, Error>(Perm { bits: b }),
            perm_bits(lower_text(mode@)) is None ==> (r matches Err(Error::Unexpected(e)) && e@
                == "unknown permission "@ + lower_text(mode@)),
    {
        let lower = str_to_lowercase(mode);
        let m = lower.as_str();
        assert(lower@ == lower_text(mode@));
        if str_eq(m, "r--") {
            Ok(Perm { bits: 1 })
        } else if str_eq(m, "rw-") {
            Ok(Perm { bits: 3 })
        } else if str_eq(m, "r-x") {
            Ok(Perm { bits: 5 })
        } else if str_eq(m, "rwx") {
            Ok(Perm { bits: 7 })
        } else if str_eq(m, "-w-") {
            Ok(Perm { bits: 2 })
        } else if str_eq(m, "-wx") {
            Ok(Perm { bits: 6 })
        } else if str_eq(m, "--x") {
            Ok(Perm { bits: 4 })
        } else {
            let mut msg = String::new();
            push_str(&mut msg, "unknown permission ");
            push_str(&mut msg, m);
            Err(Error::Unexpected(msg))
        }
    }

    /// The text of the permission, such as `r-x`.
    pub fn to_string(&self) -> (s: String)
        ensures
            s@ == perm_text(self.bits),
    {
        let mut s = String::new();
        push_str(&mut s, if self.bits & 1 == 1 { "r" } else { "-" });
        push_str(&mut s, if self.bits & 2 == 2 { "w" } else { "-" });
        push_str(&mut s, if self.bits & 4 == 4 { "x" } else { "-" });
        proof {
            reveal_strlit("r");
            reveal_strlit("w");
            reveal_strlit("x");
            reveal_strlit("-");
        }
        assert(s@ =~= perm_text(self.bits));
        s
    }
}

impl std::str::FromStr for Perm {
    type Err = Error;

    fn from_str(mode: &str) -> (r: core::result::Result<Self, Self::Err>)
        ensures
            perm_bits(lower_text(mode@)) matches Some(b) ==> r == Ok::<Perm, Error>(Perm { bits: b }),
            perm_bits(lower_text(mode@)) is None ==> (r matches Err(Error::Unexpected(e)) && e@
                == "unknown permission "@ + lower_text(mode@)),
    {
        Perm::parse(mode)
    }
}

} // verus!
