use vstd::prelude::*;

use crate::error::Error;
use crate::text::{char_to_lowercase, chars_of, debug_text, lower_char_text, push_str, str_debug, str_eq};

verus! {

/// FS access flags: read (`R`), write (`W`) and execute (`X`).
#[derive(PartialEq, Eq, Structural, Clone, Copy, Debug, Hash)]
pub struct Access {
    pub bits: u64,
}

/// The bits of an access letter: `r`, `w`, `x` and `-`; other text is
/// no access letter.
pub open spec fn access_letter_bits(l: Seq<char>) -> Option<u64> {
    if l == "r"@ {
        Some(1)
    } else if l == "w"@ {
        Some(2)
    } else if l == "x"@ {
        Some(4)
    } else if l == "-"@ {
        Some(0)
    } else {
        None
    }
}

/// The message of an unknown access letter.
pub open spec fn unknown_access_message(l: Seq<char>) -> Seq<char> {
    "unknown access "@ + debug_text(l)
}

/// Reads access text: each character, lowercased, must be an access
/// letter; the bits of all letters are combined. Otherwise the message of
/// the first character that is not one.
pub open spec fn parse_access(cs: Seq<char>) -> Result<u64, Seq<char>>
    decreases cs.len(),
{
    if cs.len() == 0 {
        Ok(0)
    } else {
        match parse_access(cs.drop_last()) {
            Err(e) => Err(e),
            Ok(acc) => {
                let l = lower_char_text(cs.last());
                match access_letter_bits(l) {
                    None => Err(unknown_access_message(l)),
                    Some(b) => Ok(acc | b),
                }
            },
        }
    }
}

/// The text of access bits: `r`, `w` and `x` for the bits that are set,
/// `-` for those that are not.
pub open spec fn access_text(bits: u64) -> Seq<char> {
    seq![
        if bits & 1 != 0 { 'r' } else { '-' },
        if bits & 2 != 0 { 'w' } else { '-' },
        if bits & 4 != 0 { 'x' } else { '-' },
    ]
}

/// Once a prefix of the text is rejected, the whole text is rejected
/// with the same message.
proof fn lemma_parse_error_stays(cs: Seq<char>, j: int)
    requires
        0 <= j <= cs.len(),
        parse_access(cs.take(j)) is Err,
    ensures
        parse_access(cs) == parse_access(cs.take(j)),
    decreases cs.len() - j,
{
    if j < cs.len() {
        assert(cs.take(j + 1).drop_last() =~= cs.take(j));
        lemma_parse_error_stays(cs, j + 1);
    } else {
        assert(cs.take(j) =~= cs);
    }
}

/// Three bits, each set or not, combine into the value that has them.
proof fn lemma_access_bits(bits: u64)
    by (bit_vector)
    requires
        bits <= 7,
    ensures
        ((0u64 | (if bits & 1 != 0 { 1u64 } else { 0u64 })) | (if bits & 2 != 0 { 2u64 } else { 0u64 })) | (
        if bits & 4 != 0 {
            4u64
        } else {
            0u64
        }) == bits,
{
}

/// Reading the text of an access gives the access back: the text of every
/// access (any combination of read, write and execute) is accepted and
/// means the same bits.
pub proof fn lemma_access_text_roundtrip(a: Access)
    requires
        a.bits <= 7,
    ensures
        parse_access(access_text(a.bits)) == Ok::<u64, Seq<char>>(a.bits),
{
    reveal_strlit("r");
    reveal_strlit("w");
    reveal_strlit("x");
    reveal_strlit("-");
    assert("r"@ =~= seq!['r']);
    assert("w"@ =~= seq!['w']);
    assert("x"@ =~= seq!['x']);
    assert("-"@ =~= seq!['-']);
    assert(seq!['x'] != seq!['r'] && seq!['x'] != seq!['w']) by {
        assert(seq!['x'][0] != seq!['r'][0] && seq!['x'][0] != seq!['w'][0]);
    }
    assert(seq!['-'] != seq!['r'] && seq!['-'] != seq!['w'] && seq!['-'] != seq!['x']) by {
        assert(seq!['-'][0] != seq!['r'][0] && seq!['-'][0] != seq!['w'][0] && seq!['-'][0] != seq!['x'][0]);
    }
    let t = access_text(a.bits);
    let b1: u64 = if a.bits & 1 != 0 { 1 } else { 0 };
    let b2: u64 = if a.bits & 2 != 0 { 2 } else { 0 };
    let b4: u64 = if a.bits & 4 != 0 { 4 } else { 0 };
    let t0 = t.drop_last().drop_last().drop_last();
    let t1 = t.drop_last().drop_last();
    let t2 = t.drop_last();
    assert(t0.len() == 0);
    assert(t1 =~= seq![t[0]]);
    assert(t2 =~= seq![t[0], t[1]]);
    assert(lower_char_text(t[0]) == seq![t[0]]);
    assert(lower_char_text(t[1]) == seq![t[1]]);
    assert(lower_char_text(t[2]) == seq![t[2]]);
    assert(access_letter_bits(seq![t[0]]) == Some(b1));
    assert(access_letter_bits(seq![t[1]]) == Some(b2));
    assert(access_letter_bits(seq![t[2]]) == Some(b4));
    assert(parse_access(t0) == Ok::<u64, Seq<char>>(0));
    assert(parse_access(t1) == Ok::<u64, Seq<char>>(0 | b1));
    assert(parse_access(t2) == Ok::<u64, Seq<char>>((0 | b1) | b2));
    lemma_access_bits(a.bits);
}

impl Access {
    /// Read access.
    #[allow(non_snake_case)]
    pub fn R() -> (a: Access)
        ensures
            a.bits == 1,
    {
        Access { bits: 1 }
    }

    /// Write access.
    #[allow(non_snake_case)]
    pub fn W() -> (a: Access)
        ensures
            a.bits == 2,
    {
        Access { bits: 2 }
    }

    /// Execute access.
    #[allow(non_snake_case)]
    pub fn X() -> (a: Access)
        ensures
            a.bits == 4,
    {
        Access { bits: 4 }
    }

    /// No access.
    pub fn empty() -> (a: Access)
        ensures
            a.bits == 0,
    {
        Access { bits: 0 }
    }

    /// The accesses of both.
    pub fn union(self, other: Access) -> (a: Access)
        ensures
            a.bits == self.bits | other.bits,
    {
        Access { bits: self.bits | other.bits }
    }

    /// Reads access text such as `r-x`, case-insensitively.
    pub fn parse(text: &str) -> (r: Result<Access, Error>)
        ensures
            parse_access(text@) matches Ok(b) ==> r == Ok::<Access, Error>(Access { bits: b }),
            parse_access(text@) matches Err(m) ==> (r matches Err(Error::LandLockError(e)) && e@ == m),
    {
        let cs = chars_of(text);
        let mut bits: u64 = 0;
        let mut i: usize = 0;
        while i < cs.len()
            invariant
                i <= cs@.len(),
                cs@ == text@,
                parse_access(cs@.take(i as int)) == Ok::<u64, Seq<char>>(bits),
            decreases cs.len() - i,
        {
            let lower = char_to_lowercase(cs[i]);
            let l = lower.as_str();
            assert(lower@ == lower_char_text(cs@[i as int]));
            proof {
                assert(cs@.take(i + 1).drop_last() =~= cs@.take(i as int));
                assert(cs@.take(i + 1).last() == cs@[i as int]);
            }
            if str_eq(l, "r") {
                bits = bits | 1;
            } else if str_eq(l, "w") {
                bits = bits | 2;
            } else if str_eq(l, "x") {
                bits = bits | 4;
            } else if str_eq(l, "-") {
                assert(bits | 0 == bits) by (bit_vector);
            } else {
                let mut msg = String::new();
                push_str(&mut msg, "unknown access ");
                let d = str_debug(l);
                push_str(&mut msg, d.as_str());
                proof {
                    let pre = cs@.take(i + 1);
                    assert(parse_access(pre) == Err::<u64, Seq<char>>(unknown_access_message(lower@)));
                    lemma_parse_error_stays(cs@, i + 1);
                    assert(cs@.take(cs@.len() as int) =~= cs@);
                }
                return Err(Error::LandLockError(msg));
            }
            i = i + 1;
        }
        assert(cs@.take(cs@.len() as int) =~= cs@);
        Ok(Access { bits })
    }

    /// The text of the access, such as `r-x`.
    pub fn to_string(&self) -> (s: String)
        ensures
            s@ == access_text(self.bits),
    {
        let mut s = String::new();
        s.push(if self.bits & 1 != 0 { 'r' } else { '-' });
        s.push(if self.bits & 2 != 0 { 'w' } else { '-' });
        s.push(if self.bits & 4 != 0 { 'x' } else { '-' });
        assert(s@ =~= access_text(self.bits));
        s
    }
}

impl std::str::FromStr for Access {
    type Err = Error;

    fn from_str(str: &str) -> (r: core::result::Result<Self, Self::Err>)
        ensures
            parse_access(str@) matches Ok(b) ==> r == Ok::<Access, Error>(Access { bits: b }),
            parse_access(str@) matches Err(m) ==> (r matches Err(Error::LandLockError(e)) && e@ == m),
    {
        Access::parse(str)
    }
}

} // verus!
