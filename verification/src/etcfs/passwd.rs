use vstd::prelude::*;

use super::fields::{field_error_text, parse_u32, parse_u32_text, split_fields, split_text, EtcfsError, FieldError};
use super::lines::{byte_prefix, bytes_len, has_byte_prefix, lines_of, text_lines};
use crate::seqs::views_of;

verus! {

/// An entry of `/etc/passwd`:
/// `name:password:uid:gid:gecos:directory:shell`.
#[derive(Debug, Clone)]
pub struct PasswdEntry {
    pub name: String,
    pub uid: u32,
    pub gid: u32,
}

/// What reading the passwd line `line` gives: the seven fields between
/// colons must be there, the third and fourth read as numbers, in the
/// order of the fields; a field after the seventh is not read.
pub open spec fn passwd_line_result(line: Seq<char>, r: Result<PasswdEntry, FieldError>) -> bool {
    let f = split_text(line, ':');
    if f.len() < 3 {
        r == Err::<PasswdEntry, FieldError>(FieldError::Missing)
    } else if parse_u32_text(f[2]) is None {
        r matches Err(FieldError::InvalidNumber(t)) && t@ == f[2]
    } else if f.len() < 4 {
        r == Err::<PasswdEntry, FieldError>(FieldError::Missing)
    } else if parse_u32_text(f[3]) is None {
        r matches Err(FieldError::InvalidNumber(t)) && t@ == f[3]
    } else if f.len() < 7 {
        r == Err::<PasswdEntry, FieldError>(FieldError::Missing)
    } else {
        r matches Ok(e) && e.name@ == f[0] && Some(e.uid) == parse_u32_text(f[2]) && Some(e.gid)
            == parse_u32_text(f[3])
    }
}

/// Whether a passwd line reads as an entry.
pub open spec fn passwd_line_ok(line: Seq<char>) -> bool {
    let f = split_text(line, ':');
    f.len() >= 7 && parse_u32_text(f[2]) is Some && parse_u32_text(f[3]) is Some
}

/// The message of what is wrong with a passwd line that does not read as
/// an entry: the first of its user and group ids that is not a number, or
/// a missing field.
pub open spec fn passwd_line_message(line: Seq<char>) -> Seq<char> {
    let f = split_text(line, ':');
    if f.len() >= 3 && parse_u32_text(f[2]) is None {
        "invalid number: "@ + f[2]
    } else if f.len() >= 4 && parse_u32_text(f[3]) is None {
        "invalid number: "@ + f[3]
    } else {
        "missing field"@
    }
}

/// Whether every line before the `i`-th reads as an entry.
pub open spec fn passwd_lines_ok_before(lines: Seq<Seq<char>>, i: int) -> bool {
    forall|j: int| 0 <= j < i ==> passwd_line_ok(#[trigger] lines[j])
}

/// Reads the entries of the text of an `/etc/passwd` file, one per line.
/// The first line that is not an entry makes it fail with the first eight
/// bytes of that line, which must end between two characters, and the
/// message of what is wrong.
pub fn passwd_entries(content: &str) -> (r: Result<Vec<PasswdEntry>, EtcfsError>)
    requires
        forall|i: int|
            0 <= i < text_lines(content@).len() && passwd_lines_ok_before(text_lines(content@), i)
                && !passwd_line_ok(#[trigger] text_lines(content@)[i]) ==> has_byte_prefix(
                text_lines(content@)[i],
                8,
            ),
    ensures
        passwd_lines_ok_before(text_lines(content@), text_lines(content@).len() as int) ==> (r matches Ok(v)
            && v@.len() == text_lines(content@).len() && forall|i: int|
            0 <= i < v@.len() ==> passwd_line_result(
                text_lines(content@)[i],
                Ok::<PasswdEntry, FieldError>(#[trigger] v@[i]),
            )),
        forall|i: int|
            0 <= i < text_lines(content@).len() && passwd_lines_ok_before(text_lines(content@), i)
                && !passwd_line_ok(#[trigger] text_lines(content@)[i]) ==> (r matches Err(
                EtcfsError::InvalidLine { line, errmsg },
            ) && line@ == text_lines(content@)[i].take(line@.len() as int) && bytes_len(line@) == 8
                && errmsg@ == passwd_line_message(text_lines(content@)[i])),
{
    let lines = lines_of(content);
    let ghost ls = text_lines(content@);
    let mut entries: Vec<PasswdEntry> = Vec::new();
    let mut i: usize = 0;
    while i < lines.len()
        invariant
            views_of(lines@) == ls,
            ls == text_lines(content@),
            forall|k: int|
                0 <= k < ls.len() && passwd_lines_ok_before(ls, k) && !passwd_line_ok(#[trigger] ls[k])
                    ==> has_byte_prefix(ls[k], 8),
            i <= ls.len(),
            passwd_lines_ok_before(ls, i as int),
            entries@.len() == i,
            forall|j: int| 0 <= j < i ==> passwd_line_result(ls[j], Ok::<PasswdEntry, FieldError>(#[trigger] entries@[j])),
        decreases lines.len() - i,
    {
        let line = lines[i].as_str();
        assert(line@ == ls[i as int]);
        match PasswdEntry::from_line(line) {
            Ok(e) => {
                entries.push(e);
                assert forall|j: int| 0 <= j < i + 1 implies passwd_line_ok(#[trigger] ls[j]) by {}
            },
            Err(e) => {
                let prefix = byte_prefix(line, 8);
                let errmsg = e.to_string();
                proof {
                    assert(!passwd_line_ok(ls[i as int]));
                    assert(field_error_text(e) == passwd_line_message(ls[i as int]));
                    assert forall|k: int|
                        0 <= k < ls.len() && passwd_lines_ok_before(ls, k) && !passwd_line_ok(#[trigger] ls[k])
                            implies k == i by {
                        if k > i {
                            assert(passwd_line_ok(ls[i as int]));
                        }
                    }
                }
                return Err(EtcfsError::InvalidLine { line: prefix, errmsg });
            },
        }
        i = i + 1;
    }
    Ok(entries)
}

impl PasswdEntry {
    /// Reads an entry from a line of `/etc/passwd`.
    pub fn from_line(line: &str) -> (r: Result<PasswdEntry, FieldError>)
        ensures
            passwd_line_result(line@, r),
    {
        let mut parts = split_fields(line, ':');
        if parts.len() < 3 {
            return Err(FieldError::Missing);
        }
        let uid: u32 = match parse_u32(parts[2].as_str()) {
            Some(uid) => uid,
            None => {
                return Err(FieldError::InvalidNumber(parts[2].clone()));
            },
        };
        if parts.len() < 4 {
            return Err(FieldError::Missing);
        }
        let gid: u32 = match parse_u32(parts[3].as_str()) {
            Some(gid) => gid,
            None => {
                return Err(FieldError::InvalidNumber(parts[3].clone()));
            },
        };
        if parts.len() < 7 {
            return Err(FieldError::Missing);
        }
        let mut name = String::new();
        std::mem::swap(&mut name, &mut parts[0]);
        Ok(PasswdEntry { name, uid, gid })
    }
}

} // verus!
