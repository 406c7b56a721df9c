use vstd::prelude::*;

use super::fields::{split_fields, split_text};
use crate::seqs::views_of;
use crate::text::chars_of;

verus! {

/// A piece of text with the `\r` of a `\r\n` line ending taken off.
pub open spec fn without_cr(s: Seq<char>) -> Seq<char> {
    if s.len() > 0 && s.last() == '\r' {
        s.drop_last()
    } else {
        s
    }
}

/// The lines of a text, as `str::lines` yields them: the text is cut after
/// each `\n`, which is dropped with a `\r` just before it; a last line
/// without `\n` is kept as it is when it is not empty.
pub open spec fn text_lines(s: Seq<char>) -> Seq<Seq<char>> {
    let pieces = split_text(s, '\n');
    let ended = pieces.drop_last().map_values(|p: Seq<char>| without_cr(p));
    if pieces.last().len() == 0 {
        ended
    } else {
        ended.push(pieces.last())
    }
}

/// The number of bytes that `c` takes in UTF-8.
pub open spec fn utf8_len(c: char) -> nat {
    if (c as u32) < 0x80 {
        1
    } else if (c as u32) < 0x800 {
        2
    } else if (c as u32) < 0x10000 {
        3
    } else {
        4
    }
}

/// The number of bytes that `s` takes in UTF-8.
pub open spec fn bytes_len(s: Seq<char>) -> nat
    decreases s.len(),
{
    if s.len() == 0 {
        0
    } else {
        bytes_len(s.drop_last()) + utf8_len(s.last())
    }
}

/// Whether the first `n` bytes of `s` end between two characters.
pub open spec fn has_byte_prefix(s: Seq<char>, n: nat) -> bool {
    exists|k: int| 0 <= k <= s.len() && #[trigger] bytes_len(s.take(k)) == n
}

/// A longer prefix takes more bytes.
proof fn lemma_bytes_len_grows(s: Seq<char>, j: int, k: int)
    requires
        0 <= j < k <= s.len(),
    ensures
        bytes_len(s.take(j)) < bytes_len(s.take(k)),
    decreases k - j,
{
    assert(s.take(k).drop_last() =~= s.take(k - 1));
    if j < k - 1 {
        lemma_bytes_len_grows(s, j, k - 1);
    }
}

/// The lines of `text`, as `str::lines` yields them.
pub fn lines_of(text: &str) -> (lines: Vec<String>)
    ensures
        views_of(lines@) == text_lines(text@),
{
    let pieces = split_fields(text, '\n');
    let ghost all = views_of(pieces@);
    assert(all.len() >= 1) by {
        assert(all == split_text(text@, '\n'));
        lemma_split_text_nonempty(text@, '\n');
    }
    let n: usize = pieces.len();
    let mut lines: Vec<String> = Vec::new();
    let mut i: usize = 0;
    while i + 1 < n
        invariant
            n == pieces@.len(),
            n >= 1,
            i + 1 <= n,
            all == views_of(pieces@),
            views_of(lines@) == all.take(i as int).map_values(|p: Seq<char>| without_cr(p)),
        decreases n - i,
    {
        let line = strip_cr(pieces[i].as_str());
        let ghost before = views_of(lines@);
        lines.push(line);
        assert(views_of(lines@) =~= before.push(without_cr(all[i as int])));
        assert(all.take(i + 1).map_values(|p: Seq<char>| without_cr(p)) =~= all.take(i as int).map_values(
            |p: Seq<char>| without_cr(p),
        ).push(without_cr(all[i as int])));
        i = i + 1;
    }
    assert(all.take(i as int) =~= all.drop_last());
    if pieces[n - 1].as_str().unicode_len() > 0 {
        let ghost before = views_of(lines@);
        lines.push(pieces[n - 1].clone());
        assert(views_of(lines@) =~= before.push(all.last()));
    }
    lines
}

/// Splitting always yields at least one piece.
proof fn lemma_split_text_nonempty(s: Seq<char>, sep: char)
    ensures
        split_text(s, sep).len() >= 1,
    decreases s.len(),
{
    if s.len() > 0 {
        lemma_split_text_nonempty(s.drop_last(), sep);
    }
}

/// `s` with the `\r` of a `\r\n` line ending taken off.
fn strip_cr(s: &str) -> (r: String)
    ensures
        r@ == without_cr(s@),
{
    let cs = chars_of(s);
    let keep: usize = if cs.len() > 0 && cs[cs.len() - 1] == '\r' { cs.len() - 1 } else { cs.len() };
    let mut r = String::new();
    let mut i: usize = 0;
    while i < keep
        invariant
            keep <= cs@.len(),
            i <= keep,
            r@ == cs@.take(i as int),
        decreases keep - i,
    {
        r.push(cs[i]);
        assert(r@ =~= cs@.take(i + 1));
        i = i + 1;
    }
    assert(cs@.take(keep as int) =~= without_cr(s@));
    r
}

/// The number of bytes that `c` takes in UTF-8.
fn char_utf8_len(c: char) -> (n: u64)
    ensures
        n == utf8_len(c),
{
    let code: u32 = c as u32;
    if code < 0x80 {
        1
    } else if code < 0x800 {
        2
    } else if code < 0x10000 {
        3
    } else {
        4
    }
}

/// The characters that make up the first `n` bytes of `s`, which must end
/// between two characters.
pub fn byte_prefix(s: &str, n: u64) -> (p: String)
    requires
        has_byte_prefix(s@, n as nat),
    ensures
        p@ == s@.take(p@.len() as int),
        p@.len() <= s@.len(),
        bytes_len(p@) == n,
{
    let cs = chars_of(s);
    let ghost k = choose|k: int| 0 <= k <= s@.len() && #[trigger] bytes_len(s@.take(k)) == n;
    let mut p = String::new();
    let mut total: u64 = 0;
    let mut i: usize = 0;
    while total < n
        invariant
            cs@ == s@,
            0 <= k <= cs@.len(),
            bytes_len(cs@.take(k)) == n,
            i <= cs@.len(),
            total == bytes_len(cs@.take(i as int)),
            total <= n,
            p@ == cs@.take(i as int),
            i <= k,
        decreases n - total,
    {
        assert((i as int) < k);
        assert(cs@.take(i + 1).drop_last() =~= cs@.take(i as int));
        let c = cs[i];
        proof {
            assert(cs@.take(i + 1).last() == c);
            assert(bytes_len(cs@.take(i + 1)) == total + utf8_len(c));
            if i + 1 < k {
                lemma_bytes_len_grows(cs@, i + 1, k);
            }
        }
        total = total + char_utf8_len(c);
        p.push(c);
        assert(p@ =~= cs@.take(i + 1));
        assert(i < cs.len());
        i = i + 1;
        proof {
            if i < k {
                lemma_bytes_len_grows(cs@, i as int, k);
            } else if (i as int) > k {
                lemma_bytes_len_grows(cs@, k, i as int);
            }
        }
    }
    proof {
        if (i as int) < k {
            lemma_bytes_len_grows(cs@, i as int, k);
        }
    }
    p
}

} // verus!
