use vstd::prelude::*;

use crate::text::str_eq;

verus! {

/// Accumulated smaps stats for all mappings.
#[derive(Clone, Copy, Debug)]
pub struct SmapsRollup {
    /// The amount of the mapping that is currently resident in RAM, in kilobytes.
    pub rss: u64,
    /// The number of clean shared pages in Rss.
    pub shared_clean: u64,
    /// The number of dirty shared pages in Rss.
    pub shared_dirty: u64,
    /// The number of clean private pages in Rss.
    pub private_clean: u64,
    /// The number of dirty private pages in Rss.
    pub private_dirty: u64,
    /// The process's proportional share of this mapping, in kilobytes.
    pub pss: u64,
    /// The portion of Pss which consists of dirty pages.
    pub pss_dirty: u64,
    /// The sum of the Pss field of anon type.
    pub pss_anon: u64,
    /// The sum of the Pss field of file type.
    pub pss_file: u64,
    /// The sum of the Pss field of shmem type.
    pub pss_shmem: u64,
}

impl Default for SmapsRollup {
    fn default() -> (r: Self)
        ensures
            r == (SmapsRollup {
                rss: 0,
                shared_clean: 0,
                shared_dirty: 0,
                private_clean: 0,
                private_dirty: 0,
                pss: 0,
                pss_dirty: 0,
                pss_anon: 0,
                pss_file: 0,
                pss_shmem: 0,
            }),
    {
        SmapsRollup {
            rss: 0,
            shared_clean: 0,
            shared_dirty: 0,
            private_clean: 0,
            private_dirty: 0,
            pss: 0,
            pss_dirty: 0,
            pss_anon: 0,
            pss_file: 0,
            pss_shmem: 0,
        }
    }
}

/// The value in kilobytes that the last entry named `key` of a mapping's
/// extension fields gives, in bytes; zero when there is none.
pub open spec fn rollup_value(entries: Seq<(String, u64)>, key: Seq<char>) -> u64
    decreases entries.len(),
{
    if entries.len() == 0 {
        0
    } else if entries.last().0@ == key {
        entries.last().1 / 1024
    } else {
        rollup_value(entries.drop_last(), key)
    }
}

/// The names of the fields of a rollup are pairwise distinct: they differ
/// in length, or in one character.
proof fn lemma_names_distinct()
    ensures
        "Rss"@.len() == 3,
        "Pss"@.len() == 3,
        "Pss_Anon"@.len() == 8,
        "Pss_File"@.len() == 8,
        "Pss_Dirty"@.len() == 9,
        "Pss_Shmem"@.len() == 9,
        "Shared_Dirty"@.len() == 12,
        "Shared_Clean"@.len() == 12,
        "Private_Dirty"@.len() == 13,
        "Private_Clean"@.len() == 13,
        "Rss"@[0] != "Pss"@[0],
        "Shared_Dirty"@[7] != "Shared_Clean"@[7],
        "Private_Dirty"@[8] != "Private_Clean"@[8],
        "Pss_Dirty"@[4] != "Pss_Shmem"@[4],
        "Pss_Anon"@[4] != "Pss_File"@[4],
{
    reveal_strlit("Rss");
    reveal_strlit("Shared_Dirty");
    reveal_strlit("Shared_Clean");
    reveal_strlit("Private_Dirty");
    reveal_strlit("Private_Clean");
    reveal_strlit("Pss");
    reveal_strlit("Pss_Dirty");
    reveal_strlit("Pss_Anon");
    reveal_strlit("Pss_File");
    reveal_strlit("Pss_Shmem");
}

/// One more entry changes only the value of its own name.
proof fn lemma_rollup_step(s: Seq<(String, u64)>, i: int, key: Seq<char>)
    requires
        0 <= i < s.len(),
    ensures
        rollup_value(s.take(i + 1), key) == (if s[i].0@ == key {
            s[i].1 / 1024
        } else {
            rollup_value(s.take(i), key)
        }),
{
    assert(s.take(i + 1).drop_last() =~= s.take(i));
    assert(s.take(i + 1).last() == s[i]);
}

/// Whether `r` holds what the extension fields `entries` give.
pub open spec fn rollup_of(r: SmapsRollup, entries: Seq<(String, u64)>) -> bool {
    &&& r.rss == rollup_value(entries, "Rss"@)
    &&& r.shared_dirty == rollup_value(entries, "Shared_Dirty"@)
    &&& r.shared_clean == rollup_value(entries, "Shared_Clean"@)
    &&& r.private_dirty == rollup_value(entries, "Private_Dirty"@)
    &&& r.private_clean == rollup_value(entries, "Private_Clean"@)
    &&& r.pss == rollup_value(entries, "Pss"@)
    &&& r.pss_dirty == rollup_value(entries, "Pss_Dirty"@)
    &&& r.pss_anon == rollup_value(entries, "Pss_Anon"@)
    &&& r.pss_file == rollup_value(entries, "Pss_File"@)
    &&& r.pss_shmem == rollup_value(entries, "Pss_Shmem"@)
}

impl SmapsRollup {
    /// The rollup of the memory maps of `/proc/[pid]/smaps_rollup`, each
    /// given by its extension fields (name and size in bytes): none when
    /// there is no map, else what the first map's fields give in
    /// kilobytes, with zero for a field that is missing.
    pub fn from_memory_maps(maps: &Vec<Vec<(String, u64)>>) -> (r: Option<Self>)
        ensures
            maps@.len() == 0 ==> r is None,
            maps@.len() > 0 ==> (r matches Some(s) && rollup_of(s, maps@[0]@)),
    {
        if maps.len() == 0 {
            return None;
        }
        let entries = &maps[0];
        let mut r = Self::default();
        let mut i: usize = 0;
        while i < entries.len()
            invariant
                i <= entries@.len(),
                rollup_of(r, entries@.take(i as int)),
            decreases entries.len() - i,
        {
            proof {
                lemma_names_distinct();
            }
            let (k, v) = &entries[i];
            let v: u64 = *v / 1024;
            let k = k.as_str();
            if str_eq(k, "Rss") {
                r.rss = v;
            } else if str_eq(k, "Shared_Dirty") {
                r.shared_dirty = v;
            } else if str_eq(k, "Shared_Clean") {
                r.shared_clean = v;
            } else if str_eq(k, "Private_Dirty") {
                r.private_dirty = v;
            } else if str_eq(k, "Private_Clean") {
                r.private_clean = v;
            } else if str_eq(k, "Pss") {
                r.pss = v;
            } else if str_eq(k, "Pss_Dirty") {
                r.pss_dirty = v;
            } else if str_eq(k, "Pss_Anon") {
                r.pss_anon = v;
            } else if str_eq(k, "Pss_File") {
                r.pss_file = v;
            } else if str_eq(k, "Pss_Shmem") {
                r.pss_shmem = v;
            }
            proof {
                let e = entries@;
                let n = i as int;
                lemma_rollup_step(e, n, "Rss"@);
                lemma_rollup_step(e, n, "Shared_Dirty"@);
                lemma_rollup_step(e, n, "Shared_Clean"@);
                lemma_rollup_step(e, n, "Private_Dirty"@);
                lemma_rollup_step(e, n, "Private_Clean"@);
                lemma_rollup_step(e, n, "Pss"@);
                lemma_rollup_step(e, n, "Pss_Dirty"@);
                lemma_rollup_step(e, n, "Pss_Anon"@);
                lemma_rollup_step(e, n, "Pss_File"@);
                lemma_rollup_step(e, n, "Pss_Shmem"@);
            }
            i = i + 1;
        }
        assert(entries@.take(entries@.len() as int) =~= entries@);
        Some(r)
    }
}

} // verus!
