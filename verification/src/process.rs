//! Process and thread selection.
//!
//! The controller finds the target among the running processes by executable
//! name, compared case-insensitively after stripping the trailing padding of
//! the snapshot entry, and finds the target's main thread as the one with the
//! earliest creation timestamp. Enumerating processes and threads is platform
//! work outside the library; the matching and the selection are decided here.

use vstd::prelude::*;

verus! {

/// ASCII lower-casing of one byte.
pub open spec fn ascii_lower(c: u8) -> u8 {
    if 65 <= c <= 90 {
        (c + 32) as u8
    } else {
        c
    }
}

/// ASCII lower-casing of a byte sequence.
pub open spec fn lower_seq(s: Seq<u8>) -> Seq<u8> {
    s.map_values(|c: u8| ascii_lower(c))
}

/// The sequence with its trailing zero padding removed.
pub open spec fn trim_trailing_nul(s: Seq<u8>) -> Seq<u8>
    decreases s.len(),
{
    if s.len() > 0 && s.last() == 0 {
        trim_trailing_nul(s.drop_last())
    } else {
        s
    }
}

proof fn lemma_trim_trailing_nul_is_prefix(s: Seq<u8>, e: int)
    requires
        0 <= e <= s.len(),
        forall|j: int| e <= j < s.len() ==> s[j] == 0,
        e == 0 || s[e - 1] != 0,
    ensures
        trim_trailing_nul(s) == s.subrange(0, e),
    decreases s.len(),
{
    if e == s.len() {
        if s.len() > 0 && s.last() == 0 {
            assert(false);
        }
        assert(s.subrange(0, e) =~= s);
    } else {
        let t = s.drop_last();
        assert(forall|j: int| e <= j < t.len() ==> t[j] == 0);
        lemma_trim_trailing_nul_is_prefix(t, e);
        assert(t.subrange(0, e) =~= s.subrange(0, e));
    }
}

fn to_ascii_lower(c: u8) -> (r: u8)
    ensures
        r == ascii_lower(c),
{
    if 65 <= c && c <= 90 {
        c + 32
    } else {
        c
    }
}

/// Whether a snapshot entry's executable name names the target: equal byte
/// for byte, ignoring ASCII case, after stripping the entry's trailing zero
/// padding.
pub fn process_name_matches(candidate: &[u8], target: &[u8]) -> (r: bool)
    ensures
        r == (lower_seq(trim_trailing_nul(candidate@)) == lower_seq(target@)),
{
    let mut e: usize = candidate.len();
    while e > 0 && candidate[e - 1] == 0
        invariant
            e <= candidate@.len(),
            forall|j: int| e <= j < candidate@.len() ==> candidate@[j] == 0,
        decreases e,
    {
        e = e - 1;
    }
    proof {
        lemma_trim_trailing_nul_is_prefix(candidate@, e as int);
    }
    let ghost trimmed = candidate@.subrange(0, e as int);
    if e != target.len() {
        proof {
            assert(lower_seq(trimmed).len() != lower_seq(target@).len());
        }
        return false;
    }
    let mut i: usize = 0;
    while i < e
        invariant
            i <= e <= candidate@.len(),
            e == target@.len(),
            trimmed == candidate@.subrange(0, e as int),
            trimmed == trim_trailing_nul(candidate@),
            forall|j: int|
                0 <= j < i ==> ascii_lower(trimmed[j]) == ascii_lower(target@[j]),
        decreases e - i,
    {
        if to_ascii_lower(candidate[i]) != to_ascii_lower(target[i]) {
            proof {
                assert(lower_seq(trimmed)[i as int] != lower_seq(target@)[i as int]);
            }
            return false;
        }
        i = i + 1;
    }
    proof {
        assert(lower_seq(trimmed) =~= lower_seq(target@));
    }
    true
}

/// One thread of the target process, as the snapshot reports it.
#[derive(Clone, Copy, Debug, PartialEq, Eq, Structural)]
pub struct ThreadSample {
    pub thread_id: u32,
    /// Creation timestamp in platform file-time units.
    pub creation_time: u64,
}

/// The running selection over the samples in order: the identifier and
/// creation time of the first thread with the strictly earliest timestamp,
/// starting from no thread and the largest possible time.
pub open spec fn scan_threads(s: Seq<ThreadSample>) -> (u32, u64)
    decreases s.len(),
{
    if s.len() == 0 {
        (0u32, u64::MAX as u64)
    } else {
        let prev = scan_threads(s.drop_last());
        if s.last().creation_time < prev.1 {
            (s.last().thread_id, s.last().creation_time)
        } else {
            prev
        }
    }
}

/// The target's main thread: the sample with the earliest creation
/// timestamp, ties going to the earlier sample. Zero when no sample carries
/// a timestamp below the largest possible one.
pub fn main_thread_candidate(threads: &Vec<ThreadSample>) -> (tid: u32)
    ensures
        tid == scan_threads(threads@).0,
{
    let mut best_tid: u32 = 0;
    let mut best_time: u64 = u64::MAX;
    let mut i: usize = 0;
    proof {
        assert(threads@.subrange(0, 0) =~= Seq::<ThreadSample>::empty());
    }
    while i < threads.len()
        invariant
            i <= threads@.len(),
            (best_tid, best_time) == scan_threads(threads@.subrange(0, i as int)),
        decreases threads@.len() - i,
    {
        proof {
            assert(threads@.subrange(0, i as int + 1).drop_last() =~= threads@.subrange(
                0,
                i as int,
            ));
            assert(threads@.subrange(0, i as int + 1).last() == threads@[i as int]);
        }
        if threads[i].creation_time < best_time {
            best_tid = threads[i].thread_id;
            best_time = threads[i].creation_time;
        }
        i = i + 1;
    }
    proof {
        assert(threads@.subrange(0, threads@.len() as int) =~= threads@);
    }
    best_tid
}

/// A platform file time assembled from its two halves.
pub fn filetime_to_u64(low: u32, high: u32) -> (r: u64)
    ensures
        r == (high as u64) * 0x1_0000_0000 + low as u64,
{
    let r = ((high as u64) << 32) | (low as u64);
    proof {
        let h = high as u64;
        let l = low as u64;
        assert((h << 32) | l == h * 0x1_0000_0000 + l) by (bit_vector)
            requires
                h < 0x1_0000_0000,
                l < 0x1_0000_0000,
        ;
    }
    r
}

} // verus!
