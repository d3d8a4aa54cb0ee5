//! Duplicate suppression for overlapping transcription passes.
//!
//! Consecutive windows overlap in audio and therefore in text. A pass whose
//! text repeats what was emitted before is a duplicate. Texts are compared
//! as the bytes of their UTF-8 encoding, and lengths are lengths in bytes.

use vstd::prelude::*;
use vstd::string::StringSliceAdditionalSpecFns;
use crate::text::ranges_equal;

verus! {

/// Whether `needle` stands in `hay` from place `start` on.
pub open spec fn occurs_at(hay: Seq<u8>, needle: Seq<u8>, start: int) -> bool {
    &&& 0 <= start
    &&& start + needle.len() <= hay.len()
    &&& hay.subrange(start, start + needle.len()) == needle
}

/// Whether `needle` is a contiguous part of `hay`.
pub open spec fn contains(hay: Seq<u8>, needle: Seq<u8>) -> bool {
    exists|start: int| occurs_at(hay, needle, start)
}

/// The least number of bytes that is `percent` hundredths of `len` or more.
pub open spec fn min_overlap(len: nat, percent: nat) -> nat {
    (len * percent + 99) / 100
}

/// The shorter of two lengths.
pub open spec fn shorter(a: nat, b: nat) -> nat {
    if a <= b {
        a
    } else {
        b
    }
}

/// Whether the end of `prev` and the start of `curr` agree over the length
/// of the shorter of the two.
pub open spec fn overlaps(prev: Seq<u8>, curr: Seq<u8>) -> bool {
    let overlap = shorter(prev.len(), curr.len());
    prev.subrange(prev.len() - overlap, prev.len() as int) == curr.subrange(0, overlap as int)
}

/// Whether `curr` repeats `prev`.
///
/// A text is no duplicate where either text is empty. It is one where it is
/// shorter than `prev` and a contiguous part of it. Otherwise it is one
/// where the shorter of the two lengths is at least `percent` hundredths of
/// the length of `prev` and the two texts overlap over that length.
pub open spec fn duplicates(prev: Seq<u8>, curr: Seq<u8>, percent: nat) -> bool {
    if prev.len() == 0 || curr.len() == 0 {
        false
    } else if curr.len() < prev.len() && contains(prev, curr) {
        true
    } else {
        shorter(prev.len(), curr.len()) >= min_overlap(prev.len(), percent) && overlaps(
            prev,
            curr,
        )
    }
}

/// Whether `needle` is a contiguous part of `hay`.
fn occurs_in(hay: &[u8], needle: &[u8]) -> (r: bool)
    ensures
        r == contains(hay@, needle@),
{
    if needle.len() > hay.len() {
        return false;
    }
    let last = hay.len() - needle.len();
    let mut start: usize = 0;
    proof {
        assert(needle@.subrange(0, needle@.len() as int) =~= needle@);
    }
    loop
        invariant
            start <= last,
            last == hay.len() - needle.len(),
            needle@.subrange(0, needle@.len() as int) == needle@,
            forall|k: int| 0 <= k < start ==> !occurs_at(hay@, needle@, k),
        decreases last - start,
    {
        if ranges_equal(hay, start, needle, 0, needle.len()) {
            assert(occurs_at(hay@, needle@, start as int));
            return true;
        }
        if start == last {
            return false;
        }
        start = start + 1;
    }
}

/// Computes `min_overlap`.
fn min_overlap_of(len: usize, percent: u32) -> (r: u128)
    ensures
        r as nat == min_overlap(len as nat, percent as nat),
{
    assert((len as nat) * (percent as nat) <= (usize::MAX as nat) * (u32::MAX as nat))
        by (nonlinear_arith)
        requires
            len <= usize::MAX,
            percent <= u32::MAX,
    ;
    ((len as u128) * (percent as u128) + 99) / 100
}

/// Whether the text `curr` repeats the text `prev` that was emitted before
/// it, `threshold_percent` being the share of `prev`, in hundredths, that an
/// overlap of the two must reach.
pub fn is_duplicate(prev: &str, curr: &str, threshold_percent: u32) -> (r: bool)
    ensures
        r == duplicates(prev.spec_bytes(), curr.spec_bytes(), threshold_percent as nat),
{
    let prev_bytes = prev.as_bytes();
    let curr_bytes = curr.as_bytes();
    if prev_bytes.len() == 0 || curr_bytes.len() == 0 {
        return false;
    }
    if curr_bytes.len() < prev_bytes.len() && occurs_in(prev_bytes, curr_bytes) {
        return true;
    }
    let overlap_len = if prev_bytes.len() <= curr_bytes.len() {
        prev_bytes.len()
    } else {
        curr_bytes.len()
    };
    let needed = min_overlap_of(prev_bytes.len(), threshold_percent);
    if overlap_len as u128 >= needed {
        ranges_equal(prev_bytes, prev_bytes.len() - overlap_len, curr_bytes, 0, overlap_len)
    } else {
        false
    }
}

} // verus!
