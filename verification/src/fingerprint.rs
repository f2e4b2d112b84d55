//! Content fingerprint used as the dirty-flag heuristic.
//!
//! The session compares the fingerprint of the current text against the
//! fingerprint recorded at the last successful load or save to decide whether
//! the document has unsaved changes.  The digest is a cheap, deterministic,
//! order-sensitive 64-bit FNV-1a over the text's characters.  It is a
//! heuristic, not a content-equality proof: two different texts that collide
//! report the document as clean.  That approximation is accepted by design.

use vstd::prelude::*;

verus! {

/// Offset basis of the 64-bit FNV-1a digest.
pub const FNV_OFFSET: u64 = 0xcbf29ce484222325;

/// Prime of the 64-bit FNV-1a digest.
pub const FNV_PRIME: u64 = 0x100000001b3;

/// One FNV-1a step: fold one character into the running digest.
pub open spec fn fp_step(h: u64, c: char) -> u64 {
    (h ^ (c as u64)).wrapping_mul(FNV_PRIME)
}

/// FNV-1a digest of a character sequence.
pub open spec fn fp_seq(s: Seq<char>) -> u64
    decreases s.len(),
{
    if s.len() == 0 {
        FNV_OFFSET
    } else {
        fp_step(fp_seq(s.drop_last()), s.last())
    }
}

/// Computes the FNV-1a digest of the text.
pub fn fingerprint_chars(text: &Vec<char>) -> (h: u64)
    ensures
        h == fp_seq(text@),
{
    let mut h: u64 = FNV_OFFSET;
    let n = text.len();
    proof {
        assert(text@.take(0) =~= Seq::<char>::empty());
    }
    let mut i: usize = 0;
    while i < n
        invariant
            n == text@.len(),
            i <= n,
            h == fp_seq(text@.take(i as int)),
        decreases n - i,
    {
        h = (h ^ (text[i] as u64)).wrapping_mul(FNV_PRIME);
        proof {
            assert(text@.take(i + 1).drop_last() =~= text@.take(i as int));
        }
        i = i + 1;
    }
    proof {
        assert(text@.take(n as int) =~= text@);
    }
    h
}

} // verus!
