//! Byte-sequence model shared by the whole stack: in-place overwrite of a
//! window of a sequence, and the lemmas the device contracts need about it.

use vstd::prelude::*;

verus! {

/// The sequence `s` with the window starting at `at` overwritten by `d`.
/// Outside the window `s` is unchanged; the length never changes.
pub open spec fn overwrite(s: Seq<u8>, at: int, d: Seq<u8>) -> Seq<u8> {
    Seq::new(s.len(), |i: int| if at <= i < at + d.len() { d[i - at] } else { s[i] })
}

/// Reading back exactly the overwritten window yields the bytes written.
pub proof fn lemma_overwrite_read_back(s: Seq<u8>, at: int, d: Seq<u8>)
    requires
        0 <= at,
        at + d.len() <= s.len(),
    ensures
        overwrite(s, at, d).subrange(at, at + d.len()) == d,
{
    assert(overwrite(s, at, d).subrange(at, at + d.len()) =~= d);
}

} // verus!
