//! Comparing and joining byte sequences.

use vstd::prelude::*;

verus! {

/// Whether two byte strings are the same.
pub fn equal(left: &[u8], right: &[u8]) -> (same: bool)
    ensures
        same == (left@ == right@),
{
    if left.len() != right.len() {
        return false;
    }
    let mut at: usize = 0;
    while at < left.len()
        invariant
            at <= left@.len(),
            left@.len() == right@.len(),
            forall|i: int| 0 <= i < at ==> left@[i] == right@[i],
        decreases left@.len() - at,
    {
        if left[at] != right[at] {
            return false;
        }
        at = at + 1;
    }
    proof {
        assert(left@ =~= right@);
    }
    true
}

/// Appends `tail` to `bytes`.
pub fn append(bytes: &mut Vec<u8>, tail: &[u8])
    ensures
        final(bytes)@ == old(bytes)@ + tail@,
{
    let ghost start = bytes@;
    let mut at: usize = 0;
    while at < tail.len()
        invariant
            at <= tail@.len(),
            bytes@ == start + tail@.take(at as int),
        decreases tail@.len() - at,
    {
        bytes.push(tail[at]);
        proof {
            assert(bytes@ =~= start + tail@.take(at + 1));
        }
        at = at + 1;
    }
    proof {
        assert(tail@.take(tail@.len() as int) =~= tail@);
    }
}

} // verus!
