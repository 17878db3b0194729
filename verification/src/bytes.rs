//! Small helpers on byte strings.

use vstd::prelude::*;

verus! {

/// The byte strings that a list of owned byte strings holds, in order.
pub open spec fn segments(list: Seq<Vec<u8>>) -> Seq<Seq<u8>> {
    Seq::new(list.len(), |i: int| list[i]@)
}

/// Whether two byte strings are equal, byte for byte.
pub fn bytes_equal(a: &[u8], b: &[u8]) -> (same: bool)
    ensures
        same == (a@ == b@),
{
    if a.len() != b.len() {
        return false;
    }
    let mut i: usize = 0;
    while i < a.len()
        invariant
            a.len() == b.len(),
            i <= a.len(),
            forall|j: int| 0 <= j < i ==> a@[j] == b@[j],
        decreases a.len() - i,
    {
        if a[i] != b[i] {
            return false;
        }
        i += 1;
    }
    assert(a@ =~= b@);
    true
}

/// An owned copy of a byte string.
pub fn copy_bytes(src: &[u8]) -> (copy: Vec<u8>)
    ensures
        copy@ == src@,
{
    let mut copy: Vec<u8> = Vec::new();
    let mut i: usize = 0;
    while i < src.len()
        invariant
            i <= src.len(),
            copy@ == src@.take(i as int),
        decreases src.len() - i,
    {
        copy.push(src[i]);
        i += 1;
        assert(copy@ =~= src@.take(i as int));
    }
    assert(src@.take(src.len() as int) =~= src@);
    copy
}

} // verus!
