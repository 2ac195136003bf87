//! Small helpers on byte strings.

use vstd::prelude::*;

verus! {

/// A fresh vector with the same bytes as `source`.
pub fn copy_bytes(source: &Vec<u8>) -> (copy: Vec<u8>)
    ensures
        copy@ == source@,
{
    let mut copy: Vec<u8> = Vec::new();
    let mut i: usize = 0;
    while i < source.len()
        invariant
            i <= source.len(),
            copy@ == source@.subrange(0, i as int),
        decreases source.len() - i,
    {
        copy.push(source[i]);
        i += 1;
        assert(copy@ =~= source@.subrange(0, i as int));
    }
    assert(source@.subrange(0, source.len() as int) =~= source@);
    copy
}

/// Appends the bytes of `part` to `buffer`.
pub fn append_bytes(buffer: &mut Vec<u8>, part: &Vec<u8>)
    ensures
        final(buffer)@ == old(buffer)@ + part@,
{
    let ghost before = buffer@;
    let mut i: usize = 0;
    while i < part.len()
        invariant
            i <= part.len(),
            buffer@ == before + part@.subrange(0, i as int),
        decreases part.len() - i,
    {
        buffer.push(part[i]);
        i += 1;
        assert(buffer@ =~= before + part@.subrange(0, i as int));
    }
    assert(part@.subrange(0, part.len() as int) =~= part@);
}

/// Whether two byte strings hold the same bytes.
pub fn same_bytes(left: &Vec<u8>, right: &Vec<u8>) -> (same: bool)
    ensures
        same == (left@ == right@),
{
    if left.len() != right.len() {
        return false;
    }
    let mut i: usize = 0;
    while i < left.len()
        invariant
            i <= left.len(),
            left.len() == right.len(),
            left@.subrange(0, i as int) == right@.subrange(0, i as int),
        decreases left.len() - i,
    {
        if left[i] != right[i] {
            return false;
        }
        i += 1;
        assert(left@.subrange(0, i as int) =~= left@.subrange(0, i - 1).push(left@[i - 1]));
        assert(right@.subrange(0, i as int) =~= right@.subrange(0, i - 1).push(right@[i - 1]));
    }
    assert(left@.subrange(0, left.len() as int) =~= left@);
    assert(right@.subrange(0, right.len() as int) =~= right@);
    true
}

} // verus!
