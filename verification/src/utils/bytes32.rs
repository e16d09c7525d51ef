//! Helpers for the 32-byte digests and addresses the core works with.

use vstd::prelude::*;

verus! {

/// Compare two 32-byte values for equality.
pub fn bytes32_eq(a: &[u8; 32], b: &[u8; 32]) -> (r: bool)
    ensures
        r <==> a@ == b@,
{
    let mut i: usize = 0;
    while i < 32
        invariant
            i <= 32,
            forall|k: int| 0 <= k < i ==> a@[k] == b@[k],
        decreases 32 - i,
    {
        if a[i] != b[i] {
            assert(a@[i as int] != b@[i as int]);
            return false;
        }
        i = i + 1;
    }
    proof {
        assert(a@ =~= b@);
    }
    true
}

/// Read 32 bytes out of `data` starting at `offset`.
pub fn read_bytes32(data: &[u8], offset: usize) -> (arr: [u8; 32])
    requires
        offset + 32 <= data@.len(),
    ensures
        arr@ == data@.subrange(offset as int, offset as int + 32),
{
    let len = data.len();
    let mut arr: [u8; 32] = [0u8; 32];
    let mut i: usize = 0;
    while i < 32
        invariant
            i <= 32,
            len == data@.len(),
            offset + 32 <= len,
            forall|k: int| 0 <= k < i ==> arr@[k] == data@[offset + k],
        decreases 32 - i,
    {
        arr[i] = data[offset + i];
        i = i + 1;
    }
    proof {
        assert(arr@ =~= data@.subrange(offset as int, offset as int + 32));
    }
    arr
}

/// Append all 32 bytes of `b` to `data`.
pub fn push_bytes32(data: &mut Vec<u8>, b: &[u8; 32])
    ensures
        final(data)@ == old(data)@ + b@,
{
    let mut i: usize = 0;
    while i < 32
        invariant
            i <= 32,
            data@ == old(data)@ + b@.subrange(0, i as int),
        decreases 32 - i,
    {
        data.push(b[i]);
        proof {
            assert(data@ =~= old(data)@ + b@.subrange(0, i + 1));
        }
        i = i + 1;
    }
    proof {
        assert(b@.subrange(0, 32) =~= b@);
    }
}

} // verus!
