//! Small verified helpers on byte sequences.
use vstd::prelude::*;

verus! {

/// Length of a single-key (ed25519) public key, and of an address.
pub const KEY_LEN: usize = 32;

/// Length of a compressed BLS public key or public key share.
pub const BLS_KEY_LEN: usize = 48;

/// Appends the bytes of `src` to `dst`.
pub fn append_bytes(dst: &mut Vec<u8>, src: &[u8])
    ensures
        final(dst)@ == old(dst)@ + src@,
{
    let mut i: usize = 0;
    while i < src.len()
        invariant
            i <= src@.len(),
            dst@ == old(dst)@ + src@.subrange(0, i as int),
        decreases src@.len() - i,
    {
        dst.push(src[i]);
        i = i + 1;
        assert(dst@ =~= old(dst)@ + src@.subrange(0, i as int));
    }
    assert(src@.subrange(0, src@.len() as int) =~= src@);
}

/// The `N` bytes of `v` that start at `start`, as an array.
pub fn take_array<const N: usize>(v: &[u8], start: usize) -> (r: [u8; N])
    requires
        start + N <= v@.len(),
    ensures
        r@ == v@.subrange(start as int, start + N),
{
    let mut r: [u8; N] = [0u8; N];
    let n: usize = v.len();
    let mut i: usize = 0;
    while i < N
        invariant
            i <= N,
            n == v@.len(),
            start + N <= v@.len(),
            r@.len() == N,
            forall|j: int| 0 <= j < i ==> r@[j] == v@[start + j],
        decreases N - i,
    {
        r[i] = v[start + i];
        i = i + 1;
    }
    assert(r@ =~= v@.subrange(start as int, start + N));
    r
}

} // verus!
