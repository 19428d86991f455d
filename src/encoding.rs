//! Fixed-width byte fields built from text.
use vstd::prelude::*;
use vstd::string::StringSliceAdditionalSpecFns;

verus! {

/// The first `n` bytes of `b`, padded on the right with zero bytes when `b`
/// is shorter than `n`.
pub open spec fn fixed_width(b: Seq<u8>, n: nat) -> Seq<u8> {
    Seq::new(n, |i: int| if i < b.len() { b[i] } else { 0u8 })
}

/// Copies the UTF-8 bytes of `s` into an array of `N` bytes: truncated when
/// longer, zero-padded when shorter.
pub fn str_to_array<const N: usize>(s: &str) -> (r: [u8; N])
    ensures
        r@ == fixed_width(s.spec_bytes(), N as nat),
{
    let bytes = s.as_bytes();
    let mut arr = [0u8; N];
    let mut i: usize = 0;
    while i < N && i < bytes.len()
        invariant
            i <= N,
            i <= bytes@.len(),
            bytes@ == s.spec_bytes(),
            arr@.len() == N,
            forall|k: int| 0 <= k < i ==> arr@[k] == bytes@[k],
            forall|k: int| i <= k < N ==> arr@[k] == 0,
        decreases N - i,
    {
        arr.set(i, bytes[i]);
        i += 1;
    }
    assert(arr@ =~= fixed_width(s.spec_bytes(), N as nat));
    arr
}

/// Appends every byte of `src` to `dst`.
pub(crate) fn append_bytes(dst: &mut Vec<u8>, src: &[u8])
    ensures
        final(dst)@ == old(dst)@ + src@,
{
    let mut i: usize = 0;
    while i < src.len()
        invariant
            i <= src@.len(),
            dst@ == old(dst)@ + src@.subrange(0, i as int),
        decreases src@.len() - i,
    {
        dst.push(src[i]);
        i += 1;
        assert(dst@ =~= old(dst)@ + src@.subrange(0, i as int));
    }
    assert(src@.subrange(0, i as int) =~= src@);
}

} // verus!
