//! Small verified helpers on byte vectors. Paths, identifiers and payloads
//! all travel as UTF-8 bytes, so the rest of the crate leans on these.
use vstd::prelude::*;

verus! {

/// True exactly when the two byte vectors hold the same bytes.
pub fn bytes_eq(a: &Vec<u8>, b: &Vec<u8>) -> (r: bool)
    ensures
        r == (a@ == b@),
{
    if a.len() != b.len() {
        return false;
    }
    let mut i: usize = 0;
    while i < a.len()
        invariant
            a@.len() == b@.len(),
            i <= a@.len(),
            forall|j: int| 0 <= j < i ==> a@[j] == b@[j],
        decreases a@.len() - i,
    {
        if a[i] != b[i] {
            return false;
        }
        i = i + 1;
    }
    proof {
        assert(a@ =~= b@);
    }
    true
}

/// A copy of `v`: bytes are plain values, so the copy holds equal bytes.
pub fn clone_bytes(v: &Vec<u8>) -> (r: Vec<u8>)
    ensures
        r@ == v@,
{
    let r = v.clone();
    proof {
        assert(r@ =~= v@);
    }
    r
}

/// Appends every byte of `src` to `dst`.
pub fn append_bytes(dst: &mut Vec<u8>, src: &Vec<u8>)
    ensures
        final(dst)@ == old(dst)@ + src@,
{
    let mut i: usize = 0;
    while i < src.len()
        invariant
            i <= src@.len(),
            dst@ == old(dst)@ + src@.subrange(0, i as int),
        decreases src@.len() - i,
    {
        dst.push(src[i]);
        i = i + 1;
        proof {
            assert(dst@ =~= old(dst)@ + src@.subrange(0, i as int));
        }
    }
    proof {
        assert(dst@ =~= old(dst)@ + src@);
    }
}

/// The suffix of `v` that starts at `start`.
pub fn suffix_bytes(v: &Vec<u8>, start: usize) -> (r: Vec<u8>)
    requires
        start <= v@.len(),
    ensures
        r@ == v@.skip(start as int),
{
    let mut r: Vec<u8> = Vec::new();
    let mut i: usize = 0;
    while i < v.len() - start
        invariant
            start + i <= v@.len(),
            r@ == v@.subrange(start as int, start as int + i as int),
        decreases v@.len() - start - i,
    {
        r.push(v[start + i]);
        i = i + 1;
        proof {
            assert(r@ =~= v@.subrange(start as int, start as int + i as int));
        }
    }
    proof {
        assert(r@ =~= v@.skip(start as int));
    }
    r
}

/// True exactly when `prefix` is a prefix of `p`.
pub fn starts_with_bytes(p: &Vec<u8>, prefix: &Vec<u8>) -> (r: bool)
    ensures
        r == (p@.len() >= prefix@.len() && p@.subrange(0, prefix@.len() as int) == prefix@),
{
    if p.len() < prefix.len() {
        return false;
    }
    let mut i: usize = 0;
    while i < prefix.len()
        invariant
            prefix@.len() <= p@.len(),
            i <= prefix@.len(),
            forall|j: int| 0 <= j < i ==> p@[j] == prefix@[j],
        decreases prefix@.len() - i,
    {
        if p[i] != prefix[i] {
            proof {
                assert(p@.subrange(0, prefix@.len() as int)[i as int] == p@[i as int]);
            }
            return false;
        }
        i = i + 1;
    }
    proof {
        assert(p@.subrange(0, prefix@.len() as int) =~= prefix@);
    }
    true
}

} // verus!
