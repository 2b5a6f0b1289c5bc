//! Small verified byte-vector helpers shared by the codec and the
//! encryption layer.

use vstd::prelude::*;

verus! {

/// Copy a range of a byte slice into a fresh vector.
pub fn subvec(v: &[u8], start: usize, end: usize) -> (r: Vec<u8>)
    requires
        start <= end <= v@.len(),
    ensures
        r@ == v@.subrange(start as int, end as int),
{
    let mut r: Vec<u8> = Vec::new();
    let mut i: usize = start;
    while i < end
        invariant
            start <= i <= end <= v@.len(),
            r@ == v@.subrange(start as int, i as int),
        decreases end - i,
    {
        r.push(v[i]);
        proof {
            assert(v@.subrange(start as int, i + 1 as int) =~= v@.subrange(
                start as int,
                i as int,
            ).push(v@[i as int]));
        }
        i = i + 1;
    }
    r
}

/// Whether a byte string occurs in a list.
pub open spec fn contains_bytes(list: Seq<Seq<u8>>, x: Seq<u8>) -> bool {
    exists|i: int| 0 <= i < list.len() && list[i] == x
}

/// Look a byte string up in a list.
pub fn contains_vec(list: &Vec<Vec<u8>>, x: &[u8]) -> (r: bool)
    ensures
        r == contains_bytes(list.deep_view(), x@),
{
    let ghost dv = list.deep_view();
    let mut i: usize = 0;
    while i < list.len()
        invariant
            0 <= i <= dv.len(),
            dv == list.deep_view(),
            dv.len() == list@.len(),
            forall|j: int| 0 <= j < i ==> dv[j] != x@,
        decreases dv.len() - i,
    {
        proof {
            assert(list@[i as int]@ =~= dv[i as int]);
        }
        if bytes_eq(list[i].as_slice(), x) {
            return true;
        }
        i = i + 1;
    }
    false
}

/// Compare two byte strings.
pub fn bytes_eq(a: &[u8], b: &[u8]) -> (r: bool)
    ensures
        r == (a@ == b@),
{
    if a.len() != b.len() {
        return false;
    }
    let mut i: usize = 0;
    while i < a.len()
        invariant
            0 <= i <= a@.len(),
            a@.len() == b@.len(),
            forall|j: int| 0 <= j < i ==> a@[j] == b@[j],
        decreases a@.len() - i,
    {
        if a[i] != b[i] {
            return false;
        }
        i = i + 1;
    }
    proof {
        assert(a@ =~= b@);
    }
    true
}

/// Append the bytes of `tail` to `out`.
pub fn extend_bytes(out: &mut Vec<u8>, tail: &[u8])
    ensures
        final(out)@ == old(out)@ + tail@,
{
    let mut i: usize = 0;
    while i < tail.len()
        invariant
            0 <= i <= tail@.len(),
            out@ == old(out)@ + tail@.subrange(0, i as int),
        decreases tail@.len() - i,
    {
        out.push(tail[i]);
        proof {
            assert(old(out)@ + tail@.subrange(0, i + 1 as int) =~= (old(out)@ + tail@.subrange(
                0,
                i as int,
            )).push(tail@[i as int]));
        }
        i = i + 1;
    }
    proof {
        assert(old(out)@ + tail@.subrange(0, tail@.len() as int) =~= old(out)@ + tail@);
    }
}

} // verus!
