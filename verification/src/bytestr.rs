//! Byte-string helpers. Domain names, record values, principals and
//! attestations are carried as ASCII byte vectors throughout the crate.

use vstd::prelude::*;

verus! {

/// Equality of two byte strings.
pub fn bytes_eq(a: &Vec<u8>, b: &Vec<u8>) -> (r: bool)
    ensures
        r == (a@ == b@),
{
    if a.len() != b.len() {
        return false;
    }
    let mut i: usize = 0;
    while i < a.len()
        invariant
            i <= a@.len(),
            a@.len() == b@.len(),
            forall|j: int| 0 <= j < i ==> a@[j] == b@[j],
        decreases a@.len() - i,
    {
        if a[i] != b[i] {
            return false;
        }
        i += 1;
    }
    proof {
        assert(a@ =~= b@);
    }
    true
}

/// Appends one byte string to another.
pub fn append_bytes(dst: &mut Vec<u8>, src: &Vec<u8>)
    ensures
        final(dst)@ == old(dst)@ + src@,
{
    let mut i: usize = 0;
    while i < src.len()
        invariant
            i <= src@.len(),
            dst@ == old(dst)@ + src@.take(i as int),
        decreases src@.len() - i,
    {
        dst.push(src[i]);
        proof {
            assert(old(dst)@ + src@.take(i + 1) =~= (old(dst)@ + src@.take(i as int)).push(
                src@[i as int],
            ));
        }
        i += 1;
    }
    proof {
        assert(src@.take(src@.len() as int) =~= src@);
    }
}

/// `t` is a strict subdomain of zone `d`: it ends in `.<d>` with at least
/// one byte of label before the dot.
pub open spec fn in_zone(t: Seq<u8>, d: Seq<u8>) -> bool {
    &&& t.len() >= d.len() + 2
    &&& t.skip(t.len() - d.len()) == d
    &&& t[t.len() - d.len() - 1] == 46u8
}

/// Decides [`in_zone`]: whether `t` lies strictly below the zone `d`.
pub fn is_in_zone(t: &Vec<u8>, d: &Vec<u8>) -> (r: bool)
    ensures
        r == in_zone(t@, d@),
{
    if t.len() < d.len() || t.len() - d.len() < 2 {
        return false;
    }
    let off = t.len() - d.len();
    if t[off - 1] != 46u8 {
        return false;
    }
    let mut j: usize = off;
    while j < t.len()
        invariant
            off <= j <= t@.len(),
            t@.len() == d@.len() + off,
            off >= 2,
            forall|k: int| off <= k < j ==> t@[k] == d@[k - off],
        decreases t@.len() - j,
    {
        if t[j] != d[j - off] {
            assert(t@.skip(off as int)[j - off] != d@[j - off]);
            return false;
        }
        j += 1;
    }
    proof {
        assert(t@.skip(off as int) =~= d@);
    }
    true
}

} // verus!
