//! Helpers on byte strings, each stated over `Seq<u8>`.

use vstd::prelude::*;
use vstd::slice::slice_to_vec;

verus! {

/// The bytes of an optional byte string.
pub open spec fn spec_bytes(value: Option<Vec<u8>>) -> Option<Seq<u8>> {
    match value {
        Some(bytes) => Some(bytes@),
        None => None,
    }
}

/// The bytes of an optional pair of byte strings.
pub open spec fn spec_bytes_pair(value: Option<(Vec<u8>, Vec<u8>)>) -> Option<(Seq<u8>, Seq<u8>)> {
    match value {
        Some((first, second)) => Some((first@, second@)),
        None => None,
    }
}

/// Appends `src` to `dst`.
pub fn extend_bytes(dst: &mut Vec<u8>, src: &[u8])
    ensures
        final(dst)@ == old(dst)@ + src@,
{
    let n: usize = src.len();
    let mut i: usize = 0;
    while i < n
        invariant
            n == src@.len(),
            i <= n,
            dst@ == old(dst)@ + src@.subrange(0, i as int),
        decreases n - i,
    {
        dst.push(src[i]);
        i = i + 1;
    }
}

/// The two byte strings, one after the other.
pub fn concat_bytes(a: &[u8], b: &[u8]) -> (r: Vec<u8>)
    ensures
        r@ == a@ + b@,
{
    let mut out: Vec<u8> = slice_to_vec(a);
    extend_bytes(&mut out, b);
    out
}

/// Whether the two byte strings hold the same bytes.
pub fn bytes_equal(a: &[u8], b: &[u8]) -> (r: bool)
    ensures
        r == (a@ == b@),
{
    if a.len() != b.len() {
        return false;
    }
    let n: usize = a.len();
    let mut i: usize = 0;
    while i < n
        invariant
            n == a@.len(),
            n == b@.len(),
            i <= n,
            a@.subrange(0, i as int) == b@.subrange(0, i as int),
        decreases n - i,
    {
        if a[i] != b[i] {
            return false;
        }
        i = i + 1;
    }
    assert(a@.subrange(0, n as int) == a@);
    assert(b@.subrange(0, n as int) == b@);
    true
}

/// The bytes of `src` from `from` up to, not including, `to`.
pub fn sub_bytes(src: &[u8], from: usize, to: usize) -> (r: Vec<u8>)
    requires
        from <= to <= src@.len(),
    ensures
        r@ == src@.subrange(from as int, to as int),
{
    let mut out: Vec<u8> = Vec::new();
    let mut i: usize = from;
    while i < to
        invariant
            from <= i <= to,
            to <= src@.len(),
            out@ == src@.subrange(from as int, i as int),
        decreases to - i,
    {
        out.push(src[i]);
        i = i + 1;
    }
    out
}

/// Overwrites `dst` with the bytes of `src`.
pub fn copy_into(dst: &mut [u8], src: &[u8])
    requires
        old(dst)@.len() == src@.len(),
    ensures
        final(dst)@ == src@,
{
    let n: usize = src.len();
    let mut i: usize = 0;
    while i < n
        invariant
            n == src@.len(),
            dst@.len() == n,
            i <= n,
            dst@.subrange(0, i as int) == src@.subrange(0, i as int),
        decreases n - i,
    {
        dst[i] = src[i];
        i = i + 1;
    }
    assert(src@.subrange(0, n as int) == src@);
}

/// Concatenating at a known split point is one to one: two pairs whose first
/// parts are equally long give the same string only if they are the same pair.
pub proof fn lemma_concat_injective(a: Seq<u8>, b: Seq<u8>, c: Seq<u8>, d: Seq<u8>)
    requires
        a.len() == c.len(),
        a + b == c + d,
    ensures
        a == c,
        b == d,
{
    let r = c + d;
    assert(c.len() + d.len() == r.len());
    assert forall|i: int| 0 <= i < a.len() implies a[i] == c[i] by {
        assert(r[i] == c[i]);
    }
    assert forall|i: int| 0 <= i < b.len() implies b[i] == d[i] by {
        assert(r[c.len() + i] == d[i]);
    }
}

} // verus!
