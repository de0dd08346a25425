//! Text framed for C: the bytes of the text followed by one zero byte, or the
//! null sentinel where the text is empty.

use vstd::prelude::*;
use vstd::utf8::encode_utf8;

verus! {

/// Whether some byte of `bytes` is zero.
pub open spec fn has_nul(bytes: Seq<u8>) -> bool {
    exists|i: int| 0 <= i < bytes.len() && bytes[i] == 0u8
}

/// `bytes` followed by the terminating zero byte.
pub open spec fn terminated(bytes: Seq<u8>) -> Seq<u8> {
    bytes.push(0u8)
}

/// How many bytes of `buf` stand before its first zero byte; the whole length
/// where it holds none.
pub open spec fn nul_offset(buf: Seq<u8>) -> nat
    decreases buf.len(),
{
    if buf.len() == 0 || buf[0] == 0u8 {
        0
    } else {
        1 + nul_offset(buf.drop_first())
    }
}

/// What a reader sees that walks `buf` and stops at the first zero byte.
pub open spec fn until_nul(buf: Seq<u8>) -> Seq<u8> {
    buf.take(nul_offset(buf) as int)
}

/// The offset of the first zero byte is the one position that has no zero
/// before it and either holds a zero or is the end.
pub proof fn lemma_nul_offset_is(buf: Seq<u8>, k: int)
    requires
        0 <= k <= buf.len(),
        forall|j: int| 0 <= j < k ==> buf[j] != 0u8,
        k == buf.len() || buf[k] == 0u8,
    ensures
        nul_offset(buf) == k,
    decreases buf.len(),
{
    if k > 0 {
        let rest = buf.drop_first();
        assert(buf[0] != 0u8);
        assert forall|j: int| 0 <= j < k - 1 implies rest[j] != 0u8 by {
            assert(rest[j] == buf[j + 1]);
        }
        lemma_nul_offset_is(rest, k - 1);
    }
}

/// Reading a terminated buffer up to its first zero byte gives back the bytes
/// that were terminated, provided none of them is zero.
pub proof fn lemma_until_nul_of_terminated(bytes: Seq<u8>)
    requires
        !has_nul(bytes),
    ensures
        until_nul(terminated(bytes)) == bytes,
{
    let buf = terminated(bytes);
    assert forall|j: int| 0 <= j < bytes.len() implies buf[j] != 0u8 by {
        assert(buf[j] == bytes[j]);
    }
    lemma_nul_offset_is(buf, bytes.len() as int);
    assert(buf.take(bytes.len() as int) =~= bytes);
}

/// Whether some byte of `bytes` is zero.
pub fn contains_nul(bytes: &[u8]) -> (r: bool)
    ensures
        r == has_nul(bytes@),
{
    let mut i: usize = 0;
    while i < bytes.len()
        invariant
            0 <= i <= bytes@.len(),
            forall|j: int| 0 <= j < i ==> bytes@[j] != 0u8,
        decreases bytes@.len() - i,
    {
        if bytes[i] == 0 {
            return true;
        }
        i += 1;
    }
    false
}

/// Copies `bytes` into a fresh buffer and appends the terminating zero byte.
///
/// A zero byte among `bytes` would end the text early for every reader of the
/// buffer, so such input is excluded.
pub fn terminate(bytes: &[u8]) -> (r: Vec<u8>)
    requires
        !has_nul(bytes@),
    ensures
        r@ == terminated(bytes@),
        until_nul(r@) == bytes@,
{
    let mut out: Vec<u8> = Vec::new();
    let mut i: usize = 0;
    while i < bytes.len()
        invariant
            0 <= i <= bytes@.len(),
            out@ == bytes@.take(i as int),
        decreases bytes@.len() - i,
    {
        out.push(bytes[i]);
        assert(out@ =~= bytes@.take(i + 1));
        i += 1;
    }
    assert(bytes@.take(i as int) =~= bytes@);
    out.push(0u8);
    proof {
        lemma_until_nul_of_terminated(bytes@);
    }
    out
}

/// Copies the bytes of `buf` that stand before its first zero byte.
pub fn read_until_nul(buf: &[u8]) -> (r: Vec<u8>)
    ensures
        r@ == until_nul(buf@),
{
    let mut out: Vec<u8> = Vec::new();
    let mut i: usize = 0;
    while i < buf.len() && buf[i] != 0
        invariant
            0 <= i <= buf@.len(),
            forall|j: int| 0 <= j < i ==> buf@[j] != 0u8,
            out@ == buf@.take(i as int),
        decreases buf@.len() - i,
    {
        out.push(buf[i]);
        assert(out@ =~= buf@.take(i + 1));
        i += 1;
    }
    proof {
        lemma_nul_offset_is(buf@, i as int);
    }
    out
}

} // verus!
