//! SHA-256 of byte messages. Every digest of the contracts is SHA-256 over a message that
//! the library frames itself (domain, then components, variable ones length-prefixed).
use sha2::Digest;
use vstd::prelude::*;

verus! {

/// The SHA-256 digest of a message.
pub uninterp spec fn sha256(data: Seq<u8>) -> Seq<u8>;

/// Calls `sha2::Sha256::digest` on `data`: the result is its 32-byte digest, which depends on
/// the bytes alone. What SHA-256 computes is not stated beyond that name.
#[verifier::external_body]
pub(crate) fn sha256_digest(data: &[u8]) -> (r: [u8; 32])
    ensures
        r@ == sha256(data@),
{
    sha2::Sha256::digest(data).into()
}

/// A 64-bit integer in 8 big-endian bytes.
pub open spec fn be_u64(v: u64) -> Seq<u8> {
    Seq::new(8, |i: int| ((v as int / pow256(7 - i)) % 256) as u8)
}

/// A 32-bit integer in 4 big-endian bytes.
pub open spec fn be_u32(v: u32) -> Seq<u8> {
    Seq::new(4, |i: int| ((v as int / pow256(3 - i)) % 256) as u8)
}

/// A 16-bit integer in 2 big-endian bytes.
pub open spec fn be_u16(v: u16) -> Seq<u8> {
    seq![(v as int / 256) as u8, (v as int % 256) as u8]
}

pub open spec fn pow256(n: int) -> int
    decreases n,
{
    if n <= 0 {
        1
    } else {
        256 * pow256(n - 1)
    }
}

/// The big-endian bytes of `v`.
pub(crate) fn u64_be_bytes(v: u64) -> (r: [u8; 8])
    ensures
        r@ == be_u64(v),
{
    let mut out = [0u8; 8];
    let mut rest = v;
    let mut i: usize = 8;
    while i > 0
        invariant
            0 <= i <= 8,
            out@.len() == 8,
            rest as int == v as int / pow256(8 - i),
            forall|k: int| i <= k < 8 ==> out@[k] == ((v as int / pow256(7 - k)) % 256) as u8,
        decreases i,
    {
        i -= 1;
        out[i] = (rest % 256) as u8;
        proof {
            assert(pow256(8 - i) == 256 * pow256(7 - i));
            lemma_pow256_pos(7 - i as int);
            vstd::arithmetic::div_mod::lemma_div_denominator(
                v as int,
                pow256(7 - i as int),
                256,
            );
            vstd::arithmetic::mul::lemma_mul_is_commutative(256, pow256(7 - i as int));
        }
        rest = rest / 256;
    }
    assert(out@ =~= be_u64(v));
    out
}

/// The big-endian bytes of `v`.
pub(crate) fn u32_be_bytes(v: u32) -> (r: [u8; 4])
    ensures
        r@ == be_u32(v),
{
    let mut out = [0u8; 4];
    let mut rest = v;
    let mut i: usize = 4;
    while i > 0
        invariant
            0 <= i <= 4,
            out@.len() == 4,
            rest as int == v as int / pow256(4 - i),
            forall|k: int| i <= k < 4 ==> out@[k] == ((v as int / pow256(3 - k)) % 256) as u8,
        decreases i,
    {
        i -= 1;
        out[i] = (rest % 256) as u8;
        proof {
            assert(pow256(4 - i) == 256 * pow256(3 - i));
            lemma_pow256_pos(3 - i as int);
            vstd::arithmetic::div_mod::lemma_div_denominator(
                v as int,
                pow256(3 - i as int),
                256,
            );
            vstd::arithmetic::mul::lemma_mul_is_commutative(256, pow256(3 - i as int));
        }
        rest = rest / 256;
    }
    assert(out@ =~= be_u32(v));
    out
}

pub(crate) fn u16_be_bytes(v: u16) -> (r: [u8; 2])
    ensures
        r@ == be_u16(v),
{
    let out = [(v / 256) as u8, (v % 256) as u8];
    assert(out@ =~= be_u16(v));
    out
}

pub proof fn lemma_pow256_pos(n: int)
    ensures
        pow256(n) > 0,
    decreases n,
{
    if n > 0 {
        lemma_pow256_pos(n - 1);
    }
}

/// Appends `part` to `out`.
pub(crate) fn extend(out: &mut Vec<u8>, part: &[u8])
    ensures
        final(out)@ == old(out)@ + part@,
{
    let ghost start = out@;
    let mut i: usize = 0;
    while i < part.len()
        invariant
            0 <= i <= part@.len(),
            out@ == start + part@.subrange(0, i as int),
        decreases part@.len() - i,
    {
        out.push(part[i]);
        assert(part@.subrange(0, i + 1) =~= part@.subrange(0, i as int).push(part@[i as int]));
        i += 1;
    }
    assert(part@.subrange(0, part@.len() as int) =~= part@);
}

/// A variable-length component: its length as 8 big-endian bytes, then its bytes.
pub open spec fn framed(part: Seq<u8>) -> Seq<u8> {
    be_u64(part.len() as u64) + part
}

/// Appends a length-prefixed component.
pub(crate) fn extend_framed(out: &mut Vec<u8>, part: &[u8])
    ensures
        final(out)@ == old(out)@ + framed(part@),
{
    let ghost start = out@;
    let len = u64_be_bytes(part.len() as u64);
    extend(out, &len);
    extend(out, part);
    assert(out@ =~= start + framed(part@));
}

/// Whether two digests hold the same bytes.
pub(crate) fn digest_eq(a: &[u8; 32], b: &[u8; 32]) -> (r: bool)
    ensures
        r == (a@ == b@),
{
    let mut i: usize = 0;
    while i < 32
        invariant
            0 <= i <= 32,
            a@.len() == 32,
            b@.len() == 32,
            forall|k: int| 0 <= k < i ==> a@[k] == b@[k],
        decreases 32 - i,
    {
        if a[i] != b[i] {
            return false;
        }
        i += 1;
    }
    assert(a@ =~= b@);
    true
}

/// Every byte is zero.
pub open spec fn all_zero_bytes(a: Seq<u8>) -> bool {
    forall|k: int| 0 <= k < a.len() ==> a[k] == 0
}

/// Whether a digest is all zero bytes (the value of a digest that was never set).
pub(crate) fn digest_is_zero(a: &[u8; 32]) -> (r: bool)
    ensures
        r == all_zero_bytes(a@),
{
    let mut i: usize = 0;
    while i < 32
        invariant
            0 <= i <= 32,
            a@.len() == 32,
            forall|k: int| 0 <= k < i ==> a@[k] == 0,
        decreases 32 - i,
    {
        if a[i] != 0 {
            return false;
        }
        i += 1;
    }
    true
}

} // verus!
