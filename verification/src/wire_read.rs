//! Reading the bincode wire form back: what bincode reads at the start of a byte sequence
//! for each primitive, and the facts that reading what was written gives the value again.
//!
//! Each reader returns the value and the number of bytes it took. bincode accepts a
//! variable-length integer written wider than needed, so a value can be read from more than
//! one byte sequence; the readers below say exactly which sequences are read and as what.
use crate::digest::{be_u16, be_u32, be_u64, lemma_pow256_pos, pow256};
use crate::text::{byte_len, utf8};
use crate::wire::{fixed_str_spec, varint, wire_bytes_spec, wire_str_spec};
use vstd::prelude::*;
use vstd::utf8::*;

verus! {

/// The big-endian value of a byte sequence.
pub open spec fn be_value(b: Seq<u8>) -> nat
    decreases b.len(),
{
    if b.len() == 0 {
        0
    } else {
        be_value(b.drop_last()) * 256 + b.last() as nat
    }
}

/// What bincode reads as a `u64` at the start of `b` in the wire configuration: a byte up to
/// 250 is the value; a marker 251, 252 or 253 is followed by the value in 2, 4 or 8
/// big-endian bytes. Anything else (no byte, another marker, too few bytes) is no value.
pub open spec fn varint_u64_read(b: Seq<u8>) -> Option<(nat, nat)> {
    if b.len() == 0 {
        None
    } else if b[0] <= 250 {
        Some((b[0] as nat, 1))
    } else if b[0] == 251 && b.len() >= 3 {
        Some((be_value(b.subrange(1, 3)), 3))
    } else if b[0] == 252 && b.len() >= 5 {
        Some((be_value(b.subrange(1, 5)), 5))
    } else if b[0] == 253 && b.len() >= 9 {
        Some((be_value(b.subrange(1, 9)), 9))
    } else {
        None
    }
}

/// What bincode reads as a `u32` (the variant index of an enum): as for a `u64`, without the
/// 8-byte form.
pub open spec fn varint_u32_read(b: Seq<u8>) -> Option<(nat, nat)> {
    if b.len() > 0 && b[0] == 253 {
        None
    } else {
        varint_u64_read(b)
    }
}

/// What bincode reads as a `u16`: as for a `u64`, with only the 2-byte wide form.
pub open spec fn varint_u16_read(b: Seq<u8>) -> Option<(nat, nat)> {
    if b.len() > 0 && (b[0] == 252 || b[0] == 253) {
        None
    } else {
        varint_u64_read(b)
    }
}

/// bincode's zig-zag decoding of a signed integer.
pub open spec fn unzigzag(n: nat) -> int {
    if n % 2 == 0 {
        (n / 2) as int
    } else {
        -((n / 2) as int) - 1
    }
}

/// A string: a length, then that many bytes of valid UTF-8.
pub open spec fn str_read(b: Seq<u8>) -> Option<(Seq<char>, nat)> {
    match varint_u64_read(b) {
        Some((len, k)) => if k + len <= b.len() && valid_utf8(b.subrange(k as int, (k + len) as int)) {
            Some((decode_utf8(b.subrange(k as int, (k + len) as int)), k + len))
        } else {
            None
        },
        None => None,
    }
}

/// A byte list: a length, then that many bytes.
pub open spec fn bytes_read(b: Seq<u8>) -> Option<(Seq<u8>, nat)> {
    match varint_u64_read(b) {
        Some((len, k)) => if k + len <= b.len() {
            Some((b.subrange(k as int, (k + len) as int), k + len))
        } else {
            None
        },
        None => None,
    }
}

/// What bincode reads as an unsigned integer of `n` bytes in the fixed configuration: the
/// first `n` bytes, big-endian.
pub open spec fn fixed_read(b: Seq<u8>, n: nat) -> Option<(nat, nat)> {
    if b.len() >= n {
        Some((be_value(b.subrange(0, n as int)), n))
    } else {
        None
    }
}

/// A string in the fixed configuration: a length in 8 bytes, then that many bytes of valid
/// UTF-8.
pub open spec fn fixed_str_read(b: Seq<u8>) -> Option<(Seq<char>, nat)> {
    match fixed_read(b, 8) {
        Some((len, k)) => if k + len <= b.len() && valid_utf8(b.subrange(k as int, (k + len) as int)) {
            Some((decode_utf8(b.subrange(k as int, (k + len) as int)), k + len))
        } else {
            None
        },
        None => None,
    }
}

/// The 8-byte length prefix of a fixed-configuration string does not claim more bytes than
/// there are.
pub open spec fn fixed_length_in_bounds(b: Seq<u8>) -> bool {
    match fixed_read(b, 8) {
        Some((len, k)) => k + len <= b.len(),
        None => true,
    }
}

/// The length prefix of a string or byte list does not claim more bytes than there are.
pub open spec fn length_in_bounds(b: Seq<u8>) -> bool {
    match varint_u64_read(b) {
        Some((len, k)) => k + len <= b.len(),
        None => true,
    }
}

/// Calls `bincode::decode_from_slice` for a `u64` in the wire configuration.
#[verifier::external_body]
pub(crate) fn read_u64(bytes: &[u8]) -> (r: Option<(u64, usize)>)
    ensures
        match varint_u64_read(bytes@) {
            Some((v, n)) => r == Some((v as u64, n as usize)),
            None => r is None,
        },
{
    bincode::decode_from_slice::<u64, _>(bytes, bincode::config::standard().with_big_endian()).ok()
}

/// Calls `bincode::decode_from_slice` for a `u32` in the wire configuration.
#[verifier::external_body]
pub(crate) fn read_u32(bytes: &[u8]) -> (r: Option<(u32, usize)>)
    ensures
        match varint_u32_read(bytes@) {
            Some((v, n)) => r == Some((v as u32, n as usize)),
            None => r is None,
        },
{
    bincode::decode_from_slice::<u32, _>(bytes, bincode::config::standard().with_big_endian()).ok()
}

/// Calls `bincode::decode_from_slice` for a `u16` in the wire configuration.
#[verifier::external_body]
pub(crate) fn read_u16(bytes: &[u8]) -> (r: Option<(u16, usize)>)
    ensures
        match varint_u16_read(bytes@) {
            Some((v, n)) => r == Some((v as u16, n as usize)),
            None => r is None,
        },
{
    bincode::decode_from_slice::<u16, _>(bytes, bincode::config::standard().with_big_endian()).ok()
}

/// Calls `bincode::decode_from_slice` for an `i64` in the wire configuration: a `u64` read as
/// above, zig-zag decoded (an even `n` is `n / 2`, an odd one `-(n / 2) - 1`).
#[verifier::external_body]
pub(crate) fn read_i64(bytes: &[u8]) -> (r: Option<(i64, usize)>)
    ensures
        match varint_u64_read(bytes@) {
            Some((v, n)) => r == Some((unzigzag(v) as i64, n as usize)),
            None => r is None,
        },
{
    bincode::decode_from_slice::<i64, _>(bytes, bincode::config::standard().with_big_endian()).ok()
}

/// Calls `bincode::decode_from_slice` for a `String` in the wire configuration. bincode
/// allocates the claimed length before reading, so the claim must fit in `bytes`.
#[verifier::external_body]
pub(crate) fn read_str(bytes: &[u8]) -> (r: Option<(String, usize)>)
    requires
        length_in_bounds(bytes@),
    ensures
        match str_read(bytes@) {
            Some((s, n)) => r matches Some((t, m)) && t@ == s && m == n,
            None => r is None,
        },
{
    bincode::decode_from_slice::<String, _>(bytes, bincode::config::standard().with_big_endian())
        .ok()
}

/// Calls `bincode::decode_from_slice` for a `Vec<u8>` in the wire configuration. bincode
/// allocates the claimed length before reading, so the claim must fit in `bytes`.
#[verifier::external_body]
pub(crate) fn read_bytes(bytes: &[u8]) -> (r: Option<(Vec<u8>, usize)>)
    requires
        length_in_bounds(bytes@),
    ensures
        match bytes_read(bytes@) {
            Some((v, n)) => r matches Some((t, m)) && t@ == v && m == n,
            None => r is None,
        },
{
    bincode::decode_from_slice::<Vec<u8>, _>(
        bytes,
        bincode::config::standard().with_big_endian(),
    ).ok()
}

/// Calls `bincode::decode_from_slice` for a `u64` in the fixed configuration.
#[verifier::external_body]
pub(crate) fn read_fixed_u64(bytes: &[u8]) -> (r: Option<(u64, usize)>)
    ensures
        match fixed_read(bytes@, 8) {
            Some((v, n)) => r == Some((v as u64, n as usize)),
            None => r is None,
        },
{
    bincode::decode_from_slice::<u64, _>(
        bytes,
        bincode::config::standard().with_big_endian().with_fixed_int_encoding(),
    ).ok()
}

/// Calls `bincode::decode_from_slice` for a `u32` in the fixed configuration.
#[verifier::external_body]
pub(crate) fn read_fixed_u32(bytes: &[u8]) -> (r: Option<(u32, usize)>)
    ensures
        match fixed_read(bytes@, 4) {
            Some((v, n)) => r == Some((v as u32, n as usize)),
            None => r is None,
        },
{
    bincode::decode_from_slice::<u32, _>(
        bytes,
        bincode::config::standard().with_big_endian().with_fixed_int_encoding(),
    ).ok()
}

/// Calls `bincode::decode_from_slice` for a `u16` in the fixed configuration.
#[verifier::external_body]
pub(crate) fn read_fixed_u16(bytes: &[u8]) -> (r: Option<(u16, usize)>)
    ensures
        match fixed_read(bytes@, 2) {
            Some((v, n)) => r == Some((v as u16, n as usize)),
            None => r is None,
        },
{
    bincode::decode_from_slice::<u16, _>(
        bytes,
        bincode::config::standard().with_big_endian().with_fixed_int_encoding(),
    ).ok()
}

/// Calls `bincode::decode_from_slice` for an `i64` in the fixed configuration: the 8 bytes as
/// a two's complement.
#[verifier::external_body]
pub(crate) fn read_fixed_i64(bytes: &[u8]) -> (r: Option<(i64, usize)>)
    ensures
        match fixed_read(bytes@, 8) {
            Some((v, n)) => r == Some(((v as u64) as i64, n as usize)),
            None => r is None,
        },
{
    bincode::decode_from_slice::<i64, _>(
        bytes,
        bincode::config::standard().with_big_endian().with_fixed_int_encoding(),
    ).ok()
}

/// Calls `bincode::decode_from_slice` for an `i32` in the fixed configuration: the 4 bytes as
/// a two's complement.
#[verifier::external_body]
pub(crate) fn read_fixed_i32(bytes: &[u8]) -> (r: Option<(i32, usize)>)
    ensures
        match fixed_read(bytes@, 4) {
            Some((v, n)) => r == Some(((v as u32) as i32, n as usize)),
            None => r is None,
        },
{
    bincode::decode_from_slice::<i32, _>(
        bytes,
        bincode::config::standard().with_big_endian().with_fixed_int_encoding(),
    ).ok()
}

/// Calls `bincode::decode_from_slice` for a `String` in the fixed configuration. bincode
/// allocates the claimed length before reading, so the claim must fit in `bytes`.
#[verifier::external_body]
pub(crate) fn read_fixed_str(bytes: &[u8]) -> (r: Option<(String, usize)>)
    requires
        fixed_length_in_bounds(bytes@),
    ensures
        match fixed_str_read(bytes@) {
            Some((s, n)) => r matches Some((t, m)) && t@ == s && m == n,
            None => r is None,
        },
{
    bincode::decode_from_slice::<String, _>(
        bytes,
        bincode::config::standard().with_big_endian().with_fixed_int_encoding(),
    ).ok()
}

// ---------------------------------------------------------------------------------------------
// Reading what was written
// ---------------------------------------------------------------------------------------------

/// `n` big-endian bytes of `v`, the low `8 * n` bits of it.
pub open spec fn be_bytes(v: nat, n: nat) -> Seq<u8> {
    Seq::new(n, |i: int| ((v as int / pow256(n - 1 - i)) % 256) as u8)
}

proof fn lemma_be_bytes_value(v: nat, n: nat)
    ensures
        be_value(be_bytes(v, n)) == v as int % pow256(n as int),
    decreases n,
{
    if n == 0 {
        assert(be_bytes(v, n).len() == 0);
    } else {
        let m = (n - 1) as nat;
        let b = be_bytes(v, n);
        lemma_pow256_pos(m as int);
        assert(b.drop_last() =~= be_bytes(v / 256, m)) by {
            assert forall|i: int| 0 <= i < m implies b.drop_last()[i] == be_bytes(v / 256, m)[i] by {
                assert(pow256(n - 1 - i) == 256 * pow256(m - 1 - i));
                lemma_pow256_pos(m - 1 - i);
                vstd::arithmetic::div_mod::lemma_div_denominator(
                    v as int,
                    256,
                    pow256(m - 1 - i),
                );
            }
        }
        lemma_be_bytes_value(v / 256, m);
        assert(b.last() == (v % 256) as u8) by {
            assert(pow256(0) == 1);
        }
        vstd::arithmetic::div_mod::lemma_mod_breakdown(v as int, 256, pow256(m as int));
        assert(pow256(n as int) == 256 * pow256(m as int));
    }
}

pub(crate) proof fn lemma_pow256_values()
    ensures
        pow256(2) == 0x1_0000,
        pow256(4) == 0x1_0000_0000,
        pow256(8) == 0x1_0000_0000_0000_0000,
{
    assert(pow256(0) == 1);
    assert(pow256(1) == 0x100);
    assert(pow256(2) == 0x1_0000);
    assert(pow256(3) == 0x100_0000);
    assert(pow256(4) == 0x1_0000_0000);
    assert(pow256(5) == 0x100_0000_0000);
    assert(pow256(6) == 0x1_0000_0000_0000);
    assert(pow256(7) == 0x100_0000_0000_0000);
    assert(pow256(8) == 0x1_0000_0000_0000_0000);
}

pub(crate) proof fn lemma_be_value_u16(v: u16)
    ensures
        be_value(be_u16(v)) == v,
{
    let b = be_u16(v);
    let first = seq![(v as int / 256) as u8];
    assert(b.drop_last() =~= first);
    assert(first.drop_last() =~= Seq::<u8>::empty());
    assert(be_value(first) == (v as int / 256) as nat) by {
        reveal_with_fuel(be_value, 2);
    }
    assert(be_value(b) == be_value(first) * 256 + (v as int % 256));
}

pub(crate) proof fn lemma_be_value_u32(v: u32)
    ensures
        be_value(be_u32(v)) == v,
{
    assert(be_u32(v) =~= be_bytes(v as nat, 4));
    lemma_be_bytes_value(v as nat, 4);
    lemma_pow256_values();
}

pub(crate) proof fn lemma_be_value_u64(v: u64)
    ensures
        be_value(be_u64(v)) == v,
{
    assert(be_u64(v) =~= be_bytes(v as nat, 8));
    lemma_be_bytes_value(v as nat, 8);
    lemma_pow256_values();
}

pub(crate) proof fn lemma_be_value_bound(b: Seq<u8>)
    ensures
        be_value(b) < pow256(b.len() as int),
    decreases b.len(),
{
    if b.len() > 0 {
        let n = b.len() - 1;
        lemma_be_value_bound(b.drop_last());
        let x = be_value(b.drop_last()) as int;
        let y = b.last() as int;
        let m = pow256(n as int);
        assert(pow256(b.len() as int) == 256 * m);
        assert(x * 256 + y < 256 * m) by (nonlinear_arith)
            requires
                x < m,
                0 <= y < 256,
        ;
    }
}

/// What a reader reads lies within the bytes, and a read integer fits its type.
pub proof fn lemma_varint_read_bounds(b: Seq<u8>)
    ensures
        varint_u64_read(b) matches Some((v, n)) ==> 1 <= n <= b.len() && n <= 9 && v
            <= u64::MAX,
        varint_u32_read(b) matches Some((v, n)) ==> 1 <= n <= b.len() && n <= 5 && v
            <= u32::MAX,
        varint_u16_read(b) matches Some((v, n)) ==> 1 <= n <= b.len() && n <= 3 && v
            <= u16::MAX,
        str_read(b) matches Some((s, n)) ==> n <= b.len(),
        bytes_read(b) matches Some((s, n)) ==> n <= b.len(),
{
    lemma_pow256_values();
    if b.len() > 0 {
        if b[0] == 251 && b.len() >= 3 {
            lemma_be_value_bound(b.subrange(1, 3));
        } else if b[0] == 252 && b.len() >= 5 {
            lemma_be_value_bound(b.subrange(1, 5));
        } else if b[0] == 253 && b.len() >= 9 {
            lemma_be_value_bound(b.subrange(1, 9));
        }
    }
}

/// Reading a written `u64` gives it back, and takes exactly its bytes.
pub proof fn lemma_varint_u64_read(v: u64, rest: Seq<u8>)
    ensures
        varint_u64_read(varint(v as nat) + rest) == Some((v as nat, varint(v as nat).len())),
{
    let b = varint(v as nat) + rest;
    if v <= 250 {
    } else if v <= 0xffff {
        assert(b.subrange(1, 3) =~= be_u16(v as u16));
        lemma_be_value_u16(v as u16);
    } else if v <= 0xffff_ffff {
        assert(b.subrange(1, 5) =~= be_u32(v as u32));
        lemma_be_value_u32(v as u32);
    } else {
        assert(b.subrange(1, 9) =~= be_u64(v as u64));
        lemma_be_value_u64(v);
    }
}

/// Reading a written `u32` gives it back, and takes exactly its bytes.
pub proof fn lemma_varint_u32_read(v: u32, rest: Seq<u8>)
    ensures
        varint_u32_read(varint(v as nat) + rest) == Some((v as nat, varint(v as nat).len())),
{
    lemma_varint_u64_read(v as u64, rest);
}

/// Reading a written `u16` gives it back, and takes exactly its bytes.
pub proof fn lemma_varint_u16_read(v: u16, rest: Seq<u8>)
    ensures
        varint_u16_read(varint(v as nat) + rest) == Some((v as nat, varint(v as nat).len())),
{
    lemma_varint_u64_read(v as u64, rest);
}

/// Reading a written string gives it back, and takes exactly its bytes.
pub proof fn lemma_str_read(s: Seq<char>, rest: Seq<u8>)
    requires
        byte_len(s) <= u64::MAX,
    ensures
        str_read(wire_str_spec(s) + rest) == Some((s, wire_str_spec(s).len())),
        length_in_bounds(wire_str_spec(s) + rest),
{
    let len = byte_len(s);
    let head = varint(len);
    let b = wire_str_spec(s) + rest;
    assert(b =~= head + (utf8(s) + rest));
    lemma_varint_u64_read(len as u64, utf8(s) + rest);
    assert(b.subrange(head.len() as int, (head.len() + len) as int) =~= utf8(s));
    encode_utf8_valid_utf8(s);
    encode_utf8_decode_utf8(s);
}

/// Reading a written byte list gives it back, and takes exactly its bytes.
pub proof fn lemma_bytes_read(v: Seq<u8>, rest: Seq<u8>)
    requires
        v.len() <= u64::MAX,
    ensures
        bytes_read(wire_bytes_spec(v) + rest) == Some((v, wire_bytes_spec(v).len())),
        length_in_bounds(wire_bytes_spec(v) + rest),
{
    let head = varint(v.len());
    let b = wire_bytes_spec(v) + rest;
    assert(b =~= head + (v + rest));
    lemma_varint_u64_read(v.len() as u64, v + rest);
    assert(b.subrange(head.len() as int, (head.len() + v.len()) as int) =~= v);
}

/// Reading a fixed-width integer's bytes gives it back.
pub proof fn lemma_fixed_read(v: Seq<u8>, rest: Seq<u8>)
    ensures
        fixed_read(v + rest, v.len()) == Some((be_value(v), v.len())),
{
    assert((v + rest).subrange(0, v.len() as int) =~= v);
}

/// Reading a written fixed-configuration string gives it back, and takes exactly its bytes.
pub proof fn lemma_fixed_str_read(s: Seq<char>, rest: Seq<u8>)
    requires
        byte_len(s) <= u64::MAX,
    ensures
        fixed_str_read(fixed_str_spec(s) + rest) == Some((s, fixed_str_spec(s).len())),
        fixed_length_in_bounds(fixed_str_spec(s) + rest),
{
    let len = byte_len(s);
    let head = be_u64(len as u64);
    let b = fixed_str_spec(s) + rest;
    assert(b =~= head + (utf8(s) + rest));
    lemma_fixed_read(head, utf8(s) + rest);
    lemma_be_value_u64(len as u64);
    assert(b.subrange(8, (8 + len) as int) =~= utf8(s));
    encode_utf8_valid_utf8(s);
    encode_utf8_decode_utf8(s);
}

} // verus!
