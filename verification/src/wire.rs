//! The bincode wire form of the values the contracts digest.
//!
//! Two configurations are in use: the wire configuration (big-endian, variable-length
//! integers) of Decision V5 and V6, and the fixed configuration (big-endian, fixed-width
//! integers) of the Decision V4 fence. Each primitive value is encoded by bincode itself; the
//! library lays the fields of its own records one after another, an enum as its variant index
//! followed by its fields, an option as a 0/1 tag followed by its value, and a list as its
//! length followed by its items, which is the layout bincode documents for derived encodings.
use crate::digest::{be_u16, be_u32, be_u64};
use crate::text::{byte_len, utf8};
use vstd::prelude::*;

verus! {

/// A bincode variable-length unsigned integer: one byte up to 250, else a marker byte (251,
/// 252, 253) followed by the value in 2, 4 or 8 big-endian bytes.
pub open spec fn varint(v: nat) -> Seq<u8> {
    if v <= 250 {
        seq![v as u8]
    } else if v <= 0xffff {
        seq![251u8] + be_u16(v as u16)
    } else if v <= 0xffff_ffff {
        seq![252u8] + be_u32(v as u32)
    } else {
        seq![253u8] + be_u64(v as u64)
    }
}

/// Signed integers are zig-zag mapped before the variable-length encoding.
pub open spec fn zigzag(v: int) -> nat {
    if v < 0 {
        (-2 * v - 1) as nat
    } else {
        (2 * v) as nat
    }
}

pub open spec fn wire_bool_spec(b: bool) -> Seq<u8> {
    if b {
        seq![1u8]
    } else {
        seq![0u8]
    }
}

/// A string: its byte length, then its UTF-8 bytes.
pub open spec fn wire_str_spec(s: Seq<char>) -> Seq<u8> {
    varint(byte_len(s)) + utf8(s)
}

/// A byte list: its length, then its bytes.
pub open spec fn wire_bytes_spec(b: Seq<u8>) -> Seq<u8> {
    varint(b.len()) + b
}

pub open spec fn wire_opt_str_spec(s: Option<Seq<char>>) -> Seq<u8> {
    match s {
        Some(v) => seq![1u8] + wire_str_spec(v),
        None => seq![0u8],
    }
}

pub open spec fn wire_opt_u64_spec(v: Option<u64>) -> Seq<u8> {
    match v {
        Some(x) => seq![1u8] + varint(x as nat),
        None => seq![0u8],
    }
}

pub open spec fn wire_opt_i64_spec(v: Option<i64>) -> Seq<u8> {
    match v {
        Some(x) => seq![1u8] + varint(zigzag(x as int)),
        None => seq![0u8],
    }
}

/// A string in the fixed configuration: its byte length in 8 bytes, then its bytes.
pub open spec fn fixed_str_spec(s: Seq<char>) -> Seq<u8> {
    be_u64(byte_len(s) as u64) + utf8(s)
}

/// Calls `bincode::encode_to_vec` on a `u64` in the wire configuration.
#[verifier::external_body]
pub(crate) fn wire_u64(v: u64) -> (r: Vec<u8>)
    ensures
        r@ == varint(v as nat),
{
    match bincode::encode_to_vec(v, bincode::config::standard().with_big_endian()) {
        Ok(bytes) => bytes,
        Err(_) => Vec::new(),
    }
}

/// Calls `bincode::encode_to_vec` on a `u32` in the wire configuration.
#[verifier::external_body]
pub(crate) fn wire_u32(v: u32) -> (r: Vec<u8>)
    ensures
        r@ == varint(v as nat),
{
    match bincode::encode_to_vec(v, bincode::config::standard().with_big_endian()) {
        Ok(bytes) => bytes,
        Err(_) => Vec::new(),
    }
}

/// Calls `bincode::encode_to_vec` on a `u16` in the wire configuration.
#[verifier::external_body]
pub(crate) fn wire_u16(v: u16) -> (r: Vec<u8>)
    ensures
        r@ == varint(v as nat),
{
    match bincode::encode_to_vec(v, bincode::config::standard().with_big_endian()) {
        Ok(bytes) => bytes,
        Err(_) => Vec::new(),
    }
}

/// Calls `bincode::encode_to_vec` on an `i64` in the wire configuration.
#[verifier::external_body]
pub(crate) fn wire_i64(v: i64) -> (r: Vec<u8>)
    ensures
        r@ == varint(zigzag(v as int)),
{
    match bincode::encode_to_vec(v, bincode::config::standard().with_big_endian()) {
        Ok(bytes) => bytes,
        Err(_) => Vec::new(),
    }
}

/// Calls `bincode::encode_to_vec` on a `u8`: the byte itself.
#[verifier::external_body]
pub(crate) fn wire_u8(v: u8) -> (r: Vec<u8>)
    ensures
        r@ == seq![v],
{
    match bincode::encode_to_vec(v, bincode::config::standard().with_big_endian()) {
        Ok(bytes) => bytes,
        Err(_) => Vec::new(),
    }
}

/// Calls `bincode::encode_to_vec` on a `bool`: one byte, 1 or 0.
#[verifier::external_body]
pub(crate) fn wire_bool(v: bool) -> (r: Vec<u8>)
    ensures
        r@ == wire_bool_spec(v),
{
    match bincode::encode_to_vec(v, bincode::config::standard().with_big_endian()) {
        Ok(bytes) => bytes,
        Err(_) => Vec::new(),
    }
}

/// Calls `bincode::encode_to_vec` on a string in the wire configuration.
#[verifier::external_body]
pub(crate) fn wire_str(v: &String) -> (r: Vec<u8>)
    ensures
        r@ == wire_str_spec(v@),
{
    match bincode::encode_to_vec(v, bincode::config::standard().with_big_endian()) {
        Ok(bytes) => bytes,
        Err(_) => Vec::new(),
    }
}

/// Calls `bincode::encode_to_vec` on a byte list in the wire configuration.
#[verifier::external_body]
pub(crate) fn wire_bytes(v: &Vec<u8>) -> (r: Vec<u8>)
    ensures
        r@ == wire_bytes_spec(v@),
{
    match bincode::encode_to_vec(v, bincode::config::standard().with_big_endian()) {
        Ok(bytes) => bytes,
        Err(_) => Vec::new(),
    }
}

/// Calls `bincode::encode_to_vec` on a 32-byte array: its bytes, without a length.
#[verifier::external_body]
pub(crate) fn wire_array32(v: &[u8; 32]) -> (r: Vec<u8>)
    ensures
        r@ == v@,
{
    match bincode::encode_to_vec(v, bincode::config::standard().with_big_endian()) {
        Ok(bytes) => bytes,
        Err(_) => Vec::new(),
    }
}

/// Calls `bincode::encode_to_vec` on a `u64` in the fixed configuration: 8 big-endian bytes.
#[verifier::external_body]
pub(crate) fn fixed_u64(v: u64) -> (r: Vec<u8>)
    ensures
        r@ == be_u64(v),
{
    match bincode::encode_to_vec(
        v,
        bincode::config::standard().with_big_endian().with_fixed_int_encoding(),
    ) {
        Ok(bytes) => bytes,
        Err(_) => Vec::new(),
    }
}

/// Calls `bincode::encode_to_vec` on a `u32` in the fixed configuration: 4 big-endian bytes.
#[verifier::external_body]
pub(crate) fn fixed_u32(v: u32) -> (r: Vec<u8>)
    ensures
        r@ == be_u32(v),
{
    match bincode::encode_to_vec(
        v,
        bincode::config::standard().with_big_endian().with_fixed_int_encoding(),
    ) {
        Ok(bytes) => bytes,
        Err(_) => Vec::new(),
    }
}

/// Calls `bincode::encode_to_vec` on a `u16` in the fixed configuration: 2 big-endian bytes.
#[verifier::external_body]
pub(crate) fn fixed_u16(v: u16) -> (r: Vec<u8>)
    ensures
        r@ == be_u16(v),
{
    match bincode::encode_to_vec(
        v,
        bincode::config::standard().with_big_endian().with_fixed_int_encoding(),
    ) {
        Ok(bytes) => bytes,
        Err(_) => Vec::new(),
    }
}

/// Calls `bincode::encode_to_vec` on an `i64` in the fixed configuration: the 8 big-endian
/// bytes of its two's complement.
#[verifier::external_body]
pub(crate) fn fixed_i64(v: i64) -> (r: Vec<u8>)
    ensures
        r@ == be_u64(v as u64),
{
    match bincode::encode_to_vec(
        v,
        bincode::config::standard().with_big_endian().with_fixed_int_encoding(),
    ) {
        Ok(bytes) => bytes,
        Err(_) => Vec::new(),
    }
}

/// Calls `bincode::encode_to_vec` on an `i32` in the fixed configuration: the 4 big-endian
/// bytes of its two's complement.
#[verifier::external_body]
pub(crate) fn fixed_i32(v: i32) -> (r: Vec<u8>)
    ensures
        r@ == be_u32(v as u32),
{
    match bincode::encode_to_vec(
        v,
        bincode::config::standard().with_big_endian().with_fixed_int_encoding(),
    ) {
        Ok(bytes) => bytes,
        Err(_) => Vec::new(),
    }
}

/// Calls `bincode::encode_to_vec` on a string in the fixed configuration.
#[verifier::external_body]
pub(crate) fn fixed_str(v: &String) -> (r: Vec<u8>)
    ensures
        r@ == fixed_str_spec(v@),
{
    match bincode::encode_to_vec(
        v,
        bincode::config::standard().with_big_endian().with_fixed_int_encoding(),
    ) {
        Ok(bytes) => bytes,
        Err(_) => Vec::new(),
    }
}

/// Appends `part` to `out`, consuming it.
pub(crate) fn put(out: &mut Vec<u8>, part: Vec<u8>)
    ensures
        final(out)@ == old(out)@ + part@,
{
    let mut part = part;
    out.append(&mut part);
}

pub(crate) fn put_opt_str(out: &mut Vec<u8>, v: &Option<String>)
    ensures
        final(out)@ == old(out)@ + wire_opt_str_spec(crate::text::opt_view(*v)),
{
    let ghost start = out@;
    match v {
        Some(s) => {
            put(out, wire_u8(1));
            put(out, wire_str(s));
            assert(out@ =~= start + wire_opt_str_spec(crate::text::opt_view(*v)));
        },
        None => {
            put(out, wire_u8(0));
        },
    }
}

pub(crate) fn put_opt_u64(out: &mut Vec<u8>, v: Option<u64>)
    ensures
        final(out)@ == old(out)@ + wire_opt_u64_spec(v),
{
    let ghost start = out@;
    match v {
        Some(x) => {
            put(out, wire_u8(1));
            put(out, wire_u64(x));
            assert(out@ =~= start + wire_opt_u64_spec(v));
        },
        None => {
            put(out, wire_u8(0));
        },
    }
}

pub(crate) fn put_opt_i64(out: &mut Vec<u8>, v: Option<i64>)
    ensures
        final(out)@ == old(out)@ + wire_opt_i64_spec(v),
{
    let ghost start = out@;
    match v {
        Some(x) => {
            put(out, wire_u8(1));
            put(out, wire_i64(x));
            assert(out@ =~= start + wire_opt_i64_spec(v));
        },
        None => {
            put(out, wire_u8(0));
        },
    }
}

} // verus!
