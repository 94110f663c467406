//! The byte layout shared with the execution runtime, and the calls into
//! parity-scale-codec that produce and read it.
use vstd::prelude::*;
use vstd::utf8::encode_utf8;
use parity_scale_codec::{Decode, DecodeLimit, Encode};
use crate::output::{decoded_within, parse_outcome};

verus! {

/// The little-endian bytes of a 32-bit integer.
pub open spec fn le_u32(v: u32) -> Seq<u8> {
    seq![
        (v % 256) as u8,
        ((v / 256) % 256) as u8,
        ((v / 65536) % 256) as u8,
        ((v / 16777216) % 256) as u8,
    ]
}

/// The number that little-endian bytes stand for.
pub open spec fn le_value(b: Seq<u8>) -> nat
    decreases b.len(),
{
    if b.len() == 0 {
        0
    } else {
        b[0] as nat + 256 * le_value(b.drop_first())
    }
}

/// The `k` little-endian bytes of `n`, least significant first.
pub open spec fn le_bytes(n: nat, k: nat) -> Seq<u8>
    decreases k,
{
    if k == 0 {
        Seq::empty()
    } else {
        seq![(n % 256) as u8] + le_bytes(n / 256, (k - 1) as nat)
    }
}

/// Reading back the bytes of a number that fits in them gives the number.
pub proof fn lemma_le_round_trip(n: nat, k: nat)
    requires
        n < pow256(k),
    ensures
        le_bytes(n, k).len() == k,
        le_value(le_bytes(n, k)) == n,
    decreases k,
{
    if k > 0 {
        let rest = le_bytes(n / 256, (k - 1) as nat);
        assert(n / 256 < pow256((k - 1) as nat)) by (nonlinear_arith)
            requires
                n < 256 * pow256((k - 1) as nat),
        ;
        lemma_le_round_trip(n / 256, (k - 1) as nat);
        assert((seq![(n % 256) as u8] + rest).drop_first() =~= rest);
    }
}

/// Bytes read as a number and written back give the same bytes.
pub proof fn lemma_le_value_bytes(b: Seq<u8>)
    ensures
        le_value(b) < pow256(b.len()),
        le_bytes(le_value(b), b.len()) == b,
    decreases b.len(),
{
    if b.len() > 0 {
        let tail = b.drop_first();
        lemma_le_value_bytes(tail);
        let x = le_value(tail);
        let n = le_value(b);
        assert(n == b[0] as nat + 256 * x);
        assert(n % 256 == b[0] as nat && n / 256 == x) by (nonlinear_arith)
            requires
                n == b[0] as nat + 256 * x,
                b[0] < 256,
        ;
        assert(n < 256 * pow256(tail.len())) by (nonlinear_arith)
            requires
                n == b[0] as nat + 256 * x,
                b[0] < 256,
                x < pow256(tail.len()),
        ;
        assert(le_bytes(n, b.len()) =~= b);
    }
}

/// 256 to the power `k`.
pub open spec fn pow256(k: nat) -> nat
    decreases k,
{
    if k == 0 {
        1
    } else {
        256 * pow256((k - 1) as nat)
    }
}

/// The single byte of a boolean.
pub open spec fn bool_byte(b: bool) -> u8 {
    if b {
        1u8
    } else {
        0u8
    }
}

/// The compact encoding of a length: one byte below 2^6, two below 2^14, four
/// below 2^30, and otherwise a marker byte then the four little-endian bytes.
pub open spec fn compact_u32(n: nat) -> Seq<u8> {
    if n < 0x40 {
        le_bytes(n * 4, 1)
    } else if n < 0x4000 {
        le_bytes(n * 4 + 1, 2)
    } else if n < 0x4000_0000 {
        le_bytes(n * 4 + 2, 4)
    } else {
        seq![3u8] + le_bytes(n, 4)
    }
}

/// What scale makes of a string: the length of its UTF-8 bytes as a compact
/// integer, then those bytes.
pub open spec fn str_encoding(s: Seq<char>) -> Seq<u8> {
    compact_u32(encode_utf8(s).len()) + encode_utf8(s)
}

/// Whether the UTF-8 length of `s` fits the compact length that precedes it.
pub open spec fn encodable_str(s: Seq<char>) -> bool {
    encode_utf8(s).len() <= u32::MAX
}

/// Relies on `<u32 as parity_scale_codec::Encode>::encode_to`: appends the
/// four little-endian bytes of `v`.
#[verifier::external_body]
pub(crate) fn put_u32(v: u32, out: &mut Vec<u8>)
    ensures
        final(out)@ == old(out)@ + le_u32(v),
{
    v.encode_to(out)
}

/// Relies on `<bool as parity_scale_codec::Encode>::encode_to`: appends one
/// byte, 1 for true and 0 for false.
#[verifier::external_body]
pub(crate) fn put_bool(b: bool, out: &mut Vec<u8>)
    ensures
        final(out)@ == old(out)@.push(bool_byte(b)),
{
    b.encode_to(out)
}

/// Relies on `<str as parity_scale_codec::Encode>::encode_to`: appends the
/// compact length of the UTF-8 bytes of `s`, then those bytes. It panics where
/// that length exceeds `u32::MAX`, which `requires` leaves out.
#[verifier::external_body]
pub(crate) fn put_str(s: &str, out: &mut Vec<u8>)
    requires
        encodable_str(s@),
    ensures
        final(out)@ == old(out)@ + str_encoding(s@),
{
    s.encode_to(out)
}

#[verifier::external_type_specification]
#[verifier::external_body]
pub struct ExScaleError(parity_scale_codec::Error);

/// Relies on `DecodeLimit::decode_with_depth_limit` for `Result<(), u64>`:
/// a variant byte (0 for `Ok`, 1 for `Err`), then eight little-endian bytes
/// for the error; bytes after that are left unread. Decoding `()`, `u64` and
/// `Result` never descends into a nested reference, so the limit is not reached.
#[verifier::external_body]
pub(crate) fn scale_decode_unit_within(bytes: &[u8], limit: u32) -> (r: Result<Result<(), u64>, parity_scale_codec::Error>)
    ensures
        match decoded_within::<()>(bytes@, limit as int) {
            Some(v) => r == Ok::<_, parity_scale_codec::Error>(v),
            None => r is Err,
        },
{
    let mut input = bytes;
    <Result<(), u64> as DecodeLimit>::decode_with_depth_limit(limit, &mut input)
}

/// Relies on `Decode::decode` for `Result<(), u64>`: the layout read by
/// `scale_decode_unit_within`, without a depth limit.
#[verifier::external_body]
pub(crate) fn scale_decode_unit(bytes: &[u8]) -> (r: Result<Result<(), u64>, parity_scale_codec::Error>)
    ensures
        match parse_outcome::<()>(bytes@) {
            Some(v) => r == Ok::<_, parity_scale_codec::Error>(v),
            None => r is Err,
        },
{
    let mut input = bytes;
    <Result<(), u64> as Decode>::decode(&mut input)
}

/// Relies on `DecodeLimit::decode_with_depth_limit` for
/// `Result<Result<(), ()>, u64>`: a variant byte, then for `Ok` a second variant
/// byte and for `Err` eight little-endian bytes; bytes after that are left
/// unread. No part of it descends into a nested reference.
#[verifier::external_body]
pub(crate) fn scale_decode_flag_within(bytes: &[u8], limit: u32) -> (r: Result<Result<Result<(), ()>, u64>, parity_scale_codec::Error>)
    ensures
        match decoded_within::<Result<(), ()>>(bytes@, limit as int) {
            Some(v) => r == Ok::<_, parity_scale_codec::Error>(v),
            None => r is Err,
        },
{
    let mut input = bytes;
    <Result<Result<(), ()>, u64> as DecodeLimit>::decode_with_depth_limit(limit, &mut input)
}

/// Relies on `Decode::decode` for `Result<Result<(), ()>, u64>`: the layout
/// read by `scale_decode_flag_within`, without a depth limit.
#[verifier::external_body]
pub(crate) fn scale_decode_flag(bytes: &[u8]) -> (r: Result<Result<Result<(), ()>, u64>, parity_scale_codec::Error>)
    ensures
        match parse_outcome::<Result<(), ()>>(bytes@) {
            Some(v) => r == Ok::<_, parity_scale_codec::Error>(v),
            None => r is Err,
        },
{
    let mut input = bytes;
    <Result<Result<(), ()>, u64> as Decode>::decode(&mut input)
}

} // verus!
