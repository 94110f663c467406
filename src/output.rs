//! Typed results of a contract call and how they are read from the bytes that
//! the runtime returns.
use vstd::prelude::*;
use crate::wire::{
    le_bytes, le_value, lemma_le_round_trip, lemma_le_value_bytes, pow256, scale_decode_flag, scale_decode_flag_within, scale_decode_unit,
    scale_decode_unit_within,
};

verus! {

/// An error code that the contract itself reports, inside a well-framed response.
pub type LangError = u64;

/// The output bytes do not frame a value of the expected type, or reading them
/// would nest deeper than the limit allows.
#[derive(Debug, Clone, Copy, PartialEq, Eq, Structural)]
pub struct DecodeError;

/// `Ok` with the decoded value, or `Err(DecodeError)` where there is none.
pub open spec fn decode_result<V>(o: Option<V>) -> Result<V, DecodeError> {
    match o {
        Some(v) => Ok(v),
        None => Err(DecodeError),
    }
}

/// The byte layout of a success payload.
pub trait Payload: Sized {
    /// The value that the leading bytes of `bytes` encode, if any; later bytes
    /// are not read.
    spec fn parse_value(bytes: Seq<u8>) -> Option<Self>;

    /// How many nested references reading `Result<Self, LangError>` descends into.
    spec fn nesting() -> nat;

    /// The bytes that encode `v`.
    spec fn encode_value(v: Self) -> Seq<u8>;

    /// Reading the encoding of a value gives the value back, whatever follows it.
    proof fn lemma_parse_encoded(v: Self, rest: Seq<u8>)
        ensures
            Self::parse_value(Self::encode_value(v) + rest) == Some(v),
    ;

    /// Reading stops at the end of the value: bytes after it change nothing.
    proof fn lemma_parse_ignores_trailing(bytes: Seq<u8>, rest: Seq<u8>)
        requires
            Self::parse_value(bytes) is Some,
        ensures
            Self::parse_value(bytes + rest) == Self::parse_value(bytes),
    ;

    /// A value is read only from bytes that start with its encoding.
    proof fn lemma_parse_reads_encoding(bytes: Seq<u8>)
        requires
            Self::parse_value(bytes) is Some,
        ensures
            Self::encode_value(Self::parse_value(bytes)->Some_0).len() <= bytes.len(),
            bytes.subrange(0, Self::encode_value(Self::parse_value(bytes)->Some_0).len() as int)
                == Self::encode_value(Self::parse_value(bytes)->Some_0),
    ;
}

/// A success payload that a contract call can declare, with the two ways of
/// reading it from output bytes.
pub trait ContractOutput: Payload {
    /// Reads `Result<Self, LangError>` with at most `limit` levels of nesting.
    fn decode_within(bytes: &[u8], limit: u32) -> (r: Result<Result<Self, LangError>, DecodeError>)
        ensures
            r == decode_result(decoded_within::<Self>(bytes@, limit as int)),
    ;

    /// Reads `Result<Self, LangError>` with no bound on nesting.
    fn decode_unbounded(bytes: &[u8]) -> (r: Result<Result<Self, LangError>, DecodeError>)
        ensures
            r == decode_result(parse_outcome::<Self>(bytes@)),
    ;
}

/// The error code after the variant byte: eight little-endian bytes.
pub open spec fn parse_lang_error(rest: Seq<u8>) -> Option<LangError> {
    if rest.len() >= 8 {
        Some(le_value(rest.subrange(0, 8)) as u64)
    } else {
        None
    }
}

/// The value that the leading bytes of `bytes` encode as
/// `Result<T, LangError>`: a variant byte, 0 for `Ok` and 1 for `Err`, then the
/// payload. Trailing bytes are not read.
pub open spec fn parse_outcome<T: Payload>(bytes: Seq<u8>) -> Option<Result<T, LangError>> {
    if bytes.len() == 0 {
        None
    } else if bytes[0] == 0 {
        match T::parse_value(bytes.drop_first()) {
            Some(v) => Some(Ok(v)),
            None => None,
        }
    } else if bytes[0] == 1 {
        match parse_lang_error(bytes.drop_first()) {
            Some(e) => Some(Err(e)),
            None => None,
        }
    } else {
        None
    }
}

/// What reading `bytes` with at most `limit` levels of nesting yields.
pub open spec fn decoded_within<T: Payload>(bytes: Seq<u8>, limit: int) -> Option<Result<T, LangError>> {
    if T::nesting() <= limit {
        parse_outcome::<T>(bytes)
    } else {
        None
    }
}

/// The bytes that encode `Result<T, LangError>`: the variant byte, then the
/// payload, or the error code as eight little-endian bytes.
pub open spec fn encode_outcome<T: Payload>(v: Result<T, LangError>) -> Seq<u8> {
    match v {
        Ok(t) => seq![0u8] + T::encode_value(t),
        Err(e) => seq![1u8] + le_bytes(e as nat, 8),
    }
}

/// Reading the encoding of a result, with a limit no lower than the nesting
/// that its type needs, gives the result back; so does reading it with no
/// limit. Trailing bytes are not read.
pub proof fn lemma_round_trip<T: Payload>(v: Result<T, LangError>, rest: Seq<u8>, limit: int)
    requires
        T::nesting() <= limit,
    ensures
        decoded_within::<T>(encode_outcome(v) + rest, limit) == Some(v),
        parse_outcome::<T>(encode_outcome(v) + rest) == Some(v),
{
    let bytes = encode_outcome(v) + rest;
    match v {
        Ok(t) => {
            assert(bytes.drop_first() =~= T::encode_value(t) + rest);
            T::lemma_parse_encoded(t, rest);
        },
        Err(e) => {
            reveal_with_fuel(pow256, 9);
            assert(pow256(8) == 0x1_0000_0000_0000_0000);
            lemma_le_round_trip(e as nat, 8);
            assert(bytes.drop_first().subrange(0, 8) =~= le_bytes(e as nat, 8));
        },
    }
}

/// Reading a result stops at its end: bytes after it change nothing, with a
/// limit or without one.
pub proof fn lemma_outcome_ignores_trailing<T: Payload>(bytes: Seq<u8>, rest: Seq<u8>, limit: int)
    requires
        parse_outcome::<T>(bytes) is Some,
    ensures
        parse_outcome::<T>(bytes + rest) == parse_outcome::<T>(bytes),
        decoded_within::<T>(bytes + rest, limit) == decoded_within::<T>(bytes, limit),
{
    let all = bytes + rest;
    assert(all[0] == bytes[0]);
    assert(all.drop_first() =~= bytes.drop_first() + rest);
    if bytes[0] == 0 {
        T::lemma_parse_ignores_trailing(bytes.drop_first(), rest);
    } else {
        assert(all.drop_first().subrange(0, 8) =~= bytes.drop_first().subrange(0, 8));
    }
}

/// A result is read only from bytes that start with its encoding.
pub proof fn lemma_outcome_reads_encoding<T: Payload>(bytes: Seq<u8>)
    requires
        parse_outcome::<T>(bytes) is Some,
    ensures
        encode_outcome(parse_outcome::<T>(bytes)->Some_0).len() <= bytes.len(),
        bytes.subrange(0, encode_outcome(parse_outcome::<T>(bytes)->Some_0).len() as int)
            == encode_outcome(parse_outcome::<T>(bytes)->Some_0),
{
    let v = parse_outcome::<T>(bytes)->Some_0;
    let enc = encode_outcome(v);
    let tail = bytes.drop_first();
    if bytes[0] == 0 {
        T::lemma_parse_reads_encoding(tail);
        let t = T::parse_value(tail)->Some_0;
        let n = T::encode_value(t).len() as int;
        assert(bytes.subrange(0, n + 1) =~= seq![0u8] + tail.subrange(0, n));
    } else {
        let b = tail.subrange(0, 8);
        lemma_le_value_bytes(b);
        reveal_with_fuel(pow256, 9);
        assert(pow256(8) == 0x1_0000_0000_0000_0000);
        assert((le_value(b) as u64) as nat == le_value(b));
        assert(bytes.subrange(0, 9) =~= seq![1u8] + b);
    }
}

/// A buffer cut short of the whole encoding of a result is never read as a
/// result, with a limit or without one.
pub proof fn lemma_truncated_fails<T: Payload>(v: Result<T, LangError>, bytes: Seq<u8>, limit: int)
    requires
        bytes.len() < encode_outcome(v).len(),
        bytes == encode_outcome(v).subrange(0, bytes.len() as int),
    ensures
        parse_outcome::<T>(bytes) is None,
        decoded_within::<T>(bytes, limit) is None,
{
    let enc = encode_outcome(v);
    if parse_outcome::<T>(bytes) is Some {
        let w = parse_outcome::<T>(bytes)->Some_0;
        lemma_outcome_reads_encoding::<T>(bytes);
        let ew = encode_outcome(w);
        let rest = enc.subrange(ew.len() as int, enc.len() as int);
        assert(enc =~= ew + rest);
        lemma_round_trip::<T>(w, rest, T::nesting() as int);
        lemma_round_trip::<T>(v, Seq::empty(), T::nesting() as int);
        assert(enc + Seq::<u8>::empty() =~= enc);
    }
}

/// Reading with a limit below the nesting that the type needs fails on every
/// input; with a limit at or above it, it gives what reading with no limit
/// gives.
pub proof fn lemma_depth_limit<T: Payload>(bytes: Seq<u8>, limit: int)
    ensures
        limit < T::nesting() ==> decoded_within::<T>(bytes, limit) is None,
        limit >= T::nesting() ==> decoded_within::<T>(bytes, limit) == parse_outcome::<T>(bytes),
{
}

impl Payload for () {
    open spec fn parse_value(bytes: Seq<u8>) -> Option<()> {
        Some(())
    }

    open spec fn nesting() -> nat {
        0
    }

    open spec fn encode_value(v: ()) -> Seq<u8> {
        Seq::empty()
    }

    proof fn lemma_parse_encoded(v: (), rest: Seq<u8>) {
    }

    proof fn lemma_parse_ignores_trailing(bytes: Seq<u8>, rest: Seq<u8>) {
    }

    proof fn lemma_parse_reads_encoding(bytes: Seq<u8>) {
        assert(bytes.subrange(0, 0) =~= Seq::<u8>::empty());
    }
}

impl ContractOutput for () {
    fn decode_within(bytes: &[u8], limit: u32) -> (r: Result<Result<(), LangError>, DecodeError>) {
        match scale_decode_unit_within(bytes, limit) {
            Ok(v) => Ok(v),
            Err(_) => Err(DecodeError),
        }
    }

    fn decode_unbounded(bytes: &[u8]) -> (r: Result<Result<(), LangError>, DecodeError>) {
        match scale_decode_unit(bytes) {
            Ok(v) => Ok(v),
            Err(_) => Err(DecodeError),
        }
    }
}

impl Payload for Result<(), ()> {
    open spec fn parse_value(bytes: Seq<u8>) -> Option<Result<(), ()>> {
        if bytes.len() == 0 {
            None
        } else if bytes[0] == 0 {
            Some(Ok(()))
        } else if bytes[0] == 1 {
            Some(Err(()))
        } else {
            None
        }
    }

    open spec fn nesting() -> nat {
        0
    }

    open spec fn encode_value(v: Result<(), ()>) -> Seq<u8> {
        match v {
            Ok(()) => seq![0u8],
            Err(()) => seq![1u8],
        }
    }

    proof fn lemma_parse_encoded(v: Result<(), ()>, rest: Seq<u8>) {
        let bytes = Self::encode_value(v) + rest;
        assert(bytes[0] == Self::encode_value(v)[0]);
        match v {
            Ok(u) => assert(u == ()),
            Err(u) => assert(u == ()),
        }
    }

    proof fn lemma_parse_ignores_trailing(bytes: Seq<u8>, rest: Seq<u8>) {
        assert((bytes + rest)[0] == bytes[0]);
    }

    proof fn lemma_parse_reads_encoding(bytes: Seq<u8>) {
        assert(bytes.subrange(0, 1) =~= seq![bytes[0]]);
    }
}

impl ContractOutput for Result<(), ()> {
    fn decode_within(bytes: &[u8], limit: u32) -> (r: Result<Result<Result<(), ()>, LangError>, DecodeError>) {
        match scale_decode_flag_within(bytes, limit) {
            Ok(v) => Ok(v),
            Err(_) => Err(DecodeError),
        }
    }

    fn decode_unbounded(bytes: &[u8]) -> (r: Result<Result<Result<(), ()>, LangError>, DecodeError>) {
        match scale_decode_flag(bytes) {
            Ok(v) => Ok(v),
            Err(_) => Err(DecodeError),
        }
    }
}

} // verus!
