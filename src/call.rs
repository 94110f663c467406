//! Call values, the capability tags that restrict where they may be used, and
//! the decoder that reads what a call returns.
use vstd::prelude::*;
use crate::output::{decode_result, decoded_within, parse_outcome, ContractOutput, DecodeError, LangError};

verus! {

/// The amount of native currency moved along with a call.
pub type Balance = u32;

/// A call ready to hand to the runtime, whose success payload is `T`.
pub trait Call<T> {
    /// Reads the output of the call.
    type Decoder: OutputDecoder<T>;

    /// The native value moved along with the call.
    spec fn spec_native_value(&self) -> Balance;

    /// The input bytes passed to the contract: a selector, then the arguments.
    spec fn spec_input_data(&self) -> Seq<u8>;

    /// Not part of the input: it is passed to the runtime beside it.
    fn native_value(&self) -> (r: Balance)
        ensures
            r == self.spec_native_value(),
    ;

    /// Gives up the call for the input bytes that are passed to the contract
    /// as they are.
    fn into_input_data(self) -> (r: Vec<u8>)
        ensures
            r@ == self.spec_input_data(),
    ;
}

/// Reads the bytes that a contract returns.
pub trait OutputDecoder<T> {
    /// What a read yields: the payload, or the contract's own error.
    type Output;

    /// What `bytes` yield when read with at most `limit` levels of nesting,
    /// or with no bound where `limit` is `None`.
    spec fn spec_decoded(bytes: Seq<u8>, limit: Option<u32>) -> Option<Self::Output>;

    /// Reads the output of a contract, which may be hostile: reading stops
    /// with an error beyond `decode_complexity_limit` levels of nesting.
    fn decode_output(output_data: &[u8], decode_complexity_limit: u32) -> (r: Result<Self::Output, DecodeError>)
        ensures
            r == decode_result(Self::spec_decoded(output_data@, Some(decode_complexity_limit))),
    ;

    /// Reads the output of a trusted contract, with no bound on nesting.
    fn decode_output_unsafe_unbounded(output_data: &[u8]) -> (r: Result<Self::Output, DecodeError>)
        ensures
            r == decode_result(Self::spec_decoded(output_data@, None)),
    ;
}

/// Capability tag: the call invokes a message of an existing instance.
pub trait IsMessage {}

/// Capability tag: the call creates a new instance.
pub trait IsConstructor {}

/// A call that moves native value along.
pub(crate) struct PayableCall {
    native_value: Balance,
    input_data: Vec<u8>,
}

impl PayableCall {
    pub(crate) fn new<T: ContractOutput>(native_value: Balance, input_data: Vec<u8>) -> (r: PayableCall)
        ensures
            <PayableCall as Call<T>>::spec_native_value(&r) == native_value,
            <PayableCall as Call<T>>::spec_input_data(&r) == input_data@,
    {
        PayableCall { native_value, input_data }
    }
}

impl<T: ContractOutput> Call<T> for PayableCall {
    type Decoder = GenericDecoder;

    closed spec fn spec_native_value(&self) -> Balance {
        self.native_value
    }

    closed spec fn spec_input_data(&self) -> Seq<u8> {
        self.input_data@
    }

    fn native_value(&self) -> (r: Balance) {
        self.native_value
    }

    fn into_input_data(self) -> (r: Vec<u8>) {
        self.input_data
    }
}

// Each leaf builder names only the tag that applies to it.
impl IsMessage for PayableCall {}

impl IsConstructor for PayableCall {}

/// A call that moves no native value.
pub(crate) struct UnpayableCall {
    input_data: Vec<u8>,
}

impl UnpayableCall {
    pub(crate) fn new<T: ContractOutput>(input_data: Vec<u8>) -> (r: UnpayableCall)
        ensures
            <UnpayableCall as Call<T>>::spec_native_value(&r) == 0,
            <UnpayableCall as Call<T>>::spec_input_data(&r) == input_data@,
    {
        UnpayableCall { input_data }
    }
}

impl<T: ContractOutput> Call<T> for UnpayableCall {
    type Decoder = GenericDecoder;

    closed spec fn spec_native_value(&self) -> Balance {
        0
    }

    closed spec fn spec_input_data(&self) -> Seq<u8> {
        self.input_data@
    }

    fn native_value(&self) -> (r: Balance) {
        0
    }

    fn into_input_data(self) -> (r: Vec<u8>) {
        self.input_data
    }
}

impl IsMessage for UnpayableCall {}

impl IsConstructor for UnpayableCall {}

/// Reads `Result<T, LangError>`: the contract always reserves a channel for
/// its own error, apart from the framing of the bytes.
pub struct GenericDecoder;

impl<T: ContractOutput> OutputDecoder<T> for GenericDecoder {
    type Output = Result<T, LangError>;

    open spec fn spec_decoded(bytes: Seq<u8>, limit: Option<u32>) -> Option<Result<T, LangError>> {
        match limit {
            Some(l) => decoded_within::<T>(bytes, l as int),
            None => parse_outcome::<T>(bytes),
        }
    }

    // Trailing bytes after the value are not an error, as for calls between
    // contracts.
    fn decode_output(output_data: &[u8], decode_complexity_limit: u32) -> (r: Result<Result<T, LangError>, DecodeError>) {
        T::decode_within(output_data, decode_complexity_limit)
    }

    fn decode_output_unsafe_unbounded(output_data: &[u8]) -> (r: Result<Result<T, LangError>, DecodeError>) {
        T::decode_unbounded(output_data)
    }
}

} // verus!
