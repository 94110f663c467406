//! Handing a call to the runtime, and reading what it returns.
use vstd::prelude::*;
use core::marker::PhantomData;
use crate::call::{Balance, Call, IsConstructor, IsMessage, OutputDecoder};
use crate::output::{decode_result, DecodeError};

verus! {

/// The address of a contract instance.
pub type AccountId = String;

/// The nesting limit used to read outputs after dispatch. The output comes
/// from code the caller does not control, so it is always read with a bound.
pub const DECODE_COMPLEXITY_LIMIT: u32 = 255;

/// A request to the runtime: run `input_data` on `target`, or on a new
/// instance where `target` is `None`, with `native_value` moved along. `D`
/// reads what the run returns, whose payload is `T`.
pub struct Execution<T, D> {
    pub target: Option<AccountId>,
    pub gas_limit: u64,
    pub native_value: Balance,
    pub input_data: Vec<u8>,
    pub decoder: PhantomData<(T, D)>,
}

/// Takes a message call apart into what the runtime is handed to invoke it.
/// Only a call tagged as a message is accepted.
pub fn call<T, C: Call<T> + IsMessage>(contract_addr: AccountId, gas_limit: u64, c: C) -> (r: Execution<T, C::Decoder>)
    ensures
        r.target == Some(contract_addr),
        r.gas_limit == gas_limit,
        r.native_value == c.spec_native_value(),
        r.input_data@ == c.spec_input_data(),
{
    let native_value = c.native_value();
    let input_data = c.into_input_data();
    Execution { target: Some(contract_addr), gas_limit, native_value, input_data, decoder: PhantomData }
}

/// Takes a constructor call apart into what the runtime is handed to create an
/// instance. Only a call tagged as a constructor is accepted.
pub fn instantiate<T, C: Call<T> + IsConstructor>(gas_limit: u64, c: C) -> (r: Execution<T, C::Decoder>)
    ensures
        r.target is None,
        r.gas_limit == gas_limit,
        r.native_value == c.spec_native_value(),
        r.input_data@ == c.spec_input_data(),
{
    let native_value = c.native_value();
    let input_data = c.into_input_data();
    Execution { target: None, gas_limit, native_value, input_data, decoder: PhantomData }
}

impl<T, D: OutputDecoder<T>> Execution<T, D> {
    /// Reads what the runtime returned for this request, with the nesting
    /// bound `DECODE_COMPLEXITY_LIMIT`.
    pub fn decode_output(&self, output_data: &[u8]) -> (r: Result<D::Output, DecodeError>)
        ensures
            r == decode_result(D::spec_decoded(output_data@, Some(DECODE_COMPLEXITY_LIMIT))),
    {
        D::decode_output(output_data, DECODE_COMPLEXITY_LIMIT)
    }

    /// Pairs the address that the runtime gave a new instance with what its
    /// constructor returned, read as `decode_output` reads.
    pub fn instantiated(&self, address: AccountId, output_data: &[u8]) -> (r: (AccountId, Result<D::Output, DecodeError>))
        ensures
            r.0 == address,
            r.1 == decode_result(D::spec_decoded(output_data@, Some(DECODE_COMPLEXITY_LIMIT))),
    {
        (address, self.decode_output(output_data))
    }
}

} // verus!
