//! The payable message `trigger`.
use vstd::prelude::*;
use crate::call::{Balance, Call, GenericDecoder, IsMessage, OutputDecoder, PayableCall};
use crate::output::{decode_result, DecodeError};
use crate::wire::{bool_byte, encodable_str, le_u32, put_bool, put_str, put_u32, str_encoding};

verus! {

/// The selector of `trigger`.
pub const SELECTOR: u32 = 0xDEADBEEF;

/// The input bytes of `trigger`: the selector, then the arguments in order.
pub open spec fn spec_input(native_value: Balance, trigger_value: bool, msg: Seq<char>) -> Seq<u8> {
    le_u32(SELECTOR) + le_u32(native_value) + seq![bool_byte(trigger_value)] + str_encoding(msg)
}

/// Builds the call. The native value is moved along with the call and is
/// also the first argument passed to the contract.
pub fn call(native_value: Balance, trigger_value: bool, msg: &str) -> (r: impl Call<(), Decoder = GenericDecoder> + IsMessage)
    requires
        encodable_str(msg@),
    ensures
        r.spec_native_value() == native_value,
        r.spec_input_data() == spec_input(native_value, trigger_value, msg@),
{
    let mut input_data: Vec<u8> = Vec::new();
    put_u32(SELECTOR, &mut input_data);
    put_u32(native_value, &mut input_data);
    put_bool(trigger_value, &mut input_data);
    put_str(msg, &mut input_data);
    PayableCall::new::<()>(native_value, input_data)
}

/// The decoder of what `trigger` returns, where only decoding is needed.
pub fn output_decoder() -> (r: GenericDecoder) {
    GenericDecoder
}

/// Reads the output of `trigger` with `D`, stopping beyond
/// `decode_complexity_limit` levels of nesting.
pub fn decode_output<D: OutputDecoder<()>>(output_data: &[u8], decode_complexity_limit: u32) -> (r: Result<D::Output, DecodeError>)
    ensures
        r == decode_result(D::spec_decoded(output_data@, Some(decode_complexity_limit))),
{
    D::decode_output(output_data, decode_complexity_limit)
}

/// Reads the output of `trigger` with `D`, with no bound on nesting.
pub fn decode_output_unsafe_unbounded<D: OutputDecoder<()>>(output_data: &[u8]) -> (r: Result<D::Output, DecodeError>)
    ensures
        r == decode_result(D::spec_decoded(output_data@, None)),
{
    D::decode_output_unsafe_unbounded(output_data)
}

} // verus!
