//! The message `transfer`, which moves no native value.
use vstd::prelude::*;
use crate::call::{Balance, Call, GenericDecoder, IsMessage, UnpayableCall};
use crate::dispatch::AccountId;
use crate::wire::{encodable_str, le_u32, put_str, put_u32, str_encoding};

verus! {

/// The selector of `transfer`.
pub const SELECTOR: u32 = 0x1BADB002;

/// The input bytes of `transfer`: the selector, then the arguments in order.
pub open spec fn spec_input(from: Seq<char>, to: Seq<char>, amount: Balance) -> Seq<u8> {
    le_u32(SELECTOR) + str_encoding(from) + str_encoding(to) + le_u32(amount)
}

/// Builds the call. `amount` is an argument passed to the contract, not native
/// value moved along with the call.
pub fn call(from: &AccountId, to: &AccountId, amount: &Balance) -> (r: impl Call<Result<(), ()>, Decoder = GenericDecoder> + IsMessage)
    requires
        encodable_str(from@),
        encodable_str(to@),
    ensures
        r.spec_native_value() == 0,
        r.spec_input_data() == spec_input(from@, to@, *amount),
{
    let mut input_data: Vec<u8> = Vec::new();
    put_u32(SELECTOR, &mut input_data);
    put_str(from.as_str(), &mut input_data);
    put_str(to.as_str(), &mut input_data);
    put_u32(*amount, &mut input_data);
    UnpayableCall::new::<Result<(), ()>>(input_data)
}

} // verus!
