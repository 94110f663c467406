//! The constructor `with_trigger_value`.
use vstd::prelude::*;
use crate::call::{Call, GenericDecoder, IsConstructor, UnpayableCall};
use crate::wire::{bool_byte, le_u32, put_bool, put_u32};

verus! {

/// The selector of `with_trigger_value`.
pub const SELECTOR: u32 = 0xBAADF00D;

/// The input bytes of `with_trigger_value`: the selector, then the argument.
pub open spec fn spec_input(trigger_value: bool) -> Seq<u8> {
    le_u32(SELECTOR).push(bool_byte(trigger_value))
}

/// Builds the call that creates an instance. It can be handed only to
/// `instantiate`.
pub fn new(trigger_value: bool) -> (r: impl Call<(), Decoder = GenericDecoder> + IsConstructor)
    ensures
        r.spec_native_value() == 0,
        r.spec_input_data() == spec_input(trigger_value),
{
    let mut input_data: Vec<u8> = Vec::new();
    put_u32(SELECTOR, &mut input_data);
    put_bool(trigger_value, &mut input_data);
    UnpayableCall::new::<()>(input_data)
}

} // verus!
