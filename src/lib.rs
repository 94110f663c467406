//! Typed calls into contracts whose runtime speaks only in bytes: building the
//! input of a call, restricting by capability where it may be used, and
//! reading the output back into typed results.
use vstd::prelude::*;

pub mod call;
pub mod dispatch;
pub mod output;
pub mod transfer;
pub mod trigger;
pub mod wire;
pub mod with_trigger_value;

use crate::call::Balance;
use crate::wire::le_u32;

verus! {

/// Every call that a leaf builder makes starts with that builder's selector,
/// and no two builders start their calls with the same four bytes.
pub proof fn lemma_selectors_distinct(
    native_value: Balance,
    trigger_value: bool,
    msg: Seq<char>,
    from: Seq<char>,
    to: Seq<char>,
    amount: Balance,
    initial_value: bool,
)
    ensures
        trigger::spec_input(native_value, trigger_value, msg).subrange(0, 4) == le_u32(trigger::SELECTOR),
        transfer::spec_input(from, to, amount).subrange(0, 4) == le_u32(transfer::SELECTOR),
        with_trigger_value::spec_input(initial_value).subrange(0, 4) == le_u32(with_trigger_value::SELECTOR),
        trigger::spec_input(native_value, trigger_value, msg).subrange(0, 4)
            != transfer::spec_input(from, to, amount).subrange(0, 4),
        trigger::spec_input(native_value, trigger_value, msg).subrange(0, 4)
            != with_trigger_value::spec_input(initial_value).subrange(0, 4),
        transfer::spec_input(from, to, amount).subrange(0, 4)
            != with_trigger_value::spec_input(initial_value).subrange(0, 4),
{
    let a = trigger::spec_input(native_value, trigger_value, msg);
    let b = transfer::spec_input(from, to, amount);
    let c = with_trigger_value::spec_input(initial_value);
    assert(a.subrange(0, 4) =~= le_u32(trigger::SELECTOR));
    assert(b.subrange(0, 4) =~= le_u32(transfer::SELECTOR));
    assert(c.subrange(0, 4) =~= le_u32(with_trigger_value::SELECTOR));
    assert(le_u32(trigger::SELECTOR)[0] == 0xEF);
    assert(le_u32(transfer::SELECTOR)[0] == 0x02);
    assert(le_u32(with_trigger_value::SELECTOR)[0] == 0x0D);
}

} // verus!
