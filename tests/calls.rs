use contract_call::call::{Call, GenericDecoder, OutputDecoder};
use contract_call::dispatch::{call, instantiate, DECODE_COMPLEXITY_LIMIT};
use contract_call::output::{ContractOutput, DecodeError};
use contract_call::{transfer, with_trigger_value};

#[test]
fn trigger_input_starts_with_selector_then_arguments() {
    let c = contract_call::trigger::call(0, true, "hello");
    assert_eq!(Call::<()>::native_value(&c), 0);
    let input = Call::<()>::into_input_data(c);
    assert_eq!(
        input,
        vec![0xEF, 0xBE, 0xAD, 0xDE, 0, 0, 0, 0, 1, 20, b'h', b'e', b'l', b'l', b'o']
    );
}

#[test]
fn trigger_carries_native_value() {
    let c = contract_call::trigger::call(7, false, "");
    assert_eq!(Call::<()>::native_value(&c), 7);
    let input = Call::<()>::into_input_data(c);
    assert_eq!(input, vec![0xEF, 0xBE, 0xAD, 0xDE, 7, 0, 0, 0, 0, 0]);
}

#[test]
fn constructor_input_starts_with_selector() {
    let c = with_trigger_value::new(false);
    assert_eq!(Call::<()>::native_value(&c), 0);
    assert_eq!(Call::<()>::into_input_data(c), vec![0x0D, 0xF0, 0xAD, 0xBA, 0]);
}

#[test]
fn transfer_input_encodes_accounts_and_amount() {
    let c = transfer::call(&"alice".to_string(), &"bob".to_string(), &9_000);
    assert_eq!(Call::<Result<(), ()>>::native_value(&c), 0);
    let input = Call::<Result<(), ()>>::into_input_data(c);
    assert_eq!(
        input,
        vec![
            0x02, 0xB0, 0xAD, 0x1B, 20, b'a', b'l', b'i', b'c', b'e', 12, b'b', b'o', b'b', 0x28,
            0x23, 0, 0
        ]
    );
}

#[test]
fn selectors_of_builders_differ() {
    let a = Call::<()>::into_input_data(contract_call::trigger::call(1, true, "x"));
    let b = Call::<Result<(), ()>>::into_input_data(transfer::call(
        &"x".to_string(),
        &"y".to_string(),
        &1,
    ));
    let c = Call::<()>::into_input_data(with_trigger_value::new(true));
    assert_ne!(a[..4], b[..4]);
    assert_ne!(a[..4], c[..4]);
    assert_ne!(b[..4], c[..4]);
}

#[test]
fn lang_error_inside_framed_response() {
    let bytes = [1u8, 7, 0, 0, 0, 0, 0, 0, 0];
    let r = <GenericDecoder as OutputDecoder<Result<(), ()>>>::decode_output(&bytes, 255);
    assert_eq!(r, Ok(Err(7)));
    let u = <GenericDecoder as OutputDecoder<Result<(), ()>>>::decode_output_unsafe_unbounded(&bytes);
    assert_eq!(u, Ok(Err(7)));
}

#[test]
fn lang_error_is_little_endian() {
    let bytes = [1u8, 0x01, 0x02, 0, 0, 0, 0, 0, 0x80];
    let r = <() as ContractOutput>::decode_unbounded(&bytes);
    assert_eq!(r, Ok(Err(0x8000_0000_0000_0201)));
}

#[test]
fn truncated_output_fails_both_ways() {
    let cases: [&[u8]; 4] = [&[], &[1], &[1, 7, 0, 0], &[0]];
    for bytes in cases {
        let b = <GenericDecoder as OutputDecoder<Result<(), ()>>>::decode_output(bytes, 255);
        let u = <GenericDecoder as OutputDecoder<Result<(), ()>>>::decode_output_unsafe_unbounded(bytes);
        assert_eq!(b, Err(DecodeError));
        assert_eq!(u, Err(DecodeError));
    }
    assert_eq!(contract_call::trigger::decode_output::<GenericDecoder>(&[], 255), Err(DecodeError));
    assert_eq!(contract_call::trigger::decode_output_unsafe_unbounded::<GenericDecoder>(&[1, 0]), Err(DecodeError));
}

#[test]
fn unknown_variant_byte_fails() {
    assert_eq!(<() as ContractOutput>::decode_within(&[2], 255), Err(DecodeError));
    assert_eq!(<Result<(), ()> as ContractOutput>::decode_within(&[0, 2], 255), Err(DecodeError));
}

#[test]
fn round_trip_of_ok_values() {
    assert_eq!(contract_call::trigger::decode_output::<GenericDecoder>(&[0], 255), Ok(Ok(())));
    assert_eq!(
        <Result<(), ()> as ContractOutput>::decode_within(&[0, 0], 255),
        Ok(Ok(Ok(())))
    );
    assert_eq!(
        <Result<(), ()> as ContractOutput>::decode_within(&[0, 1], 255),
        Ok(Ok(Err(())))
    );
    let e: u64 = 0x0102_0304_0506_0708;
    let mut bytes = vec![1u8];
    bytes.extend_from_slice(&e.to_le_bytes());
    assert_eq!(<() as ContractOutput>::decode_within(&bytes, 255), Ok(Err(e)));
}

#[test]
fn trailing_bytes_are_not_read() {
    assert_eq!(
        <Result<(), ()> as ContractOutput>::decode_within(&[0, 0, 99, 98], 255),
        Ok(Ok(Ok(())))
    );
    assert_eq!(<() as ContractOutput>::decode_unbounded(&[0, 5]), Ok(Ok(())));
}

#[test]
fn limit_zero_matches_unbounded() {
    let inputs: [&[u8]; 4] = [&[0, 1], &[1, 9, 0, 0, 0, 0, 0, 0, 0], &[3], &[0]];
    for bytes in inputs {
        let b = <GenericDecoder as OutputDecoder<Result<(), ()>>>::decode_output(bytes, 0);
        let u = <GenericDecoder as OutputDecoder<Result<(), ()>>>::decode_output_unsafe_unbounded(bytes);
        assert_eq!(b, u);
    }
}

fn read_with<D: OutputDecoder<()>>(_decoder: &D, bytes: &[u8], limit: u32) -> Result<D::Output, DecodeError> {
    D::decode_output(bytes, limit)
}

#[test]
fn output_decoder_reads_unit_payload() {
    let d = contract_call::trigger::output_decoder();
    assert_eq!(read_with(&d, &[1, 3, 0, 0, 0, 0, 0, 0, 0], 1), Ok(Err(3)));
    assert_eq!(read_with(&d, &[0, 9], 0), Ok(Ok(())));
    assert_eq!(read_with(&d, &[1, 3, 0], 255), Err(DecodeError));
}

#[test]
fn long_string_gets_two_byte_length() {
    let msg = "a".repeat(64);
    let input = Call::<()>::into_input_data(contract_call::trigger::call(0, false, &msg));
    assert_eq!(&input[9..11], &[0x01, 0x01]);
    assert_eq!(input.len(), 11 + 64);
}

#[test]
fn multibyte_string_length_counts_bytes() {
    let input = Call::<()>::into_input_data(contract_call::trigger::call(0, false, "\u{e9}"));
    assert_eq!(&input[9..], &[8, 0xC3, 0xA9]);
}

#[test]
fn constructor_truncated_output_keeps_address() {
    let ex = instantiate(1, with_trigger_value::new(true));
    let (addr, out) = ex.instantiated("fresh".to_string(), &[1, 0, 0]);
    assert_eq!(addr, "fresh");
    assert_eq!(out, Err(DecodeError));
}

#[test]
fn dispatch_message_and_read_output() {
    let ex = call(
        "my_contract".to_string(),
        200,
        transfer::call(&"alice".to_string(), &"bob".to_string(), &9_000),
    );
    assert_eq!(ex.target, Some("my_contract".to_string()));
    assert_eq!(ex.gas_limit, 200);
    assert_eq!(ex.native_value, 0);
    assert_eq!(&ex.input_data[..4], &[0x02, 0xB0, 0xAD, 0x1B]);
    assert_eq!(ex.decode_output(&[0, 1]), Ok(Ok(Err(()))));
    assert_eq!(ex.decode_output(&[]), Err(DecodeError));
    assert_eq!(DECODE_COMPLEXITY_LIMIT, 255);
}

#[test]
fn dispatch_payable_message() {
    let ex = call("c".to_string(), 10, contract_call::trigger::call(42, true, "go"));
    assert_eq!(ex.native_value, 42);
    assert_eq!(&ex.input_data[4..8], &[42, 0, 0, 0]);
}

#[test]
fn dispatch_constructor_and_read_output() {
    let ex = instantiate(500, with_trigger_value::new(false));
    assert_eq!(ex.target, None);
    assert_eq!(ex.gas_limit, 500);
    assert_eq!(ex.native_value, 0);
    assert_eq!(ex.input_data, vec![0x0D, 0xF0, 0xAD, 0xBA, 0]);
    let (addr, out) = ex.instantiated("my_contract".to_string(), &[0]);
    assert_eq!(addr, "my_contract");
    assert_eq!(out, Ok(Ok(())));
}
