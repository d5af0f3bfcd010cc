use mibpf_vm::fletcher::{
    checksum_data_size, Fletcher16NativeHandler, COAP_BAD_REQUEST, COAP_CHANGED,
};
use mibpf_vm::textfmt::{
    format_execution_response, format_worker_report, i64_to_decimal, u64_to_decimal,
};

#[test]
fn unsigned_decimal_formatting() {
    assert_eq!(u64_to_decimal(0), "0");
    assert_eq!(u64_to_decimal(7), "7");
    assert_eq!(u64_to_decimal(42), "42");
    assert_eq!(u64_to_decimal(12345), "12345");
    assert_eq!(u64_to_decimal(u64::MAX), "18446744073709551615");
}

#[test]
fn signed_decimal_formatting() {
    assert_eq!(i64_to_decimal(0), "0");
    assert_eq!(i64_to_decimal(42), "42");
    assert_eq!(i64_to_decimal(-42), "-42");
    assert_eq!(i64_to_decimal(i64::MIN), "-9223372036854775808");
    assert_eq!(i64_to_decimal(i64::MAX), "9223372036854775807");
}

#[test]
fn execution_response_shape() {
    assert_eq!(
        format_execution_response(0, 42),
        "{\"execution_time\": 0, \"result\": 42}"
    );
    assert_eq!(
        format_execution_response(1234, -5),
        "{\"execution_time\": 1234, \"result\": -5}"
    );
}

#[test]
fn worker_report_shape() {
    assert_eq!(format_worker_report(9, 42), "Execution_time: 9, result: 42");
    assert_eq!(format_worker_report(0, -1), "Execution_time: 0, result: -1");
}

#[test]
fn checksum_sizes_double_per_helper() {
    assert_eq!(checksum_data_size(0), None);
    assert_eq!(checksum_data_size(1), Some(80));
    assert_eq!(checksum_data_size(2), Some(160));
    assert_eq!(checksum_data_size(3), Some(320));
    assert_eq!(checksum_data_size(4), Some(640));
    assert_eq!(checksum_data_size(5), Some(1280));
    assert_eq!(checksum_data_size(6), Some(2560));
    assert_eq!(checksum_data_size(7), None);
}

#[test]
fn coap_codes_match_the_protocol_numbers() {
    assert_eq!(COAP_CHANGED, coap_numbers::code::CHANGED);
    assert_eq!(COAP_BAD_REQUEST, coap_numbers::code::BAD_REQUEST);
}

#[test]
fn fletcher_handler_plans_and_reports() {
    let mut handler = Fletcher16NativeHandler::new();
    assert_eq!(handler.execution_time, 0);
    assert_eq!(handler.result, 0);

    // Three allowed helpers encode a 320-byte checksum input.
    assert_eq!(handler.plan_request(&[0, 0, 0, 0, 1, 2, 3]), Ok(320));
    // No helper count that encodes a size, or a payload that does not
    // decode, is a bad request.
    assert_eq!(handler.plan_request(&[0, 0, 0, 0]), Err(COAP_BAD_REQUEST));
    assert_eq!(handler.plan_request(&[9, 0, 0, 0, 1]), Err(COAP_BAD_REQUEST));
    assert_eq!(handler.plan_request(&[1, 2]), Err(COAP_BAD_REQUEST));

    handler.record_measurement(100, 350, 0x2a);
    assert_eq!(handler.execution_time, 250);
    assert_eq!(handler.result, 42);
    assert_eq!(handler.estimate_length(), 1);
    assert_eq!(
        handler.build_response_payload(),
        "{\"execution_time\": 250, \"result\": 42}"
    );
}

#[test]
fn fletcher_timer_difference_wraps() {
    let mut handler = Fletcher16NativeHandler::new();
    handler.record_measurement(u32::MAX - 1, 2, 1);
    assert_eq!(handler.execution_time, 4);
}
