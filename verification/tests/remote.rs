use flowmon::constants::{
    REG_STATE, REG_TARGET_FLOW, STATE_OFF, STATE_ON, STATUS_POLL_REG_COUNT, STATUS_POLL_REG_START,
};
use flowmon::errors::TransportError;
use flowmon::remote::{
    build_read_holding_request, build_write_single_request, parse_read_holding_response,
    parse_write_single_response, remote_write_for_command, validate_response_header,
    FUNC_READ_HOLDING_REGISTERS, FUNC_WRITE_SINGLE_REGISTER,
};
use flowmon::rtu::append_crc;
use flowmon::transport::TransportCommand;

#[test]
fn builds_standard_read_holding_request_frame() {
    let frame = build_read_holding_request(0x02, STATUS_POLL_REG_START, STATUS_POLL_REG_COUNT)
        .expect("frame should build");
    assert_eq!(frame[0], 0x02);
    assert_eq!(frame[1], FUNC_READ_HOLDING_REGISTERS);
    assert_eq!(frame[2], 0x00);
    assert_eq!(frame[3], 0x00);
    assert_eq!(frame[4], 0x00);
    assert_eq!(frame[5], STATUS_POLL_REG_COUNT as u8);
    assert_eq!(frame.len(), 8);
}

#[test]
fn parses_standard_read_holding_response_values() {
    let mut payload = Vec::new();
    payload.extend_from_slice(&1u16.to_be_bytes());
    payload.extend_from_slice(&70u16.to_be_bytes());
    let mut frame = vec![0x02, FUNC_READ_HOLDING_REGISTERS, 4];
    frame.extend_from_slice(&payload);
    let frame = append_crc(&frame);

    let regs = parse_read_holding_response(&frame, 0x02, 2).expect("response should parse");
    assert_eq!(regs, vec![1, 70]);
}

#[test]
fn rejects_exception_read_response() {
    let frame = append_crc(&[0x02, FUNC_READ_HOLDING_REGISTERS | 0x80, 0x02]);
    let err = parse_read_holding_response(&frame, 0x02, 2).expect_err("should fail");
    assert!(err.message().contains("function mismatch"));
}

#[test]
fn builds_and_parses_write_single_register_frames() {
    let request = build_write_single_request(0x02, REG_TARGET_FLOW, 65);
    assert_eq!(request[0], 0x02);
    assert_eq!(request[1], FUNC_WRITE_SINGLE_REGISTER);

    let response = append_crc(&[
        0x02,
        FUNC_WRITE_SINGLE_REGISTER,
        0x00,
        REG_TARGET_FLOW as u8,
        0x00,
        65,
    ]);
    parse_write_single_response(&response, 0x02, REG_TARGET_FLOW, 65)
        .expect("write response should parse");
}

#[test]
fn write_echo_mismatch_is_rejected() {
    let response = append_crc(&[
        0x02,
        FUNC_WRITE_SINGLE_REGISTER,
        0x00,
        REG_TARGET_FLOW as u8,
        0x00,
        66,
    ]);
    let err = parse_write_single_response(&response, 0x02, REG_TARGET_FLOW, 65)
        .expect_err("wrong echoed value should fail");
    assert!(err.message().contains("echo mismatch"));
}

#[test]
fn maps_power_command_to_state_register() {
    assert_eq!(
        remote_write_for_command(&TransportCommand::SetPower(true)),
        Some((REG_STATE, STATE_ON))
    );
    assert_eq!(
        remote_write_for_command(&TransportCommand::SetPower(false)),
        Some((REG_STATE, STATE_OFF))
    );
}

#[test]
fn maps_target_flow_command_to_target_register() {
    assert_eq!(
        remote_write_for_command(&TransportCommand::SetTargetFlow(75)),
        Some((REG_TARGET_FLOW, 75))
    );
}

#[test]
fn target_flow_is_clamped_to_protocol_bounds() {
    assert_eq!(
        remote_write_for_command(&TransportCommand::SetTargetFlow(999)),
        Some((REG_TARGET_FLOW, 100))
    );
    assert_eq!(
        remote_write_for_command(&TransportCommand::SetTargetFlow(5)),
        Some((REG_TARGET_FLOW, 30))
    );
}

#[test]
fn terminate_has_no_register_mapping() {
    assert_eq!(remote_write_for_command(&TransportCommand::Terminate), None);
}

#[test]
fn zero_quantity_reads_are_rejected() {
    let err = build_read_holding_request(0x02, 0, 0).expect_err("zero quantity should fail");
    assert_eq!(err, TransportError::QuantityZero);
}

#[test]
fn read_response_with_wrong_address_is_rejected() {
    let frame = append_crc(&[0x03, FUNC_READ_HOLDING_REGISTERS, 2, 0x00, 0x01]);
    let err = parse_read_holding_response(&frame, 0x02, 1).expect_err("wrong address should fail");
    assert_eq!(err, TransportError::AddressMismatch);
}

#[test]
fn read_response_with_wrong_byte_count_is_rejected() {
    let frame = append_crc(&[0x02, FUNC_READ_HOLDING_REGISTERS, 2, 0x00, 0x01]);
    let err = parse_read_holding_response(&frame, 0x02, 2).expect_err("wrong count should fail");
    assert_eq!(err, TransportError::ByteCountMismatch);
}

#[test]
fn read_response_with_inconsistent_length_is_rejected() {
    let frame = append_crc(&[0x02, FUNC_READ_HOLDING_REGISTERS, 2, 0x00, 0x01, 0x00]);
    let err = parse_read_holding_response(&frame, 0x02, 1).expect_err("bad length should fail");
    assert_eq!(err, TransportError::LengthMismatch);
}

#[test]
fn exception_header_carries_the_device_code() {
    let header = [0x02, FUNC_READ_HOLDING_REGISTERS | 0x80, 0x04];
    let err = validate_response_header(0x02, FUNC_READ_HOLDING_REGISTERS, &header)
        .expect_err("exception should fail");
    assert_eq!(err, TransportError::DeviceException { code: 0x04 });
    assert!(err.message().contains("device exception"));
}
