use flowmon::constants::{
    REG_C_FILTER_LIMIT, REG_C_FILTER_TOTAL, REG_M_FILTER_LIMIT, REG_M_FILTER_TOTAL,
    REG_P_FILTER_LIMIT, REG_P_FILTER_TOTAL, REG_REAL_FLOW, REG_SPEED_RPM, REG_STATE,
    REG_STATUS_FLAGS, REG_TARGET_FLOW, REG_TUBE_DIAMETER, STATUS_POLL_REG_COUNT,
};
use flowmon::errors::TransportError;
use flowmon::exttool::{
    build_read_request, build_write_request, map_status_payload, parse_read_response,
    parse_write_response, validate_response_header, CMD_READ_STATUS, CMD_WRITE_COMMAND,
    IDX_C_FILTER_LIMIT, IDX_C_FILTER_TOTAL, IDX_M_FILTER_LIMIT, IDX_M_FILTER_TOTAL,
    IDX_P_FILTER_LIMIT, IDX_P_FILTER_TOTAL, IDX_REAL_FLOW, IDX_SPEED_RPM, IDX_STATE,
    IDX_TARGET_FLOW, STATUS_BYTE_COUNT, STATUS_START,
};
use flowmon::rtu::append_crc;

#[test]
fn builds_read_request_with_expected_shape() {
    let frame =
        build_read_request(0x01, STATUS_START, STATUS_BYTE_COUNT).expect("request should build");
    assert_eq!(frame[0], 0x01);
    assert_eq!(frame[1], CMD_READ_STATUS);
    assert_eq!(frame[2], STATUS_START);
    assert_eq!(frame[3], STATUS_BYTE_COUNT);
    assert_eq!(frame.len(), 6);
}

#[test]
fn write_request_requires_even_payload() {
    let err =
        build_write_request(0x01, IDX_TARGET_FLOW, &[0x00]).expect_err("odd payload should fail");
    assert!(err.message().contains("even-length"));
}

#[test]
fn write_request_rejects_out_of_range_end() {
    let payload = [0u8; 4];
    let err = build_write_request(0x01, 0x4E, &payload).expect_err("range end should fail");
    assert!(err.message().contains("invalid index range"));
}

#[test]
fn read_request_rejects_out_of_range_index() {
    assert!(build_read_request(0x01, 0x0F, 2).is_err());
    assert!(build_read_request(0x01, 0x4F, 2).is_err());
    assert!(build_read_request(0x01, 0x4F, 1).is_ok());
}

#[test]
fn parses_read_response_and_maps_fields() {
    let mut payload = vec![0u8; usize::from(STATUS_BYTE_COUNT)];
    set_u16(&mut payload, IDX_REAL_FLOW, 64);
    set_u16(&mut payload, IDX_P_FILTER_TOTAL, 15);
    set_u16(&mut payload, IDX_M_FILTER_TOTAL, 25);
    set_u16(&mut payload, IDX_C_FILTER_TOTAL, 35);
    set_u16(&mut payload, IDX_SPEED_RPM, 2500);
    set_u16(&mut payload, IDX_STATE, 1);
    set_u16(&mut payload, IDX_TARGET_FLOW, 70);
    set_u16(&mut payload, IDX_P_FILTER_LIMIT, 200);
    set_u16(&mut payload, IDX_M_FILTER_LIMIT, 1200);
    set_u16(&mut payload, IDX_C_FILTER_LIMIT, 2400);

    let mut frame = vec![0x01, CMD_READ_STATUS, STATUS_BYTE_COUNT];
    frame.extend_from_slice(&payload);
    let frame = append_crc(&frame);

    let status = parse_read_response(&frame, 0x01, STATUS_START).expect("response should parse");
    assert_eq!(status.real_flow, 64);
    assert_eq!(status.speed_rpm, 2500);
    assert_eq!(status.state, 1);
    assert_eq!(status.target_flow, 70);
    assert_eq!(status.p_filter_total, 15);
    assert_eq!(status.m_filter_total, 25);
    assert_eq!(status.c_filter_total, 35);
    assert_eq!(status.p_filter_limit, 200);
    assert_eq!(status.m_filter_limit, 1200);
    assert_eq!(status.c_filter_limit, 2400);

    assert_eq!(status.registers.len(), STATUS_POLL_REG_COUNT as usize);
    assert_eq!(status.registers[REG_STATUS_FLAGS as usize], 0);
    assert_eq!(status.registers[REG_STATE as usize], 1);
    assert_eq!(status.registers[REG_TARGET_FLOW as usize], 70);
    assert_eq!(status.registers[REG_REAL_FLOW as usize], 64);
    assert_eq!(status.registers[REG_SPEED_RPM as usize], 2500);
    assert_eq!(status.registers[REG_P_FILTER_TOTAL as usize], 15);
    assert_eq!(status.registers[REG_M_FILTER_TOTAL as usize], 25);
    assert_eq!(status.registers[REG_C_FILTER_TOTAL as usize], 35);
    assert_eq!(status.registers[REG_P_FILTER_LIMIT as usize], 200);
    assert_eq!(status.registers[REG_M_FILTER_LIMIT as usize], 1200);
    assert_eq!(status.registers[REG_C_FILTER_LIMIT as usize], 2400);
    assert_eq!(status.registers[REG_TUBE_DIAMETER as usize], 0);
}

#[test]
fn parse_write_response_validates_echo() {
    let frame = append_crc(&[0x01, CMD_WRITE_COMMAND, IDX_STATE, 0x02]);
    parse_write_response(&frame, 0x01, IDX_STATE, 0x02).expect("echo should match");
}

#[test]
fn parse_write_response_rejects_wrong_echo() {
    let frame = append_crc(&[0x01, CMD_WRITE_COMMAND, IDX_STATE, 0x04]);
    let err =
        parse_write_response(&frame, 0x01, IDX_STATE, 0x02).expect_err("wrong count should fail");
    assert!(err.message().contains("echo mismatch"));
}

#[test]
fn map_status_payload_handles_offsets() {
    let mut payload = vec![0u8; 8];
    payload[0] = 0x00;
    payload[1] = 0x01;
    let status = map_status_payload(IDX_STATE, &payload).expect("mapping should work");
    assert_eq!(status.state, 1);
}

#[test]
fn empty_write_payloads_are_rejected() {
    let err = build_write_request(0x01, IDX_TARGET_FLOW, &[]).expect_err("empty should fail");
    assert!(err.message().contains("empty"));
}

#[test]
fn oversized_write_payloads_are_rejected() {
    let payload = [0u8; 300];
    let err = build_write_request(0x01, IDX_TARGET_FLOW, &payload).expect_err("too large");
    assert!(err.message().contains("too large"));
}

#[test]
fn read_response_with_wrong_command_is_rejected() {
    let frame = append_crc(&[0x01, CMD_WRITE_COMMAND, 0x02, 0x00, 0x01]);
    let err = parse_read_response(&frame, 0x01, STATUS_START).expect_err("wrong command");
    assert!(err.message().contains("command mismatch"));
}

#[test]
fn header_classification_tells_exceptions_apart() {
    let exception = [0x01, CMD_READ_STATUS | 0x80, 0x07];
    let err = validate_response_header(0x01, CMD_READ_STATUS, &exception)
        .expect_err("exception should fail");
    assert_eq!(err, TransportError::DeviceException { code: 0x07 });

    let wrong_addr = [0x02, CMD_READ_STATUS, 0x38];
    let err = validate_response_header(0x01, CMD_READ_STATUS, &wrong_addr)
        .expect_err("wrong address should fail");
    assert_eq!(err, TransportError::AddressMismatch);

    let wrong_cmd = [0x01, CMD_WRITE_COMMAND, 0x38];
    let err = validate_response_header(0x01, CMD_READ_STATUS, &wrong_cmd)
        .expect_err("wrong command should fail");
    assert_eq!(err, TransportError::CommandMismatch);

    let good = [0x01, CMD_READ_STATUS, 0x38];
    validate_response_header(0x01, CMD_READ_STATUS, &good).expect("header should pass");
}

fn set_u16(payload: &mut [u8], idx: u8, value: u16) {
    let offset = usize::from(idx - STATUS_START) * 2;
    let [hi, lo] = value.to_be_bytes();
    payload[offset] = hi;
    payload[offset + 1] = lo;
}
