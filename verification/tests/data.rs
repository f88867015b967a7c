use flowmon::constants::{
    REG_C_FILTER_LIMIT, REG_C_FILTER_TOTAL, REG_M_FILTER_LIMIT, REG_M_FILTER_TOTAL,
    REG_P_FILTER_LIMIT, REG_P_FILTER_TOTAL, STATUS_POLL_REG_COUNT,
};
use flowmon::data::{register_name, DeviceStatus};

#[test]
fn parses_filter_totals_and_limits() {
    let mut registers = vec![0u16; STATUS_POLL_REG_COUNT as usize];
    registers[REG_P_FILTER_TOTAL as usize] = 11;
    registers[REG_M_FILTER_TOTAL as usize] = 22;
    registers[REG_C_FILTER_TOTAL as usize] = 33;
    registers[REG_P_FILTER_LIMIT as usize] = 111;
    registers[REG_M_FILTER_LIMIT as usize] = 222;
    registers[REG_C_FILTER_LIMIT as usize] = 333;

    let status = DeviceStatus::from_registers(registers).expect("status should parse");
    assert_eq!(status.p_filter_total, 11);
    assert_eq!(status.m_filter_total, 22);
    assert_eq!(status.c_filter_total, 33);
    assert_eq!(status.p_filter_limit, 111);
    assert_eq!(status.m_filter_limit, 222);
    assert_eq!(status.c_filter_limit, 333);
}

#[test]
fn short_register_arrays_are_rejected() {
    for len in 0..STATUS_POLL_REG_COUNT as usize {
        let registers = vec![7u16; len];
        assert!(DeviceStatus::from_registers(registers).is_none());
    }
}

#[test]
fn zero_registers_decode_to_zero_fields() {
    let registers = vec![0u16; STATUS_POLL_REG_COUNT as usize];
    let status = DeviceStatus::from_registers(registers.clone()).expect("status should parse");
    assert_eq!(status.state, 0);
    assert_eq!(status.target_flow, 0);
    assert_eq!(status.real_flow, 0);
    assert_eq!(status.speed_rpm, 0);
    assert_eq!(status.p_filter_total, 0);
    assert_eq!(status.m_filter_total, 0);
    assert_eq!(status.c_filter_total, 0);
    assert_eq!(status.p_filter_limit, 0);
    assert_eq!(status.m_filter_limit, 0);
    assert_eq!(status.c_filter_limit, 0);
    assert_eq!(status.registers, registers);
}

#[test]
fn register_names_cover_mapped_offsets_only() {
    assert_eq!(register_name(0x0000), Some("State"));
    assert_eq!(register_name(0x0014), Some("Flow"));
    assert_eq!(register_name(0x0015), None);
    assert_eq!(register_name(0xFFFF), None);
}
