//! The vendor-specific indexed-range protocol backend: two command bytes
//! over the same framed/checksummed channel, addressing by single-byte item
//! index inside a fixed valid window, and a translation table from item
//! indices to the generic register-status offsets.

use vstd::prelude::*;

use crate::backend::Backend;
use crate::constants::{
    REG_C_FILTER_LIMIT, REG_C_FILTER_TOTAL, REG_M_FILTER_LIMIT, REG_M_FILTER_TOTAL,
    REG_P_FILTER_LIMIT, REG_P_FILTER_TOTAL, REG_REAL_FLOW, REG_SPEED_RPM, REG_STATE,
    REG_STATUS_FLAGS, REG_TARGET_FLOW, REG_TUBE_DIAMETER, STATE_OFF, STATE_ON,
    STATUS_POLL_REG_COUNT,
};
use crate::data::DeviceStatus;
use crate::errors::TransportError;
use crate::rtu::{
    append_crc, be16_pair, crc_ok, read_exact_with_timeout, validate_crc, with_crc, word_or_zero,
    words_of, SerialLink,
};
use crate::transport::{clamp_target_flow, TransportCommand};

verus! {

pub const CMD_READ_STATUS: u8 = 0x67;

pub const CMD_WRITE_COMMAND: u8 = 0x68;

/// First addressable item index.
pub const IDX_MIN: u8 = 0x10;

/// One past the last addressable item index.
pub const IDX_MAX_EXCLUSIVE: u8 = 0x50;

/// The status block: `STATUS_BYTE_COUNT` bytes starting at `STATUS_START`.
pub const STATUS_START: u8 = 0x10;

pub const STATUS_BYTE_COUNT: u8 = 0x38;

pub const IDX_REAL_FLOW: u8 = 0x19;

pub const IDX_P_FILTER_TOTAL: u8 = 0x1A;

pub const IDX_M_FILTER_TOTAL: u8 = 0x1B;

pub const IDX_C_FILTER_TOTAL: u8 = 0x1C;

pub const IDX_SPEED_RPM: u8 = 0x1D;

pub const IDX_STATE: u8 = 0x1E;

pub const IDX_TUBE_DIAMETER: u8 = 0x1F;

pub const IDX_TARGET_FLOW: u8 = 0x28;

pub const IDX_P_FILTER_LIMIT: u8 = 0x29;

pub const IDX_M_FILTER_LIMIT: u8 = 0x2A;

pub const IDX_C_FILTER_LIMIT: u8 = 0x2B;

pub const IDX_STATUS_FLAGS: u8 = 0x10;

/// Per-exchange I/O deadline; a timeout produces an error, never a hang.
pub const IO_TIMEOUT_MS: u64 = 400;

/// Whether an item range lies inside the device's addressable window.
pub open spec fn range_ok(start: u8, count: u8) -> bool {
    &&& start >= IDX_MIN
    &&& start as int + count as int <= IDX_MAX_EXCLUSIVE as int
}

/// Whether a write payload is acceptable: non-empty, of even length (a
/// protocol constraint), and inside the addressable window.
pub open spec fn write_range_ok(start: u8, count: u8) -> bool {
    &&& count != 0
    &&& count % 2 == 0
    &&& range_ok(start, count)
}

/// The 16-bit value a status payload carries for item index `idx`, when the
/// payload starts at item `start`: the word at offset `idx - start`, or
/// zero when the payload does not reach that item.
pub open spec fn item_value(p: Seq<u8>, start: u8, idx: u8) -> u16 {
    if idx < start {
        0
    } else {
        word_or_zero(words_of(p), idx as int - start as int)
    }
}

/// The translation table from item-index space into the generic
/// register-status offsets: the value decoded into register offset `i` of
/// the snapshot. Unmapped offsets read zero.
pub open spec fn mapped_register(p: Seq<u8>, start: u8, i: int) -> u16 {
    if i == REG_STATE as int {
        item_value(p, start, IDX_STATE)
    } else if i == REG_TARGET_FLOW as int {
        item_value(p, start, IDX_TARGET_FLOW)
    } else if i == REG_STATUS_FLAGS as int {
        item_value(p, start, IDX_STATUS_FLAGS)
    } else if i == REG_P_FILTER_TOTAL as int {
        item_value(p, start, IDX_P_FILTER_TOTAL)
    } else if i == REG_M_FILTER_TOTAL as int {
        item_value(p, start, IDX_M_FILTER_TOTAL)
    } else if i == REG_C_FILTER_TOTAL as int {
        item_value(p, start, IDX_C_FILTER_TOTAL)
    } else if i == REG_P_FILTER_LIMIT as int {
        item_value(p, start, IDX_P_FILTER_LIMIT)
    } else if i == REG_M_FILTER_LIMIT as int {
        item_value(p, start, IDX_M_FILTER_LIMIT)
    } else if i == REG_C_FILTER_LIMIT as int {
        item_value(p, start, IDX_C_FILTER_LIMIT)
    } else if i == REG_SPEED_RPM as int {
        item_value(p, start, IDX_SPEED_RPM)
    } else if i == REG_TUBE_DIAMETER as int {
        item_value(p, start, IDX_TUBE_DIAMETER)
    } else if i == REG_REAL_FLOW as int {
        item_value(p, start, IDX_REAL_FLOW)
    } else {
        0
    }
}

/// The full register array decoded from a status payload.
pub open spec fn mapped_registers(p: Seq<u8>, start: u8) -> Seq<u16> {
    Seq::new(STATUS_POLL_REG_COUNT as nat, |i: int| mapped_register(p, start, i))
}

/// Checks a three-byte response header: echoed address, then the exception
/// convention (command byte with its high bit set, validated independently
/// per command byte, the exception code in the third byte), then the echoed
/// command byte. A device exception is surfaced as a distinguishable error
/// carrying the code.
pub fn validate_response_header(expected_addr: u8, expected_cmd: u8, header: &[u8]) -> (r: Result<
    (),
    TransportError,
>)
    ensures
        r is Ok <==> (header@.len() == 3 && header@[0] == expected_addr && header@[1] != (
        expected_cmd | 0x80) && header@[1] == expected_cmd),
        header@.len() == 3 && header@[0] != expected_addr ==> r == Err::<(), TransportError>(
            TransportError::AddressMismatch,
        ),
        header@.len() == 3 && header@[0] == expected_addr && header@[1] == (expected_cmd | 0x80)
            ==> r == Err::<(), TransportError>(
            TransportError::DeviceException { code: header@[2] },
        ),
        header@.len() == 3 && header@[0] == expected_addr && header@[1] != (expected_cmd | 0x80)
            && header@[1] != expected_cmd ==> r == Err::<(), TransportError>(
            TransportError::CommandMismatch,
        ),
{
    if header.len() != 3 {
        return Err(TransportError::LengthMismatch);
    }

    if header[0] != expected_addr {
        return Err(TransportError::AddressMismatch);
    }

    let command = header[1];
    if command == (expected_cmd | 0x80) {
        let exception = header[2];
        return Err(TransportError::DeviceException { code: exception });
    }

    if command != expected_cmd {
        return Err(TransportError::CommandMismatch);
    }

    Ok(())
}

/// Rejects an item range outside the addressable window, before any byte
/// leaves the process.
pub fn validate_range(start: u8, count: u8) -> (r: Result<(), TransportError>)
    ensures
        r is Ok <==> range_ok(start, count),
        !range_ok(start, count) ==> r == Err::<(), TransportError>(TransportError::RangeInvalid),
{
    if start < IDX_MIN {
        return Err(TransportError::RangeInvalid);
    }
    let end = (start as u16) + (count as u16);
    if end > (IDX_MAX_EXCLUSIVE as u16) {
        return Err(TransportError::RangeInvalid);
    }
    Ok(())
}

/// Rejects an unacceptable write payload shape, before any byte leaves the
/// process: empty payloads, odd-length payloads, and ranges outside the
/// addressable window.
pub fn validate_write_range(start: u8, count: u8) -> (r: Result<(), TransportError>)
    ensures
        r is Ok <==> write_range_ok(start, count),
        count == 0 ==> r == Err::<(), TransportError>(TransportError::PayloadEmpty),
        count != 0 && count % 2 != 0 ==> r == Err::<(), TransportError>(TransportError::PayloadOdd),
        count != 0 && count % 2 == 0 && !range_ok(start, count) ==> r == Err::<(), TransportError>(
            TransportError::RangeInvalid,
        ),
{
    if count == 0 {
        return Err(TransportError::PayloadEmpty);
    }
    if count % 2 != 0 {
        return Err(TransportError::PayloadOdd);
    }
    validate_range(start, count)
}

/// Builds a framed batch read request for `count` bytes of status starting
/// at item `start`.
pub fn build_read_request(address: u8, start: u8, count: u8) -> (r: Result<Vec<u8>, TransportError>)
    ensures
        r is Ok <==> range_ok(start, count),
        r matches Ok(f) ==> f@ == with_crc(seq![address, CMD_READ_STATUS, start, count]),
        !range_ok(start, count) ==> r == Err::<Vec<u8>, TransportError>(
            TransportError::RangeInvalid,
        ),
{
    validate_range(start, count)?;
    let mut body: Vec<u8> = Vec::new();
    body.push(address);
    body.push(CMD_READ_STATUS);
    body.push(start);
    body.push(count);
    proof {
        assert(body@ =~= seq![address, CMD_READ_STATUS, start, count]);
    }
    Ok(append_crc(body.as_slice()))
}

/// Builds a framed single-item write request carrying `payload` at item
/// `start`. Malformed payloads are rejected before transmission.
pub fn build_write_request(address: u8, start: u8, payload: &[u8]) -> (r: Result<
    Vec<u8>,
    TransportError,
>)
    ensures
        r is Ok <==> payload@.len() <= 255 && write_range_ok(start, payload@.len() as u8),
        r matches Ok(f) ==> f@ == with_crc(
            seq![address, CMD_WRITE_COMMAND, start, payload@.len() as u8] + payload@,
        ),
        payload@.len() > 255 ==> r == Err::<Vec<u8>, TransportError>(
            TransportError::PayloadTooLarge,
        ),
        payload@.len() == 0 ==> r == Err::<Vec<u8>, TransportError>(TransportError::PayloadEmpty),
        0 < payload@.len() <= 255 && payload@.len() % 2 != 0 ==> r == Err::<Vec<u8>, TransportError>(
            TransportError::PayloadOdd,
        ),
{
    if payload.len() > 255 {
        return Err(TransportError::PayloadTooLarge);
    }
    let count = payload.len() as u8;
    validate_write_range(start, count)?;
    let mut body: Vec<u8> = Vec::new();
    body.push(address);
    body.push(CMD_WRITE_COMMAND);
    body.push(start);
    body.push(count);
    body.extend_from_slice(payload);
    proof {
        assert(body@ =~= seq![address, CMD_WRITE_COMMAND, start, payload@.len() as u8] + payload@);
    }
    Ok(append_crc(body.as_slice()))
}

/// Reads the 16-bit item at index `idx` out of the decoded word list that
/// starts at item `start`, defaulting to zero outside the list.
fn read_item(values: &Vec<u16>, start: u8, idx: u8) -> (r: u16)
    ensures
        r == (if idx < start {
            0u16
        } else {
            word_or_zero(values@, idx as int - start as int)
        }),
{
    if idx < start {
        return 0;
    }
    let offset = (idx - start) as usize;
    if offset < values.len() {
        values[offset]
    } else {
        0
    }
}

/// Decodes a status payload starting at item `start` into a snapshot,
/// translating each mapped item index to its generic register offset.
#[verifier::rlimit(60)]
pub fn map_status_payload(start: u8, payload: &[u8]) -> (r: Result<DeviceStatus, TransportError>)
    ensures
        r is Ok <==> payload@.len() <= 255 && range_ok(start, payload@.len() as u8),
        r matches Ok(s) ==> ({
            &&& s.wf()
            &&& s.registers@ == mapped_registers(payload@, start)
            &&& s.state == item_value(payload@, start, IDX_STATE)
            &&& s.target_flow == item_value(payload@, start, IDX_TARGET_FLOW)
            &&& s.real_flow == item_value(payload@, start, IDX_REAL_FLOW)
            &&& s.speed_rpm == item_value(payload@, start, IDX_SPEED_RPM)
            &&& s.p_filter_total == item_value(payload@, start, IDX_P_FILTER_TOTAL)
            &&& s.m_filter_total == item_value(payload@, start, IDX_M_FILTER_TOTAL)
            &&& s.c_filter_total == item_value(payload@, start, IDX_C_FILTER_TOTAL)
            &&& s.p_filter_limit == item_value(payload@, start, IDX_P_FILTER_LIMIT)
            &&& s.m_filter_limit == item_value(payload@, start, IDX_M_FILTER_LIMIT)
            &&& s.c_filter_limit == item_value(payload@, start, IDX_C_FILTER_LIMIT)
        }),
        payload@.len() > 255 ==> r == Err::<DeviceStatus, TransportError>(
            TransportError::PayloadTooLarge,
        ),
        payload@.len() <= 255 && !range_ok(start, payload@.len() as u8) ==> r == Err::<
            DeviceStatus,
            TransportError,
        >(TransportError::RangeInvalid),
{
    if payload.len() > 255 {
        return Err(TransportError::PayloadTooLarge);
    }
    let count = payload.len() as u8;
    validate_range(start, count)?;

    let mut values: Vec<u16> = Vec::new();
    let half = payload.len() / 2;
    let mut i: usize = 0;
    while i < half
        invariant
            payload@.len() <= 255,
            half == payload@.len() / 2,
            i <= half,
            values@ == words_of(payload@).take(i as int),
        decreases half - i,
    {
        values.push(be16_pair(payload[2 * i], payload[2 * i + 1]));
        proof {
            assert(words_of(payload@).take(i as int).push(words_of(payload@)[i as int])
                =~= words_of(payload@).take(i + 1));
        }
        i = i + 1;
    }
    proof {
        assert(words_of(payload@).take(half as int) =~= words_of(payload@));
    }

    let state = read_item(&values, start, IDX_STATE);
    let target_flow = read_item(&values, start, IDX_TARGET_FLOW);
    let real_flow = read_item(&values, start, IDX_REAL_FLOW);
    let speed_rpm = read_item(&values, start, IDX_SPEED_RPM);
    let p_filter_total = read_item(&values, start, IDX_P_FILTER_TOTAL);
    let m_filter_total = read_item(&values, start, IDX_M_FILTER_TOTAL);
    let c_filter_total = read_item(&values, start, IDX_C_FILTER_TOTAL);
    let p_filter_limit = read_item(&values, start, IDX_P_FILTER_LIMIT);
    let m_filter_limit = read_item(&values, start, IDX_M_FILTER_LIMIT);
    let c_filter_limit = read_item(&values, start, IDX_C_FILTER_LIMIT);
    let status_flags = read_item(&values, start, IDX_STATUS_FLAGS);
    let tube_diameter = read_item(&values, start, IDX_TUBE_DIAMETER);

    let mut registers: Vec<u16> = Vec::new();
    registers.push(state);
    registers.push(target_flow);
    registers.push(status_flags);
    registers.push(p_filter_total);
    registers.push(m_filter_total);
    registers.push(c_filter_total);
    registers.push(p_filter_limit);
    registers.push(m_filter_limit);
    registers.push(c_filter_limit);
    registers.push(0);
    registers.push(0);
    registers.push(0);
    registers.push(0);
    registers.push(0);
    registers.push(speed_rpm);
    registers.push(tube_diameter);
    registers.push(0);
    registers.push(0);
    registers.push(0);
    registers.push(0);
    registers.push(real_flow);
    registers.push(0);
    registers.push(0);
    registers.push(0);

    proof {
        let ghost lit = seq![
            state,
            target_flow,
            status_flags,
            p_filter_total,
            m_filter_total,
            c_filter_total,
            p_filter_limit,
            m_filter_limit,
            c_filter_limit,
            0u16,
            0u16,
            0u16,
            0u16,
            0u16,
            speed_rpm,
            tube_diameter,
            0u16,
            0u16,
            0u16,
            0u16,
            real_flow,
            0u16,
            0u16,
            0u16,
        ];
        assert(registers@ =~= lit);
        assert forall|i: int| 0 <= i < STATUS_POLL_REG_COUNT as int implies lit[i]
            == mapped_register(payload@, start, i) by {}
        assert(lit =~= mapped_registers(payload@, start));
    }

    Ok(
        DeviceStatus {
            state,
            target_flow,
            real_flow,
            speed_rpm,
            p_filter_total,
            m_filter_total,
            c_filter_total,
            p_filter_limit,
            m_filter_limit,
            c_filter_limit,
            registers,
        },
    )
}

/// A well-formed read response: valid checksum, echoed address and command,
/// a length matching the announced byte count, and an addressable range.
pub open spec fn read_response_ok(frame: Seq<u8>, addr: u8, start: u8) -> bool {
    &&& crc_ok(frame)
    &&& frame.len() >= 5
    &&& frame[0] == addr
    &&& frame[1] == CMD_READ_STATUS
    &&& frame.len() == frame[2] + 5
    &&& range_ok(start, frame[2])
}

/// Validates and decodes a batch read response into a snapshot via the
/// item-index translation table.
pub fn parse_read_response(frame: &[u8], expected_addr: u8, expected_start: u8) -> (r: Result<
    DeviceStatus,
    TransportError,
>)
    ensures
        r is Ok <==> read_response_ok(frame@, expected_addr, expected_start),
        r matches Ok(s) ==> ({
            &&& s.wf()
            &&& s.registers@ == mapped_registers(
                frame@.subrange(3, frame@.len() - 2),
                expected_start,
            )
        }),
{
    validate_crc(frame)?;
    if frame.len() < 5 {
        return Err(TransportError::FrameTooShort);
    }
    if frame[0] != expected_addr {
        return Err(TransportError::AddressMismatch);
    }
    if frame[1] != CMD_READ_STATUS {
        return Err(TransportError::CommandMismatch);
    }
    let count = frame[2] as usize;
    if frame.len() != count + 5 {
        return Err(TransportError::LengthMismatch);
    }
    let payload = &frame[3..(3 + count)];
    proof {
        assert(payload@ =~= frame@.subrange(3, frame@.len() - 2));
    }
    map_status_payload(expected_start, payload)
}

/// A well-formed write response: valid checksum, fixed length, echoed
/// address and command, and the written start index and byte count echoed
/// back.
pub open spec fn write_response_ok(frame: Seq<u8>, addr: u8, start: u8, count: u8) -> bool {
    &&& crc_ok(frame)
    &&& frame.len() == 6
    &&& frame[0] == addr
    &&& frame[1] == CMD_WRITE_COMMAND
    &&& frame[2] == start
    &&& frame[3] == count
}

/// Validates a write response. A response echoing a different start index
/// or byte count is rejected with an echo-mismatch error.
pub fn parse_write_response(
    frame: &[u8],
    expected_addr: u8,
    expected_start: u8,
    expected_count: u8,
) -> (r: Result<(), TransportError>)
    ensures
        r is Ok <==> write_response_ok(frame@, expected_addr, expected_start, expected_count),
        crc_ok(frame@) && frame@.len() == 6 && frame@[0] == expected_addr && frame@[1]
            == CMD_WRITE_COMMAND && !(frame@[2] == expected_start && frame@[3] == expected_count)
            ==> r == Err::<(), TransportError>(TransportError::EchoMismatch),
{
    validate_crc(frame)?;
    if frame.len() != 6 {
        return Err(TransportError::LengthMismatch);
    }
    if frame[0] != expected_addr {
        return Err(TransportError::AddressMismatch);
    }
    if frame[1] != CMD_WRITE_COMMAND {
        return Err(TransportError::CommandMismatch);
    }
    if frame[2] != expected_start || frame[3] != expected_count {
        return Err(TransportError::EchoMismatch);
    }
    Ok(())
}

/// A backend speaking the indexed-range protocol over one serial link.
pub struct ExtToolBackend<L: SerialLink> {
    link: L,
    address: u8,
    io_timeout_ms: u64,
}

impl<L: SerialLink> ExtToolBackend<L> {
    /// Binds a backend to an opened serial link and a device address.
    pub fn new(link: L, address: u8) -> (r: Self) {
        ExtToolBackend { link, address, io_timeout_ms: IO_TIMEOUT_MS }
    }

    fn write_request(&mut self, request: &[u8]) -> (r: Result<(), TransportError>) {
        self.link.write_frame(request)
    }

    fn read_response_header(&mut self, expected_cmd: u8) -> (r: Result<Vec<u8>, TransportError>)
        ensures
            r matches Ok(f) ==> f@.len() >= 4 && f@[0] == old(self).address && f@[1] == expected_cmd
                && (expected_cmd == CMD_READ_STATUS ==> f@.len() == f@[2] + 5) && (expected_cmd
                != CMD_READ_STATUS ==> f@.len() == 6),
    {
        let header = read_exact_with_timeout(&mut self.link, 3, self.io_timeout_ms)?;
        match validate_response_header(self.address, expected_cmd, header.as_slice()) {
            Ok(()) => {},
            Err(TransportError::DeviceException { code }) => {
                let mut tail = read_exact_with_timeout(&mut self.link, 2, self.io_timeout_ms)?;
                let mut frame = header;
                frame.append(&mut tail);
                validate_crc(frame.as_slice())?;
                return Err(TransportError::DeviceException { code });
            },
            Err(err) => {
                return Err(err);
            },
        }

        if expected_cmd == CMD_READ_STATUS {
            let count = header[2] as usize;
            let mut tail = read_exact_with_timeout(&mut self.link, count + 2, self.io_timeout_ms)?;
            let mut frame = header;
            frame.append(&mut tail);
            Ok(frame)
        } else {
            let mut tail = read_exact_with_timeout(&mut self.link, 3, self.io_timeout_ms)?;
            let mut frame = header;
            frame.append(&mut tail);
            Ok(frame)
        }
    }

    /// Issues one batch read of the full status block and decodes it.
    fn read_status(&mut self) -> (r: Result<DeviceStatus, TransportError>)
        ensures
            r matches Ok(s) ==> s.wf(),
    {
        let request = build_read_request(self.address, STATUS_START, STATUS_BYTE_COUNT)?;
        self.write_request(request.as_slice())?;
        let response = self.read_response_header(CMD_READ_STATUS)?;
        parse_read_response(response.as_slice(), self.address, STATUS_START)
    }

    /// Writes one 16-bit item, big-endian, and validates the echo.
    fn write_single_register(&mut self, start: u8, value: u16) -> (r: Result<(), TransportError>) {
        let mut payload: Vec<u8> = Vec::new();
        payload.push((value >> 8) as u8);
        payload.push((value & 0x00FF) as u8);
        let request = build_write_request(self.address, start, payload.as_slice())?;
        self.write_request(request.as_slice())?;
        let response = self.read_response_header(CMD_WRITE_COMMAND)?;
        parse_write_response(response.as_slice(), self.address, start, 2)
    }
}

impl<L: SerialLink> Backend for ExtToolBackend<L> {
    fn poll_status(&mut self) -> (r: Result<DeviceStatus, TransportError>) {
        self.read_status()
    }

    fn apply_command(&mut self, command: &TransportCommand) -> (r: Result<(), TransportError>)
        ensures
            *command matches TransportCommand::Terminate ==> (r is Ok && *final(self) == *old(
                self,
            )),
    {
        match command {
            TransportCommand::SetPower(on) => {
                let state = if *on {
                    STATE_ON
                } else {
                    STATE_OFF
                };
                self.write_single_register(IDX_STATE, state)
            },
            TransportCommand::SetTargetFlow(flow) => self.write_single_register(
                IDX_TARGET_FLOW,
                clamp_target_flow(*flow),
            ),
            TransportCommand::Terminate => Ok(()),
        }
    }
}

} // verus!
