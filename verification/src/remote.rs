//! The generic register protocol backend: framed, addressed, checksummed
//! requests carrying a function code, 16-bit register offsets and counts;
//! responses echo address and function code, and an exception is signalled
//! by the function code's high bit.

use vstd::prelude::*;

use crate::backend::Backend;
use crate::constants::{
    REG_STATE, REG_TARGET_FLOW, STATE_OFF, STATE_ON, STATUS_POLL_REG_COUNT, STATUS_POLL_REG_START,
};
use crate::data::DeviceStatus;
use crate::errors::TransportError;
use crate::rtu::{
    append_crc, be16, be16_pair, crc_ok, read_exact_with_timeout, u16_hi, u16_lo, validate_crc,
    with_crc, words_of, SerialLink,
};
use crate::transport::{clamp_target_flow, clamped_flow, TransportCommand};

verus! {

pub const FUNC_READ_HOLDING_REGISTERS: u8 = 0x03;

pub const FUNC_WRITE_SINGLE_REGISTER: u8 = 0x06;

/// Per-exchange I/O deadline; a timeout produces an error, never a hang.
pub const IO_TIMEOUT_MS: u64 = 400;

/// Builds a framed read request for `quantity` registers starting at
/// `start`. A read of zero registers is rejected before transmission.
pub fn build_read_holding_request(address: u8, start: u16, quantity: u16) -> (r: Result<
    Vec<u8>,
    TransportError,
>)
    ensures
        r is Ok <==> quantity != 0,
        r matches Ok(f) ==> f@ == with_crc(
            seq![
                address,
                FUNC_READ_HOLDING_REGISTERS,
                u16_hi(start),
                u16_lo(start),
                u16_hi(quantity),
                u16_lo(quantity),
            ],
        ),
        quantity == 0 ==> r == Err::<Vec<u8>, TransportError>(TransportError::QuantityZero),
{
    if quantity == 0 {
        return Err(TransportError::QuantityZero);
    }
    let mut request: Vec<u8> = Vec::new();
    request.push(address);
    request.push(FUNC_READ_HOLDING_REGISTERS);
    request.push((start >> 8) as u8);
    request.push((start & 0x00FF) as u8);
    request.push((quantity >> 8) as u8);
    request.push((quantity & 0x00FF) as u8);
    proof {
        assert(request@ =~= seq![
            address,
            FUNC_READ_HOLDING_REGISTERS,
            u16_hi(start),
            u16_lo(start),
            u16_hi(quantity),
            u16_lo(quantity),
        ]);
    }
    Ok(append_crc(request.as_slice()))
}

/// A well-formed read response: valid checksum, echoed address and function
/// code, a byte count of exactly two bytes per requested register, and a
/// total length matching that count.
pub open spec fn read_holding_ok(frame: Seq<u8>, addr: u8, quantity: u16) -> bool {
    &&& crc_ok(frame)
    &&& frame.len() >= 5
    &&& frame[0] == addr
    &&& frame[1] == FUNC_READ_HOLDING_REGISTERS
    &&& frame[2] as int == 2 * (quantity as int)
    &&& frame.len() == 2 * (quantity as int) + 5
}

/// Validates and decodes a read response into the register values it
/// carries, big-endian, in register order. Succeeds exactly on a
/// well-formed response for `expected_quantity` registers at
/// `expected_addr`.
pub fn parse_read_holding_response(
    frame: &[u8],
    expected_addr: u8,
    expected_quantity: u16,
) -> (r: Result<Vec<u16>, TransportError>)
    ensures
        r is Ok <==> read_holding_ok(frame@, expected_addr, expected_quantity),
        r matches Ok(regs) ==> regs@.len() == expected_quantity as int && regs@ == words_of(
            frame@.subrange(3, frame@.len() - 2),
        ),
        crc_ok(frame@) && frame@.len() >= 5 && frame@[0] != expected_addr ==> r == Err::<
            Vec<u16>,
            TransportError,
        >(TransportError::AddressMismatch),
        crc_ok(frame@) && frame@.len() >= 5 && frame@[0] == expected_addr && frame@[1]
            != FUNC_READ_HOLDING_REGISTERS ==> r == Err::<Vec<u16>, TransportError>(
            TransportError::FunctionMismatch,
        ),
{
    validate_crc(frame)?;
    if frame.len() < 5 {
        return Err(TransportError::FrameTooShort);
    }
    if frame[0] != expected_addr {
        return Err(TransportError::AddressMismatch);
    }
    if frame[1] != FUNC_READ_HOLDING_REGISTERS {
        return Err(TransportError::FunctionMismatch);
    }

    let byte_count = frame[2] as usize;
    if byte_count != (expected_quantity as usize) * 2 {
        return Err(TransportError::ByteCountMismatch);
    }
    if frame.len() != byte_count + 5 {
        return Err(TransportError::LengthMismatch);
    }

    let payload = &frame[3..(3 + byte_count)];
    let mut registers: Vec<u16> = Vec::new();
    let mut i: usize = 0;
    while i < byte_count / 2
        invariant
            byte_count == payload@.len(),
            byte_count == 2 * (expected_quantity as int),
            i <= byte_count / 2,
            registers@ == words_of(payload@).take(i as int),
        decreases byte_count / 2 - i,
    {
        registers.push(be16_pair(payload[2 * i], payload[2 * i + 1]));
        proof {
            assert(words_of(payload@).take(i as int).push(words_of(payload@)[i as int])
                =~= words_of(payload@).take(i + 1));
        }
        i = i + 1;
    }
    proof {
        assert(words_of(payload@).take((byte_count / 2) as int) =~= words_of(payload@));
        assert(payload@ =~= frame@.subrange(3, frame@.len() - 2));
    }
    Ok(registers)
}

/// Builds a framed write request for a single register value.
pub fn build_write_single_request(address: u8, register: u16, value: u16) -> (f: Vec<u8>)
    ensures
        f@ == with_crc(
            seq![
                address,
                FUNC_WRITE_SINGLE_REGISTER,
                u16_hi(register),
                u16_lo(register),
                u16_hi(value),
                u16_lo(value),
            ],
        ),
{
    let mut request: Vec<u8> = Vec::new();
    request.push(address);
    request.push(FUNC_WRITE_SINGLE_REGISTER);
    request.push((register >> 8) as u8);
    request.push((register & 0x00FF) as u8);
    request.push((value >> 8) as u8);
    request.push((value & 0x00FF) as u8);
    proof {
        assert(request@ =~= seq![
            address,
            FUNC_WRITE_SINGLE_REGISTER,
            u16_hi(register),
            u16_lo(register),
            u16_hi(value),
            u16_lo(value),
        ]);
    }
    append_crc(request.as_slice())
}

/// A well-formed write response: valid checksum, echoed address and
/// function code, and the written register and value echoed back.
pub open spec fn write_single_ok(frame: Seq<u8>, addr: u8, register: u16, value: u16) -> bool {
    &&& crc_ok(frame)
    &&& frame.len() == 8
    &&& frame[0] == addr
    &&& frame[1] == FUNC_WRITE_SINGLE_REGISTER
    &&& be16(frame[2], frame[3]) == register
    &&& be16(frame[4], frame[5]) == value
}

/// Validates a write response. A response whose echoed register or value
/// differs from what was sent is rejected with an echo-mismatch error,
/// protecting against misdirected or corrupted frames.
pub fn parse_write_single_response(
    frame: &[u8],
    expected_addr: u8,
    expected_register: u16,
    expected_value: u16,
) -> (r: Result<(), TransportError>)
    ensures
        r is Ok <==> write_single_ok(frame@, expected_addr, expected_register, expected_value),
        crc_ok(frame@) && frame@.len() == 8 && frame@[0] == expected_addr && frame@[1]
            == FUNC_WRITE_SINGLE_REGISTER && !(be16(frame@[2], frame@[3]) == expected_register
            && be16(frame@[4], frame@[5]) == expected_value) ==> r == Err::<(), TransportError>(
            TransportError::EchoMismatch,
        ),
{
    validate_crc(frame)?;
    if frame.len() != 8 {
        return Err(TransportError::LengthMismatch);
    }
    if frame[0] != expected_addr {
        return Err(TransportError::AddressMismatch);
    }
    if frame[1] != FUNC_WRITE_SINGLE_REGISTER {
        return Err(TransportError::FunctionMismatch);
    }

    let echoed_register = be16_pair(frame[2], frame[3]);
    let echoed_value = be16_pair(frame[4], frame[5]);
    if echoed_register != expected_register || echoed_value != expected_value {
        return Err(TransportError::EchoMismatch);
    }

    Ok(())
}

/// Checks a three-byte response header: echoed address, then the exception
/// convention (function code with its high bit set, followed by a one-byte
/// exception code), then the echoed function code.
pub fn validate_response_header(expected_addr: u8, expected_func: u8, header: &[u8]) -> (r: Result<
    (),
    TransportError,
>)
    ensures
        r is Ok <==> (header@.len() == 3 && header@[0] == expected_addr && header@[1] != (
        expected_func | 0x80) && header@[1] == expected_func),
        header@.len() == 3 && header@[0] == expected_addr && header@[1] == (expected_func | 0x80)
            ==> r == Err::<(), TransportError>(
            TransportError::DeviceException { code: header@[2] },
        ),
{
    if header.len() != 3 {
        return Err(TransportError::LengthMismatch);
    }

    if header[0] != expected_addr {
        return Err(TransportError::AddressMismatch);
    }

    let function = header[1];
    if function == (expected_func | 0x80) {
        let exception = header[2];
        return Err(TransportError::DeviceException { code: exception });
    }

    if function != expected_func {
        return Err(TransportError::FunctionMismatch);
    }

    Ok(())
}

/// The register write a command maps to: power uses the two-valued enable
/// code on the state register; target flow is clamped to the protocol
/// bounds and written to the target register; terminate maps to nothing.
pub fn remote_write_for_command(command: &TransportCommand) -> (r: Option<(u16, u16)>)
    ensures
        *command matches TransportCommand::SetPower(on) ==> r == Some(
            (REG_STATE, if on { STATE_ON } else { STATE_OFF }),
        ),
        *command matches TransportCommand::SetTargetFlow(flow) ==> r == Some(
            (REG_TARGET_FLOW, clamped_flow(flow)),
        ),
        *command matches TransportCommand::Terminate ==> r is None,
{
    match command {
        TransportCommand::SetPower(on) => {
            let value = if *on { STATE_ON } else { STATE_OFF };
            Some((REG_STATE, value))
        },
        TransportCommand::SetTargetFlow(flow) => Some(
            (REG_TARGET_FLOW, clamp_target_flow(*flow)),
        ),
        TransportCommand::Terminate => None,
    }
}

/// A backend speaking the generic register protocol over one serial link.
pub struct RemoteBackend<L: SerialLink> {
    link: L,
    address: u8,
    io_timeout_ms: u64,
}

impl<L: SerialLink> RemoteBackend<L> {
    /// Binds a backend to an opened serial link and a device address.
    pub fn new(link: L, address: u8) -> (r: Self) {
        RemoteBackend { link, address, io_timeout_ms: IO_TIMEOUT_MS }
    }

    fn send_request(&mut self, request: &[u8]) -> (r: Result<(), TransportError>) {
        self.link.write_frame(request)
    }

    fn read_read_holding_response(&mut self) -> (r: Result<Vec<u8>, TransportError>)
        ensures
            r matches Ok(f) ==> f@.len() == f@[2] + 5 && f@[0] == old(self).address && f@[1]
                == FUNC_READ_HOLDING_REGISTERS,
    {
        let header = read_exact_with_timeout(&mut self.link, 3, self.io_timeout_ms)?;
        validate_response_header(self.address, FUNC_READ_HOLDING_REGISTERS, header.as_slice())?;
        let byte_count = header[2] as usize;
        let mut tail = read_exact_with_timeout(&mut self.link, byte_count + 2, self.io_timeout_ms)?;
        let mut frame = header;
        frame.append(&mut tail);
        Ok(frame)
    }

    fn read_write_single_response(&mut self) -> (r: Result<Vec<u8>, TransportError>)
        ensures
            r matches Ok(f) ==> f@.len() == 8 && f@[0] == old(self).address && f@[1]
                == FUNC_WRITE_SINGLE_REGISTER,
    {
        let header = read_exact_with_timeout(&mut self.link, 3, self.io_timeout_ms)?;
        validate_response_header(self.address, FUNC_WRITE_SINGLE_REGISTER, header.as_slice())?;
        let mut tail = read_exact_with_timeout(&mut self.link, 5, self.io_timeout_ms)?;
        let mut frame = header;
        frame.append(&mut tail);
        Ok(frame)
    }

    /// Issues exactly one read covering the full known register block and
    /// decodes the response into a snapshot.
    fn read_status(&mut self) -> (r: Result<DeviceStatus, TransportError>)
        ensures
            r matches Ok(s) ==> s.wf(),
    {
        let request = build_read_holding_request(
            self.address,
            STATUS_POLL_REG_START,
            STATUS_POLL_REG_COUNT,
        )?;
        self.send_request(request.as_slice())?;
        let response = self.read_read_holding_response()?;
        let registers = parse_read_holding_response(
            response.as_slice(),
            self.address,
            STATUS_POLL_REG_COUNT,
        )?;
        match DeviceStatus::from_registers(registers) {
            Some(status) => Ok(status),
            None => Err(TransportError::LengthMismatch),
        }
    }

    /// Writes one register and validates the echoed response.
    fn write_single_register(&mut self, register: u16, value: u16) -> (r: Result<
        (),
        TransportError,
    >) {
        let request = build_write_single_request(self.address, register, value);
        self.send_request(request.as_slice())?;
        let response = self.read_write_single_response()?;
        parse_write_single_response(response.as_slice(), self.address, register, value)
    }
}

impl<L: SerialLink> Backend for RemoteBackend<L> {
    fn poll_status(&mut self) -> (r: Result<DeviceStatus, TransportError>) {
        self.read_status()
    }

    fn apply_command(&mut self, command: &TransportCommand) -> (r: Result<(), TransportError>)
        ensures
            *command matches TransportCommand::Terminate ==> (r == Err::<(), TransportError>(
                TransportError::UnsupportedCommand,
            ) && *final(self) == *old(self)),
    {
        match remote_write_for_command(command) {
            Some((register, value)) => self.write_single_register(register, value),
            None => Err(TransportError::UnsupportedCommand),
        }
    }
}

} // verus!
