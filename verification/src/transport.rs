//! The command/response cycle over an injectable byte-stream transport. The
//! transport is a capability with two operations — write exact bytes, read an
//! exact number of bytes — so the cycle can run against the physical serial
//! link or against a scripted stand-in. An abstract history of the
//! transport's successful writes and reads lets each cycle's contract say
//! exactly which frame it wrote and that the returned value is the parse of
//! the bytes then read.

use vstd::prelude::*;

use crate::codec::decode_response;
use crate::codec::decode_spec;
use crate::codec::encode_request;
use crate::codec::lemma_encode_decode;
use crate::codec::request_frame;
use crate::codec::swap32;
use crate::error::ProtocolError;
use crate::error::TransportFault;
use crate::interpret::handle_data;
use crate::interpret::interpret_spec;
use crate::interpret::HandlerModel;
use crate::interpret::HandlerResult;
use crate::opcode::code_spec;
use crate::opcode::from_code_spec;
use crate::opcode::lemma_opcode_round_trip;
use crate::opcode::OpCode;

verus! {

/// The constant added to a request's opcode to form the opcode byte of the
/// corresponding response.
pub open spec fn ack_offset() -> u8 {
    127
}

/// One observable interaction with the transport.
pub enum PortEvent {
    /// All of these bytes were written, in one successful write.
    Wrote(Seq<u8>),
    /// Exactly these bytes came back from one successful read.
    Read(Seq<u8>),
}

/// The abstract record of a transport's successful writes and reads, in
/// order. A specification value: it has no runtime form.
pub type PortHistory = Seq<PortEvent>;

/// A blocking byte-stream transport to the board. The write and read
/// timeouts are the implementation's concern. The history is the abstract
/// record of the writes and reads that have succeeded, in order; a failed
/// operation leaves it unspecified, since a transport may have moved any
/// number of bytes before failing.
pub trait SerialPort {
    /// The successful writes and reads so far, in order.
    spec fn history(&self) -> PortHistory;

    /// Write all of `buf` to the transport.
    fn write_all(&mut self, buf: &[u8]) -> (r: Result<(), TransportFault>)
        ensures
            r matches Ok(_) ==> final(self).history() == old(self).history() + seq![
                PortEvent::Wrote(buf@),
            ],
    ;

    /// Read exactly `n` bytes from the transport.
    fn read_exact(&mut self, n: usize) -> (r: Result<Vec<u8>, TransportFault>)
        ensures
            r matches Ok(v) ==> v@.len() == n && final(self).history() == old(self).history()
                + seq![PortEvent::Read(v@)],
    ;
}

/// The request frame that one command writes: the frame for the
/// operation's numeric code and the given operand.
pub open spec fn request_frame_of(op: OpCode, data: u32) -> Seq<u8> {
    request_frame(code_spec(op), data)
}

/// One complete command/response exchange as the history records it: the
/// request frame for `(op, data)` written, then the eight response bytes
/// `f` read.
pub open spec fn exchange(op: OpCode, data: u32, f: Seq<u8>) -> Seq<PortEvent> {
    seq![PortEvent::Wrote(request_frame_of(op, data)), PortEvent::Read(f)]
}

/// What parsing an eight-byte response frame yields, before interpretation:
/// the operation recovered by removing the acknowledgement offset from the
/// opcode byte, and the little-endian operand. A CRC mismatch is
/// `ChecksumMismatch`; an opcode byte below the offset, or one that maps to
/// no operation of the registry, is `UnknownOpcode`.
pub open spec fn parse_raw_spec(f: Seq<u8>) -> Result<(OpCode, u32), ProtocolError>
    recommends
        f.len() == 8,
{
    match decode_spec(f) {
        Result::Err(e) => Result::Err(e),
        Result::Ok((opb, x)) => if opb >= ack_offset() {
            match from_code_spec((opb - ack_offset()) as u8) {
                Option::Some(op) => Result::Ok((op, x)),
                Option::None => Result::Err(ProtocolError::UnknownOpcode),
            }
        } else {
            Result::Err(ProtocolError::UnknownOpcode)
        },
    }
}

/// What parsing and interpreting an eight-byte response frame yields.
pub open spec fn parse_response_spec(f: Seq<u8>) -> Result<(OpCode, HandlerModel), ProtocolError>
    recommends
        f.len() == 8,
{
    match parse_raw_spec(f) {
        Result::Err(e) => Result::Err(e),
        Result::Ok((op, x)) => Result::Ok((op, interpret_spec(op, x))),
    }
}

/// Parse an eight-byte response frame: verify the CRC and recover the
/// operation and its raw operand.
pub fn parse_frame_raw(frame: &Vec<u8>) -> (r: Result<(OpCode, u32), ProtocolError>)
    requires
        frame@.len() == 8,
    ensures
        r == parse_raw_spec(frame@),
{
    let (opb, x) = match decode_response(frame) {
        Result::Ok(p) => p,
        Result::Err(e) => {
            return Result::Err(e);
        },
    };
    if opb < 127 {
        return Result::Err(ProtocolError::UnknownOpcode);
    }
    match OpCode::from_code(opb - 127) {
        Option::Some(op) => Result::Ok((op, x)),
        Option::None => Result::Err(ProtocolError::UnknownOpcode),
    }
}

/// Parse an eight-byte response frame and interpret its operand.
pub fn parse_frame(frame: &Vec<u8>) -> (r: Result<(OpCode, HandlerResult), ProtocolError>)
    requires
        frame@.len() == 8,
    ensures
        r matches Ok(p) ==> parse_response_spec(frame@) == Result::<(OpCode, HandlerModel),
            ProtocolError,
        >::Ok((p.0, p.1@)),
        r matches Err(e) ==> parse_response_spec(frame@) == Result::<(OpCode, HandlerModel),
            ProtocolError,
        >::Err(e),
{
    match parse_frame_raw(frame) {
        Result::Ok((op, x)) => Result::Ok((op, handle_data(op, x))),
        Result::Err(e) => Result::Err(e),
    }
}

proof fn lemma_code_spec_bound(op: OpCode)
    ensures
        code_spec(op) <= 36,
{
    match op {
        OpCode::Heartbeat => {},
        OpCode::GetTecTemperature => {},
        OpCode::GetHumidity => {},
        OpCode::GetDewPoint => {},
        OpCode::GetSetPointOffset => {},
        OpCode::GetPCoefficient => {},
        OpCode::GetICoefficient => {},
        OpCode::GetDCoefficient => {},
        OpCode::GetTecPowerLevel => {},
        OpCode::GetHwVersion => {},
        OpCode::GetFwVersion => {},
        OpCode::SetSetPointOffset => {},
        OpCode::SetPCoefficient => {},
        OpCode::SetICoefficient => {},
        OpCode::SetDCoefficient => {},
        OpCode::SetLowPowerMode => {},
        OpCode::SetCPUTemp => {},
        OpCode::SetNtcCoefficient => {},
        OpCode::GetNtcCoefficient => {},
        OpCode::SetTempSensorMode => {},
        OpCode::SetTecPowerLevel => {},
        OpCode::ResetBoard => {},
        OpCode::GetBoardTemp => {},
        OpCode::GetVoltageAndCurrent => {},
        OpCode::GetTecVoltage => {},
        OpCode::GetTecCurrent => {},
    }
}

/// A frame built with an operation's acknowledged opcode byte — its code
/// plus the acknowledgement offset, as a response carries it — parses back
/// to that operation, with the operand's bytes reversed: the encoder writes
/// operands big-endian while responses are read little-endian.
pub proof fn lemma_response_frame_round_trip(op: OpCode, operand: u32)
    ensures
        parse_raw_spec(request_frame((code_spec(op) + ack_offset()) as u8, operand)) == Result::<
            (OpCode, u32),
            ProtocolError,
        >::Ok((op, swap32(operand))),
{
    lemma_code_spec_bound(op);
    lemma_encode_decode((code_spec(op) + ack_offset()) as u8, operand);
    lemma_opcode_round_trip(op);
}

/// For an operand whose byte order is its own reverse, the round trip of
/// `lemma_response_frame_round_trip` recovers the operation and the operand
/// exactly.
pub proof fn lemma_response_frame_round_trip_exact(op: OpCode, operand: u32)
    requires
        swap32(operand) == operand,
    ensures
        parse_raw_spec(request_frame((code_spec(op) + ack_offset()) as u8, operand)) == Result::<
            (OpCode, u32),
            ProtocolError,
        >::Ok((op, operand)),
{
    lemma_response_frame_round_trip(op, operand);
}

/// Encode one command and write its frame to the transport: on success,
/// exactly the eight-byte request frame for `(opcode, operand)` was handed
/// to the port, in one write and nothing else. A write failure surfaces as
/// `TransportError`.
pub fn send_data<S: SerialPort>(opcode: u8, operand: u32, s: &mut S) -> (r: Result<
    (),
    ProtocolError,
>)
    ensures
        r matches Ok(_) ==> final(s).history() == old(s).history() + seq![
            PortEvent::Wrote(request_frame(opcode, operand)),
        ],
        r matches Err(e) ==> e == ProtocolError::TransportError,
{
    let frame = encode_request(opcode, operand);
    match s.write_all(frame.as_slice()) {
        Result::Ok(()) => Result::Ok(()),
        Result::Err(TransportFault) => Result::Err(ProtocolError::TransportError),
    }
}

/// Read one eight-byte response frame and parse and interpret it. A read
/// failure surfaces as `TransportError`; otherwise exactly eight bytes were
/// read, and the result — the returned pair or the parse error — is the
/// parse of those bytes.
pub fn read_data<S: SerialPort>(s: &mut S) -> (r: Result<(OpCode, HandlerResult), ProtocolError>)
    ensures
        r matches Ok(p) ==> exists|f: Seq<u8>|
            f.len() == 8 && final(s).history() == old(s).history() + seq![PortEvent::Read(f)]
                && parse_response_spec(f) == Result::<(OpCode, HandlerModel), ProtocolError>::Ok(
                (p.0, p.1@),
            ),
        r matches Err(e) ==> e == ProtocolError::TransportError || exists|f: Seq<u8>|
            f.len() == 8 && final(s).history() == old(s).history() + seq![PortEvent::Read(f)]
                && parse_response_spec(f) == Result::<(OpCode, HandlerModel), ProtocolError>::Err(
                e,
            ),
{
    let data = match s.read_exact(8) {
        Result::Ok(d) => d,
        Result::Err(TransportFault) => {
            return Result::Err(ProtocolError::TransportError);
        },
    };
    let r = parse_frame(&data);
    proof {
        assert(data@.len() == 8);
    }
    r
}

/// Read one eight-byte response frame and parse it without interpretation.
pub fn read_data_raw<S: SerialPort>(s: &mut S) -> (r: Result<(OpCode, u32), ProtocolError>)
    ensures
        r matches Ok(p) ==> exists|f: Seq<u8>|
            f.len() == 8 && final(s).history() == old(s).history() + seq![PortEvent::Read(f)]
                && parse_raw_spec(f) == Result::<(OpCode, u32), ProtocolError>::Ok(p),
        r matches Err(e) ==> e == ProtocolError::TransportError || exists|f: Seq<u8>|
            f.len() == 8 && final(s).history() == old(s).history() + seq![PortEvent::Read(f)]
                && parse_raw_spec(f) == Result::<(OpCode, u32), ProtocolError>::Err(e),
{
    let data = match s.read_exact(8) {
        Result::Ok(d) => d,
        Result::Err(TransportFault) => {
            return Result::Err(ProtocolError::TransportError);
        },
    };
    let r = parse_frame_raw(&data);
    proof {
        assert(data@.len() == 8);
    }
    r
}

/// One strictly synchronous command/response cycle: write the request frame
/// for `(op, data)`, then read exactly eight bytes back and verify and
/// interpret them. On success — and on every parse error — the history
/// shows that one write followed by that one read, and nothing else.
pub fn submit_command_s<S: SerialPort>(op: OpCode, data: u32, s: &mut S) -> (r: Result<
    (OpCode, HandlerResult),
    ProtocolError,
>)
    ensures
        r matches Ok(p) ==> exists|f: Seq<u8>|
            f.len() == 8 && final(s).history() == old(s).history() + seq![
                PortEvent::Wrote(request_frame(code_spec(op), data)),
                PortEvent::Read(f),
            ] && parse_response_spec(f) == Result::<(OpCode, HandlerModel), ProtocolError>::Ok(
                (p.0, p.1@),
            ),
        r matches Err(e) ==> e == ProtocolError::TransportError || exists|f: Seq<u8>|
            f.len() == 8 && final(s).history() == old(s).history() + seq![
                PortEvent::Wrote(request_frame(code_spec(op), data)),
                PortEvent::Read(f),
            ] && parse_response_spec(f) == Result::<(OpCode, HandlerModel), ProtocolError>::Err(
                e,
            ),
{
    let ghost h0 = s.history();
    match send_data(op.code(), data, s) {
        Result::Ok(()) => (),
        Result::Err(e) => {
            return Result::Err(e);
        },
    }
    let ghost h1 = s.history();
    let r = read_data(s);
    proof {
        let w = PortEvent::Wrote(request_frame(code_spec(op), data));
        if r is Ok {
            let p = r->Ok_0;
            let f = choose|f: Seq<u8>|
                f.len() == 8 && s.history() == h1 + seq![PortEvent::Read(f)]
                    && parse_response_spec(f) == Result::<(OpCode, HandlerModel),
                ProtocolError,
                >::Ok((p.0, p.1@));
            assert(s.history() =~= h0 + seq![w, PortEvent::Read(f)]);
        } else {
            let e = r->Err_0;
            if e != ProtocolError::TransportError {
                let f = choose|f: Seq<u8>|
                    f.len() == 8 && s.history() == h1 + seq![PortEvent::Read(f)]
                        && parse_response_spec(f) == Result::<(OpCode, HandlerModel),
                    ProtocolError,
                    >::Err(e);
                assert(s.history() =~= h0 + seq![w, PortEvent::Read(f)]);
            }
        }
    }
    r
}

/// One command/response cycle that returns the raw operand uninterpreted,
/// with the same history contract as `submit_command_s`.
pub fn submit_command_raw<S: SerialPort>(op: OpCode, data: u32, s: &mut S) -> (r: Result<
    (OpCode, u32),
    ProtocolError,
>)
    ensures
        r matches Ok(p) ==> exists|f: Seq<u8>|
            f.len() == 8 && final(s).history() == old(s).history() + seq![
                PortEvent::Wrote(request_frame(code_spec(op), data)),
                PortEvent::Read(f),
            ] && parse_raw_spec(f) == Result::<(OpCode, u32), ProtocolError>::Ok(p),
        r matches Err(e) ==> e == ProtocolError::TransportError || exists|f: Seq<u8>|
            f.len() == 8 && final(s).history() == old(s).history() + seq![
                PortEvent::Wrote(request_frame(code_spec(op), data)),
                PortEvent::Read(f),
            ] && parse_raw_spec(f) == Result::<(OpCode, u32), ProtocolError>::Err(e),
{
    let ghost h0 = s.history();
    match send_data(op.code(), data, s) {
        Result::Ok(()) => (),
        Result::Err(e) => {
            return Result::Err(e);
        },
    }
    let ghost h1 = s.history();
    let r = read_data_raw(s);
    proof {
        let w = PortEvent::Wrote(request_frame(code_spec(op), data));
        if r is Ok {
            let p = r->Ok_0;
            let f = choose|f: Seq<u8>|
                f.len() == 8 && s.history() == h1 + seq![PortEvent::Read(f)] && parse_raw_spec(f)
                    == Result::<(OpCode, u32), ProtocolError>::Ok(p);
            assert(s.history() =~= h0 + seq![w, PortEvent::Read(f)]);
        } else {
            let e = r->Err_0;
            if e != ProtocolError::TransportError {
                let f = choose|f: Seq<u8>|
                    f.len() == 8 && s.history() == h1 + seq![PortEvent::Read(f)] && parse_raw_spec(
                        f,
                    ) == Result::<(OpCode, u32), ProtocolError>::Err(e);
                assert(s.history() =~= h0 + seq![w, PortEvent::Read(f)]);
            }
        }
    }
    r
}

} // verus!
