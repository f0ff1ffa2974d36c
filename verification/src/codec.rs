//! The frame codec. Requests and responses are eight bytes: a sync byte
//! `0xAA`, one opcode byte, four operand bytes, and a little-endian CRC16
//! over the first six bytes. The operand travels big-endian in a request and
//! little-endian in a response; that asymmetry is the firmware's, and the
//! codec reproduces it bit for bit.

use vstd::prelude::*;

use crate::crc::crc16;
use crate::crc::crc16_prefix;
use crate::crc::crc16_spec;
use crate::crc::lemma_crc_single_change;
use crate::error::ProtocolError;

verus! {

/// The CRC16 polynomial the firmware uses.
pub open spec fn crc_poly() -> u16 {
    0x1021
}

/// A 16-bit value read from two little-endian bytes.
pub open spec fn le_u16_spec(b0: u8, b1: u8) -> u16 {
    (b0 as u16) | ((b1 as u16) << 8)
}

/// A 32-bit value read from four little-endian bytes.
pub open spec fn le_u32_spec(b0: u8, b1: u8, b2: u8, b3: u8) -> u32 {
    (b0 as u32) | ((b1 as u32) << 8) | ((b2 as u32) << 16) | ((b3 as u32) << 24)
}

/// A 32-bit value with its four bytes reversed.
pub open spec fn swap32(x: u32) -> u32 {
    ((x & 0xFF) << 24) | (((x >> 8) & 0xFF) << 16) | (((x >> 16) & 0xFF) << 8) | ((x >> 24) & 0xFF)
}

/// The first six bytes of a request frame: sync, opcode, and the operand in
/// big-endian order.
pub open spec fn request_prefix(opcode: u8, operand: u32) -> Seq<u8> {
    seq![
        0xAAu8,
        opcode,
        ((operand >> 24) & 0xFF) as u8,
        ((operand >> 16) & 0xFF) as u8,
        ((operand >> 8) & 0xFF) as u8,
        (operand & 0xFF) as u8,
    ]
}

/// A whole request frame: the prefix followed by its CRC16 in little-endian
/// order.
pub open spec fn request_frame(opcode: u8, operand: u32) -> Seq<u8> {
    request_prefix(opcode, operand) + seq![
        (crc16_spec(request_prefix(opcode, operand), crc_poly(), 0) & 0xFF) as u8,
        ((crc16_spec(request_prefix(opcode, operand), crc_poly(), 0) >> 8) & 0xFF) as u8,
    ]
}

/// What decoding an eight-byte response frame yields: the opcode byte and the
/// little-endian operand if the transmitted CRC matches the one recomputed
/// over the first six bytes, and `ChecksumMismatch` otherwise. The sync byte
/// is not checked.
pub open spec fn decode_spec(f: Seq<u8>) -> Result<(u8, u32), ProtocolError>
    recommends
        f.len() == 8,
{
    if crc16_spec(f.take(6), crc_poly(), 0) == le_u16_spec(f[6], f[7]) {
        Ok((f[1], le_u32_spec(f[2], f[3], f[4], f[5])))
    } else {
        Err(ProtocolError::ChecksumMismatch)
    }
}

/// Build the eight-byte request frame for one command.
pub fn encode_request(opcode: u8, operand: u32) -> (r: Vec<u8>)
    ensures
        r@ == request_frame(opcode, operand),
        r@.len() == 8,
{
    let mut frame: Vec<u8> = Vec::new();
    frame.push(0xAA);
    frame.push(opcode);
    proof {
        assert((operand >> 24) & 0xFF < 256 && (operand >> 16) & 0xFF < 256 && (operand >> 8)
            & 0xFF < 256 && operand & 0xFF < 256) by (bit_vector);
    }
    frame.push(((operand >> 24) & 0xFF) as u8);
    frame.push(((operand >> 16) & 0xFF) as u8);
    frame.push(((operand >> 8) & 0xFF) as u8);
    frame.push((operand & 0xFF) as u8);
    proof {
        assert(frame@ =~= request_prefix(opcode, operand));
    }
    let crc = crc16(&frame, 0x1021, 0);
    proof {
        assert(crc & 0xFF < 256 && (crc >> 8) & 0xFF < 256) by (bit_vector);
    }
    frame.push((crc & 0xFF) as u8);
    frame.push(((crc >> 8) & 0xFF) as u8);
    proof {
        assert(frame@ =~= request_frame(opcode, operand));
    }
    frame
}

/// Decode an eight-byte response frame into its opcode byte and little-endian
/// operand, verifying the CRC.
pub fn decode_response(frame: &Vec<u8>) -> (r: Result<(u8, u32), ProtocolError>)
    requires
        frame@.len() == 8,
    ensures
        r == decode_spec(frame@),
{
    let expected = crc16_prefix(frame, 6, 0x1021, 0);
    let checksum: u16 = (frame[6] as u16) | ((frame[7] as u16) << 8);
    if expected != checksum {
        return Err(ProtocolError::ChecksumMismatch);
    }
    let operand: u32 = (frame[2] as u32) | ((frame[3] as u32) << 8) | ((frame[4] as u32) << 16) | (
    (frame[5] as u32) << 24);
    Ok((frame[1], operand))
}

/// Decoding the frame built for `(opcode, operand)` always passes the CRC
/// check and returns the opcode byte unchanged, and the operand with its
/// bytes reversed: the encoder writes the operand big-endian while the
/// decoder reads it little-endian.
pub proof fn lemma_encode_decode(opcode: u8, operand: u32)
    ensures
        decode_spec(request_frame(opcode, operand)) == Ok::<(u8, u32), ProtocolError>(
            (opcode, swap32(operand)),
        ),
{
    let f = request_frame(opcode, operand);
    let p = request_prefix(opcode, operand);
    let c = crc16_spec(p, crc_poly(), 0);
    assert(f.take(6) =~= p);
    assert(f[6] == (c & 0xFF) as u8 && f[7] == ((c >> 8) & 0xFF) as u8);
    assert(le_u16_spec((c & 0xFF) as u8, ((c >> 8) & 0xFF) as u8) == c) by (bit_vector);
    assert(le_u32_spec(
        ((operand >> 24) & 0xFF) as u8,
        ((operand >> 16) & 0xFF) as u8,
        ((operand >> 8) & 0xFF) as u8,
        (operand & 0xFF) as u8,
    ) == swap32(operand)) by (bit_vector);
}

/// For an operand whose byte order is its own reverse, encode followed by
/// decode round-trips the opcode and the operand exactly. Operands whose
/// bytes are not palindromic come back byte-reversed, as `lemma_encode_decode`
/// states.
pub proof fn lemma_encode_decode_round_trip(opcode: u8, operand: u32)
    requires
        swap32(operand) == operand,
    ensures
        decode_spec(request_frame(opcode, operand)) == Ok::<(u8, u32), ProtocolError>(
            (opcode, operand),
        ),
{
    lemma_encode_decode(opcode, operand);
}

/// Tampering with any single byte among the six the CRC covers turns a frame
/// that decodes successfully into one that fails with `ChecksumMismatch`.
pub proof fn lemma_single_byte_tamper(f: Seq<u8>, g: Seq<u8>, i: int)
    requires
        f.len() == 8,
        g.len() == 8,
        0 <= i < 6,
        f[i] != g[i],
        forall|j: int| 0 <= j < 8 && j != i ==> f[j] == g[j],
        decode_spec(f) is Ok,
    ensures
        decode_spec(g) == Err::<(u8, u32), ProtocolError>(ProtocolError::ChecksumMismatch),
{
    assert(crc_poly() & 1 == 1) by (bit_vector);
    assert(f.take(6).len() == 6 && g.take(6).len() == 6);
    assert(f.take(6)[i] == f[i] && g.take(6)[i] == g[i]);
    lemma_crc_single_change(f.take(6), g.take(6), i, crc_poly(), 0);
    assert(g[6] == f[6] && g[7] == f[7]);
}

} // verus!
