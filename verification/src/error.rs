//! The protocol's error taxonomy. None of these is recovered inside the
//! core: every one ends the command cycle, and the caller decides what to do.

use vstd::prelude::*;

verus! {

/// Why a command cycle failed.
#[derive(Clone, Copy, Debug, PartialEq, Eq, Structural)]
pub enum ProtocolError {
    /// A write or read failed at the byte-stream boundary.
    TransportError,
    /// The CRC recomputed over the first six bytes of a response differs
    /// from the transmitted CRC.
    ChecksumMismatch,
    /// The response opcode, after removal of the acknowledgement offset,
    /// names no operation of the registry.
    UnknownOpcode,
}

/// A failure of the underlying byte-stream transport.
#[derive(Clone, Copy, Debug, PartialEq, Eq, Structural)]
pub struct TransportFault;

} // verus!
