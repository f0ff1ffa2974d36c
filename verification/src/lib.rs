//! Host-side driver core for a thermoelectric-cooler controller board on a
//! point-to-point serial link: frame encoding and decoding with a CRC16
//! integrity check, an opcode registry, interpretation of returned operands,
//! and the aggregation step of the polling loop.

pub mod codec;
pub mod crc;
pub mod error;
pub mod hex;
pub mod interpret;
pub mod monitor;
pub mod opcode;
pub mod transport;
