use intel_cryo_tec_monitor::codec::decode_response;
use intel_cryo_tec_monitor::codec::encode_request;
use intel_cryo_tec_monitor::crc::crc16;
use intel_cryo_tec_monitor::error::ProtocolError;
use intel_cryo_tec_monitor::error::TransportFault;
use intel_cryo_tec_monitor::interpret::handle_data;
use intel_cryo_tec_monitor::interpret::heartbeat_flags;
use intel_cryo_tec_monitor::interpret::HandlerResult;
use intel_cryo_tec_monitor::monitor::build_snapshot;
use intel_cryo_tec_monitor::monitor::heartbeat_map;
use intel_cryo_tec_monitor::monitor::poll_cycle;
use intel_cryo_tec_monitor::monitor::set_cryo_mode;
use intel_cryo_tec_monitor::opcode::OpCode;
use intel_cryo_tec_monitor::transport::parse_frame;
use intel_cryo_tec_monitor::transport::PortHistory;
use intel_cryo_tec_monitor::transport::SerialPort;

struct ReplayPort {
    written: Vec<u8>,
    responses: Vec<Vec<u8>>,
}

impl ReplayPort {
    fn new(responses: Vec<Vec<u8>>) -> ReplayPort {
        ReplayPort { written: Vec::new(), responses }
    }
}

impl SerialPort for ReplayPort {
    fn history(&self) -> PortHistory {
        panic!("the transport history is a specification value with no runtime form")
    }

    fn write_all(&mut self, buf: &[u8]) -> Result<(), TransportFault> {
        self.written.extend_from_slice(buf);
        Ok(())
    }

    fn read_exact(&mut self, n: usize) -> Result<Vec<u8>, TransportFault> {
        if self.responses.is_empty() {
            return Err(TransportFault);
        }
        let r = self.responses.remove(0);
        assert_eq!(r.len(), n);
        Ok(r)
    }
}

/// A response frame as the board would send it: little-endian operand and a
/// correct CRC over the first six bytes.
fn make_response(opcode_byte: u8, operand: u32) -> Vec<u8> {
    let le = operand.to_le_bytes();
    let mut f = vec![0xAA, opcode_byte, le[0], le[1], le[2], le[3]];
    let crc = crc16(&f, 0x1021, 0);
    f.push((crc & 0xFF) as u8);
    f.push((crc >> 8) as u8);
    f
}

#[test]
fn test_pretty_print_bytes_formats_hex_pairs() {
    assert_eq!(
        intel_cryo_tec_monitor::hex::pretty_print_bytes(&vec![0xAA, 0x00, 0x2A, 0x67]),
        "aa 00 2a 67"
    );
    assert_eq!(intel_cryo_tec_monitor::hex::pretty_print_bytes(&vec![]), "");
    assert_eq!(intel_cryo_tec_monitor::hex::pretty_print_bytes(&vec![0x0F]), "0f");
}

#[test]
fn test_build_snapshot_defaults_on_unexpected_responses() {
    // Every response carries the wrong operation for its field: all defaults.
    let snap = build_snapshot(
        (OpCode::GetHwVersion, 0xFFFF),
        (OpCode::Heartbeat, 0xFFFF),
        (OpCode::GetTecPowerLevel, 7),
        (OpCode::GetVoltageAndCurrent, 7),
        (OpCode::GetDewPoint, 7),
        (OpCode::GetTecVoltage, 7),
    );
    assert!(snap.heartbeat.iter().all(|(_, asserted)| !asserted));
    assert_eq!(snap.voltage_count, 0);
    assert_eq!(snap.current_count, 0);
    assert_eq!(snap.dewpoint_bits, 0);
    assert_eq!(snap.temperature_bits, 0);
    assert_eq!(snap.power_level, 0);
    assert_eq!(snap.humidity_bits, 0);
    // And with the expected operations, every field carries its reading.
    let snap = build_snapshot(
        (OpCode::Heartbeat, 0b11),
        (OpCode::GetVoltageAndCurrent, 0x152A),
        (OpCode::GetDewPoint, 13.71f32.to_bits()),
        (OpCode::GetTecTemperature, 100.0f32.to_bits()),
        (OpCode::GetTecPowerLevel, 7),
        (OpCode::GetHumidity, 42.5f32.to_bits()),
    );
    assert_eq!(snap.heartbeat[0], ("Board initialisation completed", true));
    assert_eq!(snap.heartbeat[2], ("TEC thermistor reading in range", false));
    assert_eq!(snap.voltage_count, 42);
    assert_eq!(snap.current_count, 21);
    assert_eq!(f32::from_bits(snap.dewpoint_bits), 13.71);
    assert_eq!(f32::from_bits(snap.temperature_bits), 100.0);
    assert_eq!(snap.power_level, 7);
    assert_eq!(f32::from_bits(snap.humidity_bits), 42.5);
}

#[test]
fn test_encode_heartbeat_exact_bytes() {
    let frame = encode_request(OpCode::Heartbeat.code(), 0);
    assert_eq!(frame, vec![0xAA, 0x00, 0x00, 0x00, 0x00, 0x00, 0x2A, 0x67]);
}

#[test]
fn test_crc_is_order_sensitive() {
    assert_ne!(crc16(&vec![1, 2], 0x1021, 0), crc16(&vec![2, 1], 0x1021, 0));
}

#[test]
fn test_encode_decode_round_trip_swaps_operand() {
    let frame = encode_request(5, 0x11223344);
    let (opcode, operand) = decode_response(&frame).unwrap();
    assert_eq!(opcode, 5);
    assert_eq!(operand, 0x44332211);
}

#[test]
fn test_encode_decode_round_trip_exact_for_palindromic_operand() {
    let frame = encode_request(3, 0x00000000);
    assert_eq!(decode_response(&frame).unwrap(), (3, 0));
    let frame = encode_request(3, 0x7E00007E);
    assert_eq!(decode_response(&frame).unwrap(), (3, 0x7E00007E));
}

#[test]
fn test_single_byte_tamper_is_checksum_mismatch() {
    let valid = vec![0xAA, 0x7F, 0x00, 0x00, 0x00, 0x00, 0x55, 0x1F];
    assert!(decode_response(&valid).is_ok());
    for i in 0..6 {
        let mut tampered = valid.clone();
        tampered[i] = tampered[i].wrapping_add(1);
        assert_eq!(decode_response(&tampered), Err(ProtocolError::ChecksumMismatch));
        let mut flipped = valid.clone();
        flipped[i] ^= 0xFF;
        assert_eq!(decode_response(&flipped), Err(ProtocolError::ChecksumMismatch));
    }
}

#[test]
fn test_voltage_current_interpretation() {
    let r = handle_data(OpCode::GetVoltageAndCurrent, 0x2A);
    assert_eq!(r, HandlerResult::VoltageCurrentCounts(42, 0));
    let voltage = 42.0f32 / 21.25;
    assert!((voltage - 1.976_470_5).abs() < 1e-5);

    let r = handle_data(OpCode::GetVoltageAndCurrent, 0x152A);
    assert_eq!(r, HandlerResult::VoltageCurrentCounts(42, 21));
    let current = 21.0f32 / 4.6545;
    assert!((current - 4.511_763).abs() < 1e-5);

    assert_eq!(handle_data(OpCode::GetTecVoltage, 100), HandlerResult::VoltageCount(100));
    assert_eq!(handle_data(OpCode::GetTecCurrent, 100), HandlerResult::CurrentCount(100));
}

#[test]
fn test_float_opcodes_carry_bits_unchanged() {
    let bits = 13.71f32.to_bits();
    assert_eq!(handle_data(OpCode::GetTecTemperature, bits), HandlerResult::FloatBits(bits));
    assert_eq!(handle_data(OpCode::GetDewPoint, bits), HandlerResult::FloatBits(bits));
    assert_eq!(handle_data(OpCode::GetHumidity, bits), HandlerResult::FloatBits(bits));
}

#[test]
fn test_other_opcodes_return_operand_unchanged() {
    assert_eq!(handle_data(OpCode::GetTecPowerLevel, 7), HandlerResult::Int(7));
    assert_eq!(handle_data(OpCode::GetHwVersion, 0xDEADBEEF), HandlerResult::Int(0xDEADBEEF));
}

#[test]
fn test_heartbeat_empty_mask_yields_no_conditions() {
    assert_eq!(heartbeat_flags(0), Vec::<&'static str>::new());
}

#[test]
fn test_heartbeat_flags_in_table_order() {
    assert_eq!(heartbeat_flags(0b1), vec!["Board initialisation completed"]);
    assert_eq!(
        heartbeat_flags(0b101),
        vec!["Board initialisation completed", "TEC thermistor reading in range"]
    );
    assert_eq!(heartbeat_flags(1 << 17), vec!["Using NTC thermistor"]);
    // Undefined bits above 17 are ignored.
    assert_eq!(heartbeat_flags(0xFFFC0000), Vec::<&'static str>::new());
}

#[test]
fn test_heartbeat_monotonic_on_concrete_masks() {
    let small = heartbeat_flags(0b100010);
    let large = heartbeat_flags(0b101011);
    // Every name of the smaller mask appears in the larger list, in order.
    let mut positions = Vec::new();
    for name in &small {
        positions.push(large.iter().position(|n| n == name).unwrap());
    }
    for w in positions.windows(2) {
        assert!(w[0] < w[1]);
    }
    assert!(small.len() < large.len());
}

#[test]
fn test_opcode_codes_round_trip() {
    let all = [
        OpCode::Heartbeat,
        OpCode::GetTecTemperature,
        OpCode::GetHumidity,
        OpCode::GetDewPoint,
        OpCode::GetSetPointOffset,
        OpCode::GetPCoefficient,
        OpCode::GetICoefficient,
        OpCode::GetDCoefficient,
        OpCode::GetTecPowerLevel,
        OpCode::GetHwVersion,
        OpCode::GetFwVersion,
        OpCode::SetSetPointOffset,
        OpCode::SetPCoefficient,
        OpCode::SetICoefficient,
        OpCode::SetDCoefficient,
        OpCode::SetLowPowerMode,
        OpCode::SetCPUTemp,
        OpCode::SetNtcCoefficient,
        OpCode::GetNtcCoefficient,
        OpCode::SetTempSensorMode,
        OpCode::SetTecPowerLevel,
        OpCode::ResetBoard,
        OpCode::GetBoardTemp,
        OpCode::GetVoltageAndCurrent,
        OpCode::GetTecVoltage,
        OpCode::GetTecCurrent,
    ];
    for op in all {
        assert_eq!(OpCode::from_code(op.code()), Some(op));
    }
    assert_eq!(OpCode::from_code(12), None);
    assert_eq!(OpCode::from_code(50), None);
}

#[test]
fn test_parse_frame_unknown_opcode() {
    // Code 50 names no operation: 127 + 50 = 177 in the opcode byte.
    let frame = make_response(177, 0);
    assert_eq!(parse_frame(&frame).unwrap_err(), ProtocolError::UnknownOpcode);
    // An opcode byte below the acknowledgement offset maps to nothing.
    let frame = make_response(5, 0);
    assert_eq!(parse_frame(&frame).unwrap_err(), ProtocolError::UnknownOpcode);
}

#[test]
fn test_heartbeat_map_names_and_defaults() {
    let map = heartbeat_map(0b1000000000001);
    assert_eq!(map.len(), 18);
    assert_eq!(map[0], ("Board initialisation completed", true));
    assert_eq!(map[1], ("Power supply OK", false));
    assert_eq!(map[12], ("PID is running", true));
    assert_eq!(map[17], ("Using NTC thermistor", false));
}

#[test]
fn test_poll_cycle_aggregates_snapshot() {
    let responses = vec![
        // Heartbeat: bits 0, 1 and 12 asserted.
        make_response(127, 0b1000000000011),
        // Combined voltage and current: counts 42 and 21.
        make_response(127 + 34, 0x152A),
        // Dew point 13.71, temperature 100.0, as IEEE-754 bit patterns.
        make_response(127 + 3, 13.71f32.to_bits()),
        make_response(127 + 1, 100.0f32.to_bits()),
        // Power level 3.
        make_response(127 + 8, 3),
        // Humidity 42.5.
        make_response(127 + 2, 42.5f32.to_bits()),
    ];
    let mut port = ReplayPort::new(responses);
    let snap = poll_cycle(&mut port).unwrap();
    assert_eq!(snap.heartbeat.len(), 18);
    assert_eq!(snap.heartbeat[0], ("Board initialisation completed", true));
    assert_eq!(snap.heartbeat[1], ("Power supply OK", true));
    assert_eq!(snap.heartbeat[2], ("TEC thermistor reading in range", false));
    assert_eq!(snap.heartbeat[12], ("PID is running", true));
    assert_eq!(snap.voltage_count, 42);
    assert_eq!(snap.current_count, 21);
    assert_eq!(f32::from_bits(snap.dewpoint_bits), 13.71);
    assert_eq!(f32::from_bits(snap.temperature_bits), 100.0);
    assert_eq!(snap.power_level, 3);
    assert_eq!(f32::from_bits(snap.humidity_bits), 42.5);
}

#[test]
fn test_poll_cycle_fails_on_checksum_mismatch() {
    let mut bad = make_response(127, 0);
    bad[2] ^= 0x01;
    let mut port = ReplayPort::new(vec![bad]);
    assert_eq!(poll_cycle(&mut port).unwrap_err(), ProtocolError::ChecksumMismatch);
}

#[test]
fn test_set_cryo_mode_issues_five_commands() {
    // The packed operands for setpoint offset 2.0, P 100.0, I 1.0: the
    // float's little-endian bytes reinterpreted as a big-endian integer.
    let offset = f32::to_bits(2.0).swap_bytes();
    let p = f32::to_bits(100.0).swap_bytes();
    let i = f32::to_bits(1.0).swap_bytes();
    let responses = vec![
        make_response(127 + 20, 0),
        make_response(127 + 21, 0),
        make_response(127 + 22, 0),
        make_response(127 + 23, 0),
        make_response(127 + 24, 0),
    ];
    let mut port = ReplayPort::new(responses);
    set_cryo_mode(&mut port, offset, p, i).unwrap();
    // Five eight-byte request frames were written, in order.
    assert_eq!(port.written.len(), 40);
    assert_eq!(port.written[1], 20);
    // The packed setpoint offset 2.0 travels as big-endian 0x00000040.
    assert_eq!(&port.written[2..6], &[0x00, 0x00, 0x00, 0x40]);
    assert_eq!(port.written[9], 21);
    assert_eq!(&port.written[10..14], &[0x00, 0x00, 0xC8, 0x42]);
    assert_eq!(port.written[17], 22);
    assert_eq!(port.written[25], 23);
    assert_eq!(port.written[33], 24);
}
