use intel_cryo_tec_monitor::error::ProtocolError;
use intel_cryo_tec_monitor::error::TransportFault;
use intel_cryo_tec_monitor::interpret::HandlerResult;
use intel_cryo_tec_monitor::opcode::OpCode;
use intel_cryo_tec_monitor::transport::read_data;
use intel_cryo_tec_monitor::transport::PortHistory;
use intel_cryo_tec_monitor::transport::send_data;
use intel_cryo_tec_monitor::transport::submit_command_s;
use intel_cryo_tec_monitor::transport::SerialPort;

/// A scripted in-memory stand-in for the serial link: records what is
/// written and replays queued response frames.
struct ScriptPort {
    written: Vec<u8>,
    responses: Vec<Vec<u8>>,
    fail_write: bool,
    fail_read: bool,
}

impl ScriptPort {
    fn new(responses: Vec<Vec<u8>>) -> ScriptPort {
        ScriptPort { written: Vec::new(), responses, fail_write: false, fail_read: false }
    }
}

impl SerialPort for ScriptPort {
    fn history(&self) -> PortHistory {
        panic!("the transport history is a specification value with no runtime form")
    }

    fn write_all(&mut self, buf: &[u8]) -> Result<(), TransportFault> {
        if self.fail_write {
            return Err(TransportFault);
        }
        self.written.extend_from_slice(buf);
        Ok(())
    }

    fn read_exact(&mut self, n: usize) -> Result<Vec<u8>, TransportFault> {
        if self.fail_read || self.responses.is_empty() {
            return Err(TransportFault);
        }
        let r = self.responses.remove(0);
        assert_eq!(r.len(), n);
        Ok(r)
    }
}

#[test]
fn test_serial_port_write() {
    let mut port = ScriptPort::new(vec![]);
    send_data(OpCode::Heartbeat.code(), 0, &mut port).unwrap();
    assert_eq!(port.written, vec![0xAA, 0x00, 0x00, 0x00, 0x00, 0x00, 0x2A, 0x67]);
}

#[test]
fn test_serial_port_read() {
    let mut port = ScriptPort::new(vec![vec![0xAA, 0x7F, 0x00, 0x00, 0x00, 0x00, 0x55, 0x1F]]);
    let r = read_data(&mut port).unwrap();
    assert_eq!(r.0, OpCode::Heartbeat);
    assert_eq!(r.1, HandlerResult::Conditions([].to_vec()));
}

#[test]
fn test_floating_point_pack() {
    let mut port = ScriptPort::new(vec![vec![0xAA, 0x80, 0x29, 0x5C, 0x5B, 0x41, 0xCC, 0x20]]);
    let r = submit_command_s(OpCode::GetTecTemperature, 0x00, &mut port).unwrap();
    assert_eq!(port.written, vec![0xAA, 0x01, 0x00, 0x00, 0x00, 0x00, 0x7B, 0xCD]);
    assert_eq!(r.0, OpCode::GetTecTemperature);
    match r.1 {
        HandlerResult::FloatBits(bits) => assert_eq!(f32::from_bits(bits), 13.71),
        other => panic!("expected a float reading, got {:?}", other),
    }
}

#[test]
fn test_floating_point_pack_100() {
    let mut port = ScriptPort::new(vec![vec![0xAA, 0x80, 0x00, 0x00, 0xC8, 0x42, 0x81, 0xB2]]);
    let r = submit_command_s(OpCode::GetTecTemperature, 0x00, &mut port).unwrap();
    assert_eq!(port.written, vec![0xAA, 0x01, 0x00, 0x00, 0x00, 0x00, 0x7B, 0xCD]);
    assert_eq!(r.0, OpCode::GetTecTemperature);
    match r.1 {
        HandlerResult::FloatBits(bits) => assert_eq!(f32::from_bits(bits), 100.0),
        other => panic!("expected a float reading, got {:?}", other),
    }
}

#[test]
fn test_write_failure_is_transport_error() {
    let mut port = ScriptPort::new(vec![]);
    port.fail_write = true;
    let r = submit_command_s(OpCode::Heartbeat, 0, &mut port);
    assert_eq!(r, Err(ProtocolError::TransportError));
}

#[test]
fn test_read_failure_is_transport_error() {
    let mut port = ScriptPort::new(vec![]);
    port.fail_read = true;
    let r = submit_command_s(OpCode::Heartbeat, 0, &mut port);
    assert_eq!(r, Err(ProtocolError::TransportError));
}
