//! The monitor's per-cycle work: issue the polling commands in a fixed
//! order, and aggregate what came back into a fresh snapshot. The caller
//! owns the cadence (the settle period after a reset, the sleep between
//! cycles) and the persistence of each snapshot.

use vstd::prelude::*;

use crate::error::ProtocolError;
use crate::interpret::bit_set;
use crate::interpret::heartbeat_bit_count;
use crate::interpret::heartbeat_condition_name;
use crate::interpret::handle_data;
use crate::interpret::heartbeat_name_spec;
use crate::interpret::interpret_spec;
use crate::interpret::HandlerModel;
use crate::interpret::HandlerResult;
use crate::opcode::OpCode;
use crate::transport::exchange;
use crate::transport::parse_raw_spec;
use crate::transport::parse_response_spec;
use crate::transport::request_frame_of;
use crate::transport::submit_command_raw;
use crate::transport::submit_command_s;
use crate::transport::PortEvent;
use crate::transport::SerialPort;

verus! {

/// One polling cycle's readings, rebuilt from scratch every cycle. Sensor
/// readings stay in the raw form the board sent: IEEE-754 bit patterns for
/// dew point, temperature and humidity, counts for voltage and current.
#[derive(Clone, Debug, PartialEq)]
pub struct Snapshot {
    /// Each of the 18 named heartbeat conditions, in table order, with
    /// whether the most recent heartbeat read asserted it.
    pub heartbeat: Vec<(&'static str, bool)>,
    /// Raw voltage count from the combined voltage/current reading.
    pub voltage_count: u8,
    /// Raw current count from the combined voltage/current reading.
    pub current_count: u8,
    /// Raw bit pattern of the dew point reading.
    pub dewpoint_bits: u32,
    /// Raw bit pattern of the temperature reading.
    pub temperature_bits: u32,
    /// The TEC power level, unchanged.
    pub power_level: u32,
    /// Raw bit pattern of the humidity reading.
    pub humidity_bits: u32,
}

/// A well-formed snapshot names all 18 heartbeat conditions, in table order.
pub open spec fn snapshot_wf(s: Snapshot) -> bool {
    &&& s.heartbeat@.len() == heartbeat_bit_count()
    &&& forall|i: int|
        0 <= i < heartbeat_bit_count() ==> (#[trigger] s.heartbeat@[i]).0@ == heartbeat_name_spec(
            i,
        )
}

/// The float reading a response carries, or the default zero when its
/// interpretation is not a float reading.
pub open spec fn float_bits_or_zero(op: OpCode, x: u32) -> u32 {
    match interpret_spec(op, x) {
        HandlerModel::FloatBits(b) => b,
        _ => 0,
    }
}

/// The plain integer a response carries, or the default zero when its
/// interpretation is not a plain integer.
pub open spec fn int_or_zero(op: OpCode, x: u32) -> u32 {
    match interpret_spec(op, x) {
        HandlerModel::Int(p) => p,
        _ => 0,
    }
}

/// The voltage count of a combined voltage/current response, or zero.
pub open spec fn voltage_count_or_zero(op: OpCode, x: u32) -> u8 {
    match interpret_spec(op, x) {
        HandlerModel::VoltageCurrentCounts(v, _) => v,
        _ => 0,
    }
}

/// The current count of a combined voltage/current response, or zero.
pub open spec fn current_count_or_zero(op: OpCode, x: u32) -> u8 {
    match interpret_spec(op, x) {
        HandlerModel::VoltageCurrentCounts(_, c) => c,
        _ => 0,
    }
}

/// How a snapshot aggregates the six responses of one polling cycle — each
/// response as its recovered operation and raw operand. Every heartbeat
/// condition is paired with its bit of the heartbeat operand, or false when
/// the heartbeat response carried some other operation; every other field
/// takes its response's interpretation when it has the expected shape and
/// the default zero otherwise.
pub open spec fn snapshot_matches(
    snap: Snapshot,
    hb: (OpCode, u32),
    vc: (OpCode, u32),
    dew: (OpCode, u32),
    temp: (OpCode, u32),
    power: (OpCode, u32),
    hum: (OpCode, u32),
) -> bool {
    &&& snap.heartbeat@.len() == heartbeat_bit_count()
    &&& forall|i: int|
        0 <= i < heartbeat_bit_count() ==> (#[trigger] snap.heartbeat@[i]).0@
            == heartbeat_name_spec(i) && snap.heartbeat@[i].1 == (hb.0 == OpCode::Heartbeat
            && bit_set(hb.1, i as u32))
    &&& snap.voltage_count == voltage_count_or_zero(vc.0, vc.1)
    &&& snap.current_count == current_count_or_zero(vc.0, vc.1)
    &&& snap.dewpoint_bits == float_bits_or_zero(dew.0, dew.1)
    &&& snap.temperature_bits == float_bits_or_zero(temp.0, temp.1)
    &&& snap.power_level == int_or_zero(power.0, power.1)
    &&& snap.humidity_bits == float_bits_or_zero(hum.0, hum.1)
}

/// The 18 heartbeat conditions with their states under the status word `x`:
/// condition `i` is paired with bit `i` of `x`.
pub fn heartbeat_map(x: u32) -> (r: Vec<(&'static str, bool)>)
    ensures
        r@.len() == heartbeat_bit_count(),
        forall|i: int|
            0 <= i < heartbeat_bit_count() ==> (#[trigger] r@[i]).0@ == heartbeat_name_spec(i)
                && r@[i].1 == bit_set(x, i as u32),
{
    let mut v: Vec<(&'static str, bool)> = Vec::new();
    let mut i: u8 = 0;
    while i < 18
        invariant
            i <= 18,
            v@.len() == i,
            forall|k: int|
                0 <= k < i ==> (#[trigger] v@[k]).0@ == heartbeat_name_spec(k) && v@[k].1
                    == bit_set(x, k as u32),
        decreases 18 - i,
    {
        let name = heartbeat_condition_name(i);
        let asserted = x & (1u32 << (i as u32)) != 0;
        v.push((name, asserted));
        i = i + 1;
    }
    v
}

/// Aggregate one polling cycle's six responses — each as its recovered
/// operation and raw operand — into a fresh snapshot, per
/// `snapshot_matches`: a response without the expected interpretation
/// leaves its field at the default zero, and a heartbeat response under
/// some other operation leaves every condition unasserted.
pub fn build_snapshot(
    hb: (OpCode, u32),
    vc: (OpCode, u32),
    dew: (OpCode, u32),
    temp: (OpCode, u32),
    power: (OpCode, u32),
    hum: (OpCode, u32),
) -> (snap: Snapshot)
    ensures
        snapshot_matches(snap, hb, vc, dew, temp, power, hum),
{
    proof {
        assert(forall|i: u32| i < 32 ==> 0u32 & (1u32 << i) == 0) by (bit_vector);
    }
    let heartbeat = if hb.0 == OpCode::Heartbeat {
        heartbeat_map(hb.1)
    } else {
        heartbeat_map(0)
    };
    let (voltage_count, current_count) = match handle_data(vc.0, vc.1) {
        HandlerResult::VoltageCurrentCounts(v, c) => (v, c),
        _ => (0u8, 0u8),
    };
    let dewpoint_bits = match handle_data(dew.0, dew.1) {
        HandlerResult::FloatBits(b) => b,
        _ => 0u32,
    };
    let temperature_bits = match handle_data(temp.0, temp.1) {
        HandlerResult::FloatBits(b) => b,
        _ => 0u32,
    };
    let power_level = match handle_data(power.0, power.1) {
        HandlerResult::Int(p) => p,
        _ => 0u32,
    };
    let humidity_bits = match handle_data(hum.0, hum.1) {
        HandlerResult::FloatBits(b) => b,
        _ => 0u32,
    };
    Snapshot {
        heartbeat,
        voltage_count,
        current_count,
        dewpoint_bits,
        temperature_bits,
        power_level,
        humidity_bits,
    }
}

proof fn lemma_poll_failure_witness(h: Seq<PortEvent>, op: OpCode, post: Seq<PortEvent>, e: ProtocolError)
    requires
        e == ProtocolError::TransportError || exists|f: Seq<u8>|
            f.len() == 8 && post == h + seq![
                PortEvent::Wrote(request_frame_of(op, 0)),
                PortEvent::Read(f),
            ] && parse_raw_spec(f) == Result::<(OpCode, u32), ProtocolError>::Err(e),
    ensures
        e == ProtocolError::TransportError || exists|pre: Seq<PortEvent>, op2: OpCode, f: Seq<u8>|
            #![trigger pre + exchange(op2, 0, f)]
            (f.len() == 8 && post == pre + exchange(op2, 0, f) && parse_raw_spec(f) == Result::<
                (OpCode, u32),
                ProtocolError,
            >::Err(e)),
{
    if e != ProtocolError::TransportError {
        let f = choose|f: Seq<u8>|
            f.len() == 8 && post == h + seq![
                PortEvent::Wrote(request_frame_of(op, 0)),
                PortEvent::Read(f),
            ] && parse_raw_spec(f) == Result::<(OpCode, u32), ProtocolError>::Err(e);
        assert(post == h + exchange(op, 0, f));
    }
}

/// One polling cycle: issue, in order, the heartbeat, combined
/// voltage/current, dew point, temperature, power level and humidity
/// commands, each with operand zero, and aggregate the six responses into a
/// fresh snapshot per `snapshot_matches`. On success the transport's
/// history shows exactly those six exchanges, in order. Any command failure
/// ends the cycle with that command's error and no snapshot.
pub fn poll_cycle<S: SerialPort>(s: &mut S) -> (r: Result<Snapshot, ProtocolError>)
    ensures
        r matches Ok(snap) ==> exists|
            f1: Seq<u8>,
            f2: Seq<u8>,
            f3: Seq<u8>,
            f4: Seq<u8>,
            f5: Seq<u8>,
            f6: Seq<u8>,
        |
            #![trigger exchange(OpCode::Heartbeat, 0, f1), exchange(OpCode::GetVoltageAndCurrent, 0, f2), exchange(OpCode::GetDewPoint, 0, f3), exchange(OpCode::GetTecTemperature, 0, f4), exchange(OpCode::GetTecPowerLevel, 0, f5), exchange(OpCode::GetHumidity, 0, f6)]
            (f1.len() == 8 && f2.len() == 8 && f3.len() == 8 && f4.len() == 8 && f5.len() == 8
                && f6.len() == 8 && final(s).history() == old(s).history() + exchange(
                OpCode::Heartbeat,
                0,
                f1,
            ) + exchange(OpCode::GetVoltageAndCurrent, 0, f2) + exchange(OpCode::GetDewPoint, 0, f3)
                + exchange(OpCode::GetTecTemperature, 0, f4) + exchange(
                OpCode::GetTecPowerLevel,
                0,
                f5,
            ) + exchange(OpCode::GetHumidity, 0, f6) && parse_raw_spec(f1) is Ok && parse_raw_spec(
                f2,
            ) is Ok && parse_raw_spec(f3) is Ok && parse_raw_spec(f4) is Ok && parse_raw_spec(f5)
                is Ok && parse_raw_spec(f6) is Ok && snapshot_matches(
                snap,
                parse_raw_spec(f1)->Ok_0,
                parse_raw_spec(f2)->Ok_0,
                parse_raw_spec(f3)->Ok_0,
                parse_raw_spec(f4)->Ok_0,
                parse_raw_spec(f5)->Ok_0,
                parse_raw_spec(f6)->Ok_0,
            )),
        r matches Ok(snap) ==> snapshot_wf(snap),
        r matches Err(e) ==> e == ProtocolError::TransportError || exists|
            pre: Seq<PortEvent>,
            op: OpCode,
            f: Seq<u8>,
        |
            #![trigger pre + exchange(op, 0, f)]
            (f.len() == 8 && final(s).history() == pre + exchange(op, 0, f) && parse_raw_spec(f)
                == Result::<(OpCode, u32), ProtocolError>::Err(e)),
{
    let ghost h0 = s.history();
    let r1 = submit_command_raw(OpCode::Heartbeat, 0, s);
    let p1 = match &r1 {
        Result::Ok(p) => *p,
        Result::Err(e) => {
            proof {
                lemma_poll_failure_witness(h0, OpCode::Heartbeat, s.history(), *e);
            }
            return Result::Err(*e);
        },
    };
    let ghost h1 = s.history();
    let r2 = submit_command_raw(OpCode::GetVoltageAndCurrent, 0, s);
    let p2 = match &r2 {
        Result::Ok(p) => *p,
        Result::Err(e) => {
            proof {
                lemma_poll_failure_witness(h1, OpCode::GetVoltageAndCurrent, s.history(), *e);
            }
            return Result::Err(*e);
        },
    };
    let ghost h2 = s.history();
    let r3 = submit_command_raw(OpCode::GetDewPoint, 0, s);
    let p3 = match &r3 {
        Result::Ok(p) => *p,
        Result::Err(e) => {
            proof {
                lemma_poll_failure_witness(h2, OpCode::GetDewPoint, s.history(), *e);
            }
            return Result::Err(*e);
        },
    };
    let ghost h3 = s.history();
    let r4 = submit_command_raw(OpCode::GetTecTemperature, 0, s);
    let p4 = match &r4 {
        Result::Ok(p) => *p,
        Result::Err(e) => {
            proof {
                lemma_poll_failure_witness(h3, OpCode::GetTecTemperature, s.history(), *e);
            }
            return Result::Err(*e);
        },
    };
    let ghost h4 = s.history();
    let r5 = submit_command_raw(OpCode::GetTecPowerLevel, 0, s);
    let p5 = match &r5 {
        Result::Ok(p) => *p,
        Result::Err(e) => {
            proof {
                lemma_poll_failure_witness(h4, OpCode::GetTecPowerLevel, s.history(), *e);
            }
            return Result::Err(*e);
        },
    };
    let ghost h5 = s.history();
    let r6 = submit_command_raw(OpCode::GetHumidity, 0, s);
    let p6 = match &r6 {
        Result::Ok(p) => *p,
        Result::Err(e) => {
            proof {
                lemma_poll_failure_witness(h5, OpCode::GetHumidity, s.history(), *e);
            }
            return Result::Err(*e);
        },
    };
    let ghost h6 = s.history();
    let snap = build_snapshot(p1, p2, p3, p4, p5, p6);
    proof {
        let f1 = choose|f: Seq<u8>|
            f.len() == 8 && h1 == h0 + seq![
                PortEvent::Wrote(request_frame_of(OpCode::Heartbeat, 0)),
                PortEvent::Read(f),
            ] && parse_raw_spec(f) == Result::<(OpCode, u32), ProtocolError>::Ok(p1);
        let f2 = choose|f: Seq<u8>|
            f.len() == 8 && h2 == h1 + seq![
                PortEvent::Wrote(request_frame_of(OpCode::GetVoltageAndCurrent, 0)),
                PortEvent::Read(f),
            ] && parse_raw_spec(f) == Result::<(OpCode, u32), ProtocolError>::Ok(p2);
        let f3 = choose|f: Seq<u8>|
            f.len() == 8 && h3 == h2 + seq![
                PortEvent::Wrote(request_frame_of(OpCode::GetDewPoint, 0)),
                PortEvent::Read(f),
            ] && parse_raw_spec(f) == Result::<(OpCode, u32), ProtocolError>::Ok(p3);
        let f4 = choose|f: Seq<u8>|
            f.len() == 8 && h4 == h3 + seq![
                PortEvent::Wrote(request_frame_of(OpCode::GetTecTemperature, 0)),
                PortEvent::Read(f),
            ] && parse_raw_spec(f) == Result::<(OpCode, u32), ProtocolError>::Ok(p4);
        let f5 = choose|f: Seq<u8>|
            f.len() == 8 && h5 == h4 + seq![
                PortEvent::Wrote(request_frame_of(OpCode::GetTecPowerLevel, 0)),
                PortEvent::Read(f),
            ] && parse_raw_spec(f) == Result::<(OpCode, u32), ProtocolError>::Ok(p5);
        let f6 = choose|f: Seq<u8>|
            f.len() == 8 && h6 == h5 + seq![
                PortEvent::Wrote(request_frame_of(OpCode::GetHumidity, 0)),
                PortEvent::Read(f),
            ] && parse_raw_spec(f) == Result::<(OpCode, u32), ProtocolError>::Ok(p6);
        assert(h6 == h0 + exchange(OpCode::Heartbeat, 0, f1) + exchange(
            OpCode::GetVoltageAndCurrent,
            0,
            f2,
        ) + exchange(OpCode::GetDewPoint, 0, f3) + exchange(OpCode::GetTecTemperature, 0, f4)
            + exchange(OpCode::GetTecPowerLevel, 0, f5) + exchange(OpCode::GetHumidity, 0, f6));
        assert(snapshot_matches(snap, p1, p2, p3, p4, p5, p6));
        assert((f1.len() == 8 && f2.len() == 8 && f3.len() == 8 && f4.len() == 8 && f5.len() == 8
            && f6.len() == 8 && s.history() == h0 + exchange(OpCode::Heartbeat, 0, f1) + exchange(
            OpCode::GetVoltageAndCurrent,
            0,
            f2,
        ) + exchange(OpCode::GetDewPoint, 0, f3) + exchange(OpCode::GetTecTemperature, 0, f4)
            + exchange(OpCode::GetTecPowerLevel, 0, f5) + exchange(OpCode::GetHumidity, 0, f6)
            && parse_raw_spec(f1) is Ok && parse_raw_spec(f2) is Ok && parse_raw_spec(f3) is Ok
            && parse_raw_spec(f4) is Ok && parse_raw_spec(f5) is Ok && parse_raw_spec(f6) is Ok
            && snapshot_matches(
            snap,
            parse_raw_spec(f1)->Ok_0,
            parse_raw_spec(f2)->Ok_0,
            parse_raw_spec(f3)->Ok_0,
            parse_raw_spec(f4)->Ok_0,
            parse_raw_spec(f5)->Ok_0,
            parse_raw_spec(f6)->Ok_0,
        )));
    }
    Result::Ok(snap)
}

/// The one-shot configuration sequence issued once after a board reset: on
/// success the transport's history shows exactly five exchanges, in order —
/// set the setpoint offset, then the P, I and D coefficients, then enable
/// low-power mode — with the given packed operands, zero for the D
/// coefficient and for low-power mode, and the five responses discarded.
/// The three float-valued operands arrive already packed as the wire
/// encoding expects. Any failure is surfaced for the caller to treat as
/// fatal, the board's operating mode being otherwise unknown.
pub fn set_cryo_mode<S: SerialPort>(
    s: &mut S,
    setpoint_offset_packed: u32,
    p_coefficient_packed: u32,
    i_coefficient_packed: u32,
) -> (r: Result<(), ProtocolError>)
    ensures
        r matches Ok(_) ==> exists|f1: Seq<u8>, f2: Seq<u8>, f3: Seq<u8>, f4: Seq<u8>, f5: Seq<u8>|
            (f1.len() == 8 && f2.len() == 8 && f3.len() == 8 && f4.len() == 8 && f5.len() == 8
                && final(s).history() == old(s).history() + exchange(
                OpCode::SetSetPointOffset,
                setpoint_offset_packed,
                f1,
            ) + exchange(OpCode::SetPCoefficient, p_coefficient_packed, f2) + exchange(
                OpCode::SetICoefficient,
                i_coefficient_packed,
                f3,
            ) + exchange(OpCode::SetDCoefficient, 0, f4) + exchange(OpCode::SetLowPowerMode, 0, f5)
                && parse_response_spec(f1) is Ok && parse_response_spec(f2) is Ok
                && parse_response_spec(f3) is Ok && parse_response_spec(f4) is Ok
                && parse_response_spec(f5) is Ok),
{
    let ghost h0 = s.history();
    let r1 = submit_command_s(OpCode::SetSetPointOffset, setpoint_offset_packed, s);
    match &r1 {
        Result::Err(e) => {
            return Result::Err(*e);
        },
        Result::Ok(_) => {},
    }
    let ghost h1 = s.history();
    let r2 = submit_command_s(OpCode::SetPCoefficient, p_coefficient_packed, s);
    match &r2 {
        Result::Err(e) => {
            return Result::Err(*e);
        },
        Result::Ok(_) => {},
    }
    let ghost h2 = s.history();
    let r3 = submit_command_s(OpCode::SetICoefficient, i_coefficient_packed, s);
    match &r3 {
        Result::Err(e) => {
            return Result::Err(*e);
        },
        Result::Ok(_) => {},
    }
    let ghost h3 = s.history();
    let r4 = submit_command_s(OpCode::SetDCoefficient, 0, s);
    match &r4 {
        Result::Err(e) => {
            return Result::Err(*e);
        },
        Result::Ok(_) => {},
    }
    let ghost h4 = s.history();
    let r5 = submit_command_s(OpCode::SetLowPowerMode, 0, s);
    match &r5 {
        Result::Err(e) => {
            return Result::Err(*e);
        },
        Result::Ok(_) => {},
    }
    let ghost h5 = s.history();
    proof {
        let q1 = r1->Ok_0;
        let f1 = choose|f: Seq<u8>|
            f.len() == 8 && h1 == h0 + seq![
                PortEvent::Wrote(request_frame_of(OpCode::SetSetPointOffset, setpoint_offset_packed)),
                PortEvent::Read(f),
            ] && parse_response_spec(f) == Result::<(OpCode, HandlerModel), ProtocolError>::Ok(
                (q1.0, q1.1@),
            );
        let q2 = r2->Ok_0;
        let f2 = choose|f: Seq<u8>|
            f.len() == 8 && h2 == h1 + seq![
                PortEvent::Wrote(request_frame_of(OpCode::SetPCoefficient, p_coefficient_packed)),
                PortEvent::Read(f),
            ] && parse_response_spec(f) == Result::<(OpCode, HandlerModel), ProtocolError>::Ok(
                (q2.0, q2.1@),
            );
        let q3 = r3->Ok_0;
        let f3 = choose|f: Seq<u8>|
            f.len() == 8 && h3 == h2 + seq![
                PortEvent::Wrote(request_frame_of(OpCode::SetICoefficient, i_coefficient_packed)),
                PortEvent::Read(f),
            ] && parse_response_spec(f) == Result::<(OpCode, HandlerModel), ProtocolError>::Ok(
                (q3.0, q3.1@),
            );
        let q4 = r4->Ok_0;
        let f4 = choose|f: Seq<u8>|
            f.len() == 8 && h4 == h3 + seq![
                PortEvent::Wrote(request_frame_of(OpCode::SetDCoefficient, 0)),
                PortEvent::Read(f),
            ] && parse_response_spec(f) == Result::<(OpCode, HandlerModel), ProtocolError>::Ok(
                (q4.0, q4.1@),
            );
        let q5 = r5->Ok_0;
        let f5 = choose|f: Seq<u8>|
            f.len() == 8 && h5 == h4 + seq![
                PortEvent::Wrote(request_frame_of(OpCode::SetLowPowerMode, 0)),
                PortEvent::Read(f),
            ] && parse_response_spec(f) == Result::<(OpCode, HandlerModel), ProtocolError>::Ok(
                (q5.0, q5.1@),
            );
        assert(h5 == h0 + exchange(OpCode::SetSetPointOffset, setpoint_offset_packed, f1)
            + exchange(OpCode::SetPCoefficient, p_coefficient_packed, f2) + exchange(
            OpCode::SetICoefficient,
            i_coefficient_packed,
            f3,
        ) + exchange(OpCode::SetDCoefficient, 0, f4) + exchange(OpCode::SetLowPowerMode, 0, f5));
    }
    Result::Ok(())
}

} // verus!
