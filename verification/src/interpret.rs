//! Interpretation of a response operand according to its opcode. Sensor
//! readings arrive either as the raw bit pattern of an IEEE-754 single
//! (temperature, dew point, humidity), as raw counts that a fixed divisor
//! turns into volts or amperes (voltage, current), or as an 18-bit status
//! bitmask (heartbeat). The core carries bit patterns and counts unchanged;
//! turning them into floating-point readings is the caller's concern.

use vstd::prelude::*;

use crate::opcode::OpCode;

verus! {

/// The number of defined heartbeat condition bits.
pub open spec fn heartbeat_bit_count() -> u32 {
    18
}

/// The human-readable name of one heartbeat condition bit.
pub open spec fn heartbeat_name_spec(i: int) -> Seq<char> {
    if i == 0 {
        "Board initialisation completed"@
    } else if i == 1 {
        "Power supply OK"@
    } else if i == 2 {
        "TEC thermistor reading in range"@
    } else if i == 3 {
        "Humidity sensor reading in range"@
    } else if i == 4 {
        "Last received command OK"@
    } else if i == 5 {
        "Last received command had a bad CRC"@
    } else if i == 6 {
        "Last received command is incomplete"@
    } else if i == 7 {
        "Failsafe has been activated"@
    } else if i == 8 {
        "PID constants were loaded and accepted"@
    } else if i == 9 {
        "PID constants were rejected"@
    } else if i == 10 {
        "Set point for the PID is out of range"@
    } else if i == 11 {
        "Default set point was loaded"@
    } else if i == 12 {
        "PID is running"@
    } else if i == 13 {
        "Overcurrent protection has been triggered"@
    } else if i == 14 {
        "Board temperature is in range"@
    } else if i == 15 {
        "TEC connection OK"@
    } else if i == 16 {
        "Low power mode enabled"@
    } else if i == 17 {
        "Using NTC thermistor"@
    } else {
        Seq::empty()
    }
}

/// Whether bit `i` of `x` is set.
pub open spec fn bit_set(x: u32, i: u32) -> bool
    recommends
        i < 32,
{
    x & (1u32 << i) != 0
}

/// The names of the condition bits set in `x` among the first `n`, in table
/// order.
pub open spec fn heartbeat_upto(x: u32, n: nat) -> Seq<Seq<char>>
    recommends
        n <= heartbeat_bit_count(),
    decreases n,
{
    if n == 0 {
        Seq::empty()
    } else {
        heartbeat_upto(x, (n - 1) as nat) + if bit_set(x, (n - 1) as u32) {
            seq![heartbeat_name_spec(n - 1)]
        } else {
            Seq::empty()
        }
    }
}

/// The names of all condition bits set in `x`, in table order. Bits at index
/// 18 and above are undefined and ignored.
pub open spec fn heartbeat_list_spec(x: u32) -> Seq<Seq<char>> {
    heartbeat_upto(x, heartbeat_bit_count() as nat)
}

/// The views of a vector of condition names.
pub open spec fn names_view(v: Seq<&str>) -> Seq<Seq<char>> {
    v.map_values(|s: &str| s@)
}

/// The typed value a raw operand carries, per opcode.
#[derive(Clone, Debug, PartialEq)]
pub enum HandlerResult {
    /// The raw bit pattern of an IEEE-754 single-precision reading.
    FloatBits(u32),
    /// A raw count that the voltage divisor turns into volts.
    VoltageCount(u32),
    /// A raw count that the current divisor turns into amperes.
    CurrentCount(u32),
    /// Raw voltage and current counts from one combined reading: the
    /// operand's low byte, then its next byte.
    VoltageCurrentCounts(u8, u8),
    /// The names of the heartbeat conditions asserted, in table order.
    Conditions(Vec<&'static str>),
    /// An operand with no special interpretation, unchanged.
    Int(u32),
}

/// The mathematical value of a `HandlerResult`.
pub enum HandlerModel {
    FloatBits(u32),
    VoltageCount(u32),
    CurrentCount(u32),
    VoltageCurrentCounts(u8, u8),
    Conditions(Seq<Seq<char>>),
    Int(u32),
}

impl View for HandlerResult {
    type V = HandlerModel;

    open spec fn view(&self) -> HandlerModel {
        match self {
            HandlerResult::FloatBits(x) => HandlerModel::FloatBits(*x),
            HandlerResult::VoltageCount(x) => HandlerModel::VoltageCount(*x),
            HandlerResult::CurrentCount(x) => HandlerModel::CurrentCount(*x),
            HandlerResult::VoltageCurrentCounts(v, c) => HandlerModel::VoltageCurrentCounts(
                *v,
                *c,
            ),
            HandlerResult::Conditions(v) => HandlerModel::Conditions(names_view(v@)),
            HandlerResult::Int(x) => HandlerModel::Int(*x),
        }
    }
}

/// How each opcode's raw 32-bit operand is reinterpreted.
pub open spec fn interpret_spec(op: OpCode, x: u32) -> HandlerModel {
    match op {
        OpCode::GetTecVoltage => HandlerModel::VoltageCount(x),
        OpCode::GetTecCurrent => HandlerModel::CurrentCount(x),
        OpCode::GetVoltageAndCurrent => HandlerModel::VoltageCurrentCounts(
            (x & 0xFF) as u8,
            ((x >> 8) & 0xFF) as u8,
        ),
        OpCode::Heartbeat => HandlerModel::Conditions(heartbeat_list_spec(x)),
        OpCode::GetTecTemperature => HandlerModel::FloatBits(x),
        OpCode::GetDewPoint => HandlerModel::FloatBits(x),
        OpCode::GetHumidity => HandlerModel::FloatBits(x),
        _ => HandlerModel::Int(x),
    }
}

/// The name of one heartbeat condition bit.
pub fn heartbeat_condition_name(i: u8) -> (r: &'static str)
    requires
        i < heartbeat_bit_count(),
    ensures
        r@ == heartbeat_name_spec(i as int),
{
    match i {
        0 => "Board initialisation completed",
        1 => "Power supply OK",
        2 => "TEC thermistor reading in range",
        3 => "Humidity sensor reading in range",
        4 => "Last received command OK",
        5 => "Last received command had a bad CRC",
        6 => "Last received command is incomplete",
        7 => "Failsafe has been activated",
        8 => "PID constants were loaded and accepted",
        9 => "PID constants were rejected",
        10 => "Set point for the PID is out of range",
        11 => "Default set point was loaded",
        12 => "PID is running",
        13 => "Overcurrent protection has been triggered",
        14 => "Board temperature is in range",
        15 => "TEC connection OK",
        16 => "Low power mode enabled",
        _ => "Using NTC thermistor",
    }
}

/// The names of the conditions asserted in an 18-bit heartbeat status word,
/// in table order.
pub fn heartbeat_flags(x: u32) -> (r: Vec<&'static str>)
    ensures
        names_view(r@) == heartbeat_list_spec(x),
{
    let mut v: Vec<&'static str> = Vec::new();
    let mut i: u8 = 0;
    while i < 18
        invariant
            i <= 18,
            names_view(v@) == heartbeat_upto(x, i as nat),
        decreases 18 - i,
    {
        if x & (1u32 << (i as u32)) != 0 {
            let name = heartbeat_condition_name(i);
            v.push(name);
            proof {
                assert(names_view(v@) =~= heartbeat_upto(x, (i + 1) as nat));
            }
        } else {
            proof {
                assert(names_view(v@) =~= heartbeat_upto(x, (i + 1) as nat));
            }
        }
        i = i + 1;
    }
    v
}

/// Whether `a` is a subsequence of `b`: every element of `a` appears in `b`,
/// in the same order, with none removed.
pub open spec fn is_subseq(a: Seq<Seq<char>>, b: Seq<Seq<char>>) -> bool
    decreases b.len(),
{
    if a.len() == 0 {
        true
    } else if b.len() == 0 {
        false
    } else {
        (a.last() == b.last() && is_subseq(a.drop_last(), b.drop_last())) || is_subseq(
            a,
            b.drop_last(),
        )
    }
}

proof fn lemma_heartbeat_upto_subseq(x: u32, y: u32, n: nat)
    requires
        n <= heartbeat_bit_count(),
        forall|i: u32| i < heartbeat_bit_count() && bit_set(x, i) ==> bit_set(y, i),
    ensures
        is_subseq(heartbeat_upto(x, n), heartbeat_upto(y, n)),
    decreases n,
{
    if n > 0 {
        let m = (n - 1) as nat;
        lemma_heartbeat_upto_subseq(x, y, m);
        let a = heartbeat_upto(x, n);
        let b = heartbeat_upto(y, n);
        if bit_set(x, m as u32) {
            assert(bit_set(y, m as u32));
            assert(a.drop_last() =~= heartbeat_upto(x, m));
            assert(b.drop_last() =~= heartbeat_upto(y, m));
            assert(a.last() == b.last());
        } else if bit_set(y, m as u32) {
            assert(a =~= heartbeat_upto(x, m));
            assert(b.drop_last() =~= heartbeat_upto(y, m));
            if a.len() > 0 {
                assert(is_subseq(a, b.drop_last()));
            }
        } else {
            assert(a =~= heartbeat_upto(x, m));
            assert(b =~= heartbeat_upto(y, m));
        }
    }
}

proof fn lemma_heartbeat_upto_len(x: u32, y: u32, n: nat)
    requires
        n <= heartbeat_bit_count(),
        forall|i: u32| i < heartbeat_bit_count() && bit_set(x, i) ==> bit_set(y, i),
    ensures
        heartbeat_upto(x, n).len() <= heartbeat_upto(y, n).len(),
    decreases n,
{
    if n > 0 {
        lemma_heartbeat_upto_len(x, y, (n - 1) as nat);
    }
}

proof fn lemma_heartbeat_upto_len_strict(x: u32, y: u32, j: u32, n: nat)
    requires
        n <= heartbeat_bit_count(),
        forall|i: u32| i < heartbeat_bit_count() && bit_set(x, i) ==> bit_set(y, i),
        j < n,
        bit_set(y, j),
        !bit_set(x, j),
    ensures
        heartbeat_upto(x, n).len() < heartbeat_upto(y, n).len(),
    decreases n,
{
    let m = (n - 1) as nat;
    if j == m {
        lemma_heartbeat_upto_len(x, y, m);
    } else {
        lemma_heartbeat_upto_len_strict(x, y, j, m);
    }
}

/// Setting additional heartbeat bits only adds condition names: if every
/// defined bit set in `x` is also set in `y`, the list decoded from `x` is a
/// subsequence of the list decoded from `y` — no name is removed and none is
/// reordered.
pub proof fn lemma_heartbeat_monotonic(x: u32, y: u32)
    requires
        forall|i: u32| i < heartbeat_bit_count() && bit_set(x, i) ==> bit_set(y, i),
    ensures
        is_subseq(heartbeat_list_spec(x), heartbeat_list_spec(y)),
{
    lemma_heartbeat_upto_subseq(x, y, heartbeat_bit_count() as nat);
}

/// Setting a further defined bit strictly adds condition names: if `y` has
/// every defined bit of `x` and also bit `j`, which `x` lacks, the list
/// decoded from `y` is strictly longer.
pub proof fn lemma_heartbeat_strictly_adds(x: u32, y: u32, j: u32)
    requires
        forall|i: u32| i < heartbeat_bit_count() && bit_set(x, i) ==> bit_set(y, i),
        j < heartbeat_bit_count(),
        bit_set(y, j),
        !bit_set(x, j),
    ensures
        is_subseq(heartbeat_list_spec(x), heartbeat_list_spec(y)),
        heartbeat_list_spec(x).len() < heartbeat_list_spec(y).len(),
{
    lemma_heartbeat_upto_subseq(x, y, heartbeat_bit_count() as nat);
    lemma_heartbeat_upto_len_strict(x, y, j, heartbeat_bit_count() as nat);
}

/// Interpret a raw operand according to its opcode.
pub fn handle_data(op: OpCode, x: u32) -> (r: HandlerResult)
    ensures
        r@ == interpret_spec(op, x),
{
    match op {
        OpCode::GetTecVoltage => HandlerResult::VoltageCount(x),
        OpCode::GetTecCurrent => HandlerResult::CurrentCount(x),
        OpCode::GetVoltageAndCurrent => {
            proof {
                assert(x & 0xFF < 256 && (x >> 8) & 0xFF < 256) by (bit_vector);
            }
            HandlerResult::VoltageCurrentCounts((x & 0xFF) as u8, ((x >> 8) & 0xFF) as u8)
        },
        OpCode::Heartbeat => HandlerResult::Conditions(heartbeat_flags(x)),
        OpCode::GetTecTemperature => HandlerResult::FloatBits(x),
        OpCode::GetDewPoint => HandlerResult::FloatBits(x),
        OpCode::GetHumidity => HandlerResult::FloatBits(x),
        _ => HandlerResult::Int(x),
    }
}

} // verus!
