//! The closed registry of board operation codes. Each opcode names one
//! operation of the controller firmware; the numeric codes are fixed by the
//! firmware contract and are non-contiguous in the range 0 to 36.

use vstd::prelude::*;

verus! {

/// A board operation code.
#[derive(Clone, Copy, Debug, PartialEq, Eq, Structural)]
pub enum OpCode {
    Heartbeat,
    GetTecTemperature,
    GetHumidity,
    GetDewPoint,
    GetSetPointOffset,
    GetPCoefficient,
    GetICoefficient,
    GetDCoefficient,
    GetTecPowerLevel,
    GetHwVersion,
    GetFwVersion,
    SetSetPointOffset,
    SetPCoefficient,
    SetICoefficient,
    SetDCoefficient,
    SetLowPowerMode,
    SetCPUTemp,
    SetNtcCoefficient,
    GetNtcCoefficient,
    SetTempSensorMode,
    SetTecPowerLevel,
    ResetBoard,
    GetBoardTemp,
    GetVoltageAndCurrent,
    GetTecVoltage,
    GetTecCurrent,
}

/// The numeric code of each operation, as the firmware defines it.
pub open spec fn code_spec(op: OpCode) -> u8 {
    match op {
        OpCode::Heartbeat => 0,
        OpCode::GetTecTemperature => 1,
        OpCode::GetHumidity => 2,
        OpCode::GetDewPoint => 3,
        OpCode::GetSetPointOffset => 4,
        OpCode::GetPCoefficient => 5,
        OpCode::GetICoefficient => 6,
        OpCode::GetDCoefficient => 7,
        OpCode::GetTecPowerLevel => 8,
        OpCode::GetHwVersion => 9,
        OpCode::GetFwVersion => 10,
        OpCode::SetSetPointOffset => 20,
        OpCode::SetPCoefficient => 21,
        OpCode::SetICoefficient => 22,
        OpCode::SetDCoefficient => 23,
        OpCode::SetLowPowerMode => 24,
        OpCode::SetCPUTemp => 25,
        OpCode::SetNtcCoefficient => 26,
        OpCode::GetNtcCoefficient => 27,
        OpCode::SetTempSensorMode => 28,
        OpCode::SetTecPowerLevel => 29,
        OpCode::ResetBoard => 30,
        OpCode::GetBoardTemp => 31,
        OpCode::GetVoltageAndCurrent => 34,
        OpCode::GetTecVoltage => 35,
        OpCode::GetTecCurrent => 36,
    }
}

/// The operation a numeric code names, if any: the inverse of `code_spec`.
pub open spec fn from_code_spec(c: u8) -> Option<OpCode> {
    match c {
        0 => Some(OpCode::Heartbeat),
        1 => Some(OpCode::GetTecTemperature),
        2 => Some(OpCode::GetHumidity),
        3 => Some(OpCode::GetDewPoint),
        4 => Some(OpCode::GetSetPointOffset),
        5 => Some(OpCode::GetPCoefficient),
        6 => Some(OpCode::GetICoefficient),
        7 => Some(OpCode::GetDCoefficient),
        8 => Some(OpCode::GetTecPowerLevel),
        9 => Some(OpCode::GetHwVersion),
        10 => Some(OpCode::GetFwVersion),
        20 => Some(OpCode::SetSetPointOffset),
        21 => Some(OpCode::SetPCoefficient),
        22 => Some(OpCode::SetICoefficient),
        23 => Some(OpCode::SetDCoefficient),
        24 => Some(OpCode::SetLowPowerMode),
        25 => Some(OpCode::SetCPUTemp),
        26 => Some(OpCode::SetNtcCoefficient),
        27 => Some(OpCode::GetNtcCoefficient),
        28 => Some(OpCode::SetTempSensorMode),
        29 => Some(OpCode::SetTecPowerLevel),
        30 => Some(OpCode::ResetBoard),
        31 => Some(OpCode::GetBoardTemp),
        34 => Some(OpCode::GetVoltageAndCurrent),
        35 => Some(OpCode::GetTecVoltage),
        36 => Some(OpCode::GetTecCurrent),
        _ => None,
    }
}

impl OpCode {
    /// The numeric code of this operation.
    pub fn code(self) -> (r: u8)
        ensures
            r == code_spec(self),
    {
        match self {
            OpCode::Heartbeat => 0,
            OpCode::GetTecTemperature => 1,
            OpCode::GetHumidity => 2,
            OpCode::GetDewPoint => 3,
            OpCode::GetSetPointOffset => 4,
            OpCode::GetPCoefficient => 5,
            OpCode::GetICoefficient => 6,
            OpCode::GetDCoefficient => 7,
            OpCode::GetTecPowerLevel => 8,
            OpCode::GetHwVersion => 9,
            OpCode::GetFwVersion => 10,
            OpCode::SetSetPointOffset => 20,
            OpCode::SetPCoefficient => 21,
            OpCode::SetICoefficient => 22,
            OpCode::SetDCoefficient => 23,
            OpCode::SetLowPowerMode => 24,
            OpCode::SetCPUTemp => 25,
            OpCode::SetNtcCoefficient => 26,
            OpCode::GetNtcCoefficient => 27,
            OpCode::SetTempSensorMode => 28,
            OpCode::SetTecPowerLevel => 29,
            OpCode::ResetBoard => 30,
            OpCode::GetBoardTemp => 31,
            OpCode::GetVoltageAndCurrent => 34,
            OpCode::GetTecVoltage => 35,
            OpCode::GetTecCurrent => 36,
        }
    }

    /// Map a numeric code back into the registry.
    pub fn from_code(c: u8) -> (r: Option<OpCode>)
        ensures
            r == from_code_spec(c),
    {
        match c {
            0 => Some(OpCode::Heartbeat),
            1 => Some(OpCode::GetTecTemperature),
            2 => Some(OpCode::GetHumidity),
            3 => Some(OpCode::GetDewPoint),
            4 => Some(OpCode::GetSetPointOffset),
            5 => Some(OpCode::GetPCoefficient),
            6 => Some(OpCode::GetICoefficient),
            7 => Some(OpCode::GetDCoefficient),
            8 => Some(OpCode::GetTecPowerLevel),
            9 => Some(OpCode::GetHwVersion),
            10 => Some(OpCode::GetFwVersion),
            20 => Some(OpCode::SetSetPointOffset),
            21 => Some(OpCode::SetPCoefficient),
            22 => Some(OpCode::SetICoefficient),
            23 => Some(OpCode::SetDCoefficient),
            24 => Some(OpCode::SetLowPowerMode),
            25 => Some(OpCode::SetCPUTemp),
            26 => Some(OpCode::SetNtcCoefficient),
            27 => Some(OpCode::GetNtcCoefficient),
            28 => Some(OpCode::SetTempSensorMode),
            29 => Some(OpCode::SetTecPowerLevel),
            30 => Some(OpCode::ResetBoard),
            31 => Some(OpCode::GetBoardTemp),
            34 => Some(OpCode::GetVoltageAndCurrent),
            35 => Some(OpCode::GetTecVoltage),
            36 => Some(OpCode::GetTecCurrent),
            _ => None,
        }
    }
}

/// Mapping an operation's own code back into the registry recovers the
/// operation: `from_code_spec` inverts `code_spec`.
pub proof fn lemma_opcode_round_trip(op: OpCode)
    ensures
        from_code_spec(code_spec(op)) == Some(op),
{
    match op {
        OpCode::Heartbeat => {},
        OpCode::GetTecTemperature => {},
        OpCode::GetHumidity => {},
        OpCode::GetDewPoint => {},
        OpCode::GetSetPointOffset => {},
        OpCode::GetPCoefficient => {},
        OpCode::GetICoefficient => {},
        OpCode::GetDCoefficient => {},
        OpCode::GetTecPowerLevel => {},
        OpCode::GetHwVersion => {},
        OpCode::GetFwVersion => {},
        OpCode::SetSetPointOffset => {},
        OpCode::SetPCoefficient => {},
        OpCode::SetICoefficient => {},
        OpCode::SetDCoefficient => {},
        OpCode::SetLowPowerMode => {},
        OpCode::SetCPUTemp => {},
        OpCode::SetNtcCoefficient => {},
        OpCode::GetNtcCoefficient => {},
        OpCode::SetTempSensorMode => {},
        OpCode::SetTecPowerLevel => {},
        OpCode::ResetBoard => {},
        OpCode::GetBoardTemp => {},
        OpCode::GetVoltageAndCurrent => {},
        OpCode::GetTecVoltage => {},
        OpCode::GetTecCurrent => {},
    }
}

} // verus!
