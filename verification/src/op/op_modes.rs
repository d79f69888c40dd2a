//! Operating mode commands.

use vstd::prelude::*;
use vstd::std_specs::convert::FromSpecImpl;

verus! {

/// The commands that set the chip's operating mode.
///
/// | Command               | Opcode | Parameters                           | Description                                                |
/// |-----------------------|--------|--------------------------------------|------------------------------------------------------------|
/// | SetSleep              | 0x84   | sleepConfig                          | Set chip in SLEEP mode                                     |
/// | SetStandby            | 0x80   | standbyConfig                        | Set chip in STDBY_RC or STDBY_XOSC mode                    |
/// | SetFs                 | 0xC1   | -                                    | Set chip in frequency synthesis mode                       |
/// | SetTx                 | 0x83   | timeout[23:0]                        | Set chip in TX mode                                        |
/// | SetRx                 | 0x82   | timeout[23:0]                        | Set chip in RX mode                                        |
/// | StopTimerOnPreamble   | 0x9F   | StopOnPreambleParam                  | Stop RX timeout on sync word/header or preamble detection  |
/// | SetRxDutyCycle        | 0x94   | rxPeriod[23:0], sleepPeriod[23:0]    | Listen mode: alternate RX and SLEEP                        |
/// | SetCad                | 0xC5   | -                                    | Set chip into RX mode with the CAD parameters              |
/// | SetTxContinuousWave   | 0xD1   | -                                    | Set chip into TX mode with an infinite carrier wave        |
/// | SetTxInfinitePreamble | 0xD2   | -                                    | Set chip into TX mode with an infinite preamble            |
/// | SetRegulatorMode      | 0x96   | regModeParam                         | Select LDO or DC_DC+LDO                                    |
/// | Calibrate             | 0x89   | calibParam                           | Calibrate RC13, RC64, ADC, PLL, image                      |
/// | CalibrateImage        | 0x98   | freq1, freq2                         | Launch an image calibration at the given frequencies       |
/// | SetPaConfig           | 0x95   | paDutyCycle, HpMax, deviceSel, paLUT | Configure the power amplifier                              |
/// | SetRxTxFallbackMode   | 0x93   | fallbackMode                         | Mode the chip goes to after a TX or RX is done             |
#[derive(Copy, Clone, Debug, PartialEq, Eq, Structural)]
pub enum OperatingModes {
    /// 0x84
    SetSleep,
    /// 0x80
    SetStandby,
    /// 0xC1
    SetFs,
    /// 0x83
    SetTx,
    /// 0x82
    SetRx,
    /// 0x9F
    StopTimerOnPreamble,
    /// 0x94
    SetRxDutyCycle,
    /// 0xC5
    SetCad,
    /// 0xD1
    SetTxContinuousWave,
    /// 0xD2
    SetTxInfinitePreamble,
    /// 0x96
    SetRegulatorMode,
    /// 0x89
    Calibrate,
    /// 0x98
    CalibrateImage,
    /// 0x95
    SetPaConfig,
    /// 0x93
    SetRxTxFallbackMode,
}

impl OperatingModes {
    /// The opcode of the command.
    pub open spec fn code(self) -> u8 {
        match self {
            OperatingModes::SetSleep => 0x84,
            OperatingModes::SetStandby => 0x80,
            OperatingModes::SetFs => 0xC1,
            OperatingModes::SetTx => 0x83,
            OperatingModes::SetRx => 0x82,
            OperatingModes::StopTimerOnPreamble => 0x9F,
            OperatingModes::SetRxDutyCycle => 0x94,
            OperatingModes::SetCad => 0xC5,
            OperatingModes::SetTxContinuousWave => 0xD1,
            OperatingModes::SetTxInfinitePreamble => 0xD2,
            OperatingModes::SetRegulatorMode => 0x96,
            OperatingModes::Calibrate => 0x89,
            OperatingModes::CalibrateImage => 0x98,
            OperatingModes::SetPaConfig => 0x95,
            OperatingModes::SetRxTxFallbackMode => 0x93,
        }
    }
}

impl From<OperatingModes> for u8 {
    fn from(val: OperatingModes) -> (r: u8)
        ensures
            r == val.code(),
    {
        match val {
            OperatingModes::SetSleep => 0x84,
            OperatingModes::SetStandby => 0x80,
            OperatingModes::SetFs => 0xC1,
            OperatingModes::SetTx => 0x83,
            OperatingModes::SetRx => 0x82,
            OperatingModes::StopTimerOnPreamble => 0x9F,
            OperatingModes::SetRxDutyCycle => 0x94,
            OperatingModes::SetCad => 0xC5,
            OperatingModes::SetTxContinuousWave => 0xD1,
            OperatingModes::SetTxInfinitePreamble => 0xD2,
            OperatingModes::SetRegulatorMode => 0x96,
            OperatingModes::Calibrate => 0x89,
            OperatingModes::CalibrateImage => 0x98,
            OperatingModes::SetPaConfig => 0x95,
            OperatingModes::SetRxTxFallbackMode => 0x93,
        }
    }
}

impl FromSpecImpl<OperatingModes> for u8 {
    open spec fn obeys_from_spec() -> bool {
        true
    }

    open spec fn from_spec(v: OperatingModes) -> u8 {
        v.code()
    }
}

} // verus!
