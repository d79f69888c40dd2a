//! Timeouts, transmit parameters and power amplifier configuration.

use crate::bytes::{be24, u24_to_be_bytes};
use vstd::prelude::*;
use vstd::std_specs::convert::FromSpecImpl;

verus! {

/// Timeout of a reception or a transmission: a 24-bit count of 15.625 us
/// steps.
///
/// To the chip a count of 0 means that there is no timeout: it stays in the
/// mode until the packet has been sent or received.
#[derive(Copy, Clone, Debug, PartialEq, Eq, Structural)]
pub struct RxTxTimeout {
    steps: u32,
}

impl RxTxTimeout {
    /// The number of 15.625 us steps.
    pub closed spec fn steps(self) -> u32 {
        self.steps
    }

    /// The count fits in 24 bits.
    #[verifier::type_invariant]
    pub closed spec fn in_range(self) -> bool {
        self.steps <= 0xFF_FFFF
    }

    /// The timeout of `steps` steps, cut down to 24 bits.
    pub closed spec fn of_steps(steps: u32) -> RxTxTimeout {
        RxTxTimeout { steps: steps % 0x100_0000 }
    }

    /// The three bytes of the timeout, most significant first, as `SetTx`
    /// and `SetRx` take them.
    pub open spec fn bytes(self) -> Seq<u8> {
        be24(self.steps())
    }

    /// The timeout of `ms` milliseconds: 64 steps each, counted modulo 2^24.
    /// Timeouts of 262144 ms and more wrap around; 0 ms is no timeout.
    pub fn from_ms(ms: u32) -> (r: Self)
        ensures
            r.steps() == (ms * 64) % 0x100_0000,
            r == Self::of_steps(((ms * 64) % 0x100_0000) as u32),
            r.in_range(),
    {
        Self { steps: (ms % 0x4_0000) * 64 }
    }

    /// The three bytes of the timeout, least significant first.
    pub fn to_le_bytes(self) -> (r: [u8; 3])
        ensures
            r@ == self.bytes().reverse(),
    {
        let b = u24_to_be_bytes(self.steps);
        let r: [u8; 3] = [b[2], b[1], b[0]];
        assert(r@ =~= self.bytes().reverse());
        r
    }
}

impl From<RxTxTimeout> for [u8; 3] {
    /// The three bytes of the timeout, most significant first.
    fn from(val: RxTxTimeout) -> (r: [u8; 3])
        ensures
            r@ == val.bytes(),
    {
        let r = u24_to_be_bytes(val.steps);
        assert(r =~= [val.bytes()[0], val.bytes()[1], val.bytes()[2]]);
        r
    }
}

impl FromSpecImpl<RxTxTimeout> for [u8; 3] {
    open spec fn obeys_from_spec() -> bool {
        true
    }

    open spec fn from_spec(v: RxTxTimeout) -> [u8; 3] {
        [v.bytes()[0], v.bytes()[1], v.bytes()[2]]
    }
}

impl From<u32> for RxTxTimeout {
    /// The timeout of `val` steps of 15.625 us, cut down to 24 bits.
    fn from(val: u32) -> (r: RxTxTimeout)
        ensures
            r.steps() == val % 0x100_0000,
            r.in_range(),
    {
        RxTxTimeout { steps: val % 0x100_0000 }
    }
}

impl FromSpecImpl<u32> for RxTxTimeout {
    open spec fn obeys_from_spec() -> bool {
        true
    }

    open spec fn from_spec(v: u32) -> RxTxTimeout {
        RxTxTimeout::of_steps(v)
    }
}

/// Time that the power amplifier takes to ramp up.
#[derive(Copy, Clone, Debug, PartialEq, Eq, Structural)]
pub enum RampTime {
    /// 10 us
    Ramp10u,
    /// 20 us
    Ramp20u,
    /// 40 us
    Ramp40u,
    /// 80 us
    Ramp80u,
    /// 200 us
    Ramp200u,
    /// 800 us
    Ramp800u,
    /// 1700 us
    Ramp1700u,
    /// 3400 us
    Ramp3400u,
}

impl RampTime {
    /// The byte that stands for this ramp time on the wire.
    pub open spec fn code(self) -> u8 {
        match self {
            RampTime::Ramp10u => 0x00,
            RampTime::Ramp20u => 0x01,
            RampTime::Ramp40u => 0x02,
            RampTime::Ramp80u => 0x03,
            RampTime::Ramp200u => 0x04,
            RampTime::Ramp800u => 0x05,
            RampTime::Ramp1700u => 0x06,
            RampTime::Ramp3400u => 0x07,
        }
    }
}

impl From<RampTime> for u8 {
    fn from(val: RampTime) -> (r: u8)
        ensures
            r == val.code(),
    {
        match val {
            RampTime::Ramp10u => 0x00,
            RampTime::Ramp20u => 0x01,
            RampTime::Ramp40u => 0x02,
            RampTime::Ramp80u => 0x03,
            RampTime::Ramp200u => 0x04,
            RampTime::Ramp800u => 0x05,
            RampTime::Ramp1700u => 0x06,
            RampTime::Ramp3400u => 0x07,
        }
    }
}

impl FromSpecImpl<RampTime> for u8 {
    open spec fn obeys_from_spec() -> bool {
        true
    }

    open spec fn from_spec(v: RampTime) -> u8 {
        v.code()
    }
}

/// The parameters of `SetTxParams`: output power and ramp time.
#[derive(Copy, Clone, Debug, PartialEq, Eq, Structural)]
pub struct TxParams {
    power_dbm: i8,
    ramp_time: RampTime,
}

/// The byte that stands for a power in dBm on the wire: its two's
/// complement.
pub open spec fn power_byte(power_dbm: i8) -> u8 {
    if power_dbm >= 0 {
        power_dbm as u8
    } else {
        (power_dbm + 0x100) as u8
    }
}

/// `power_dbm` held within -17 dBm and +22 dBm, the lowest and the highest
/// power that either power amplifier takes.
pub open spec fn clamp_power_dbm(power_dbm: i8) -> i8 {
    if power_dbm < -17 {
        -17i8
    } else if power_dbm > 22 {
        22i8
    } else {
        power_dbm
    }
}

impl TxParams {
    /// The output power in dBm.
    pub closed spec fn power_dbm(self) -> i8 {
        self.power_dbm
    }

    /// The ramp time.
    pub closed spec fn ramp_time(self) -> RampTime {
        self.ramp_time
    }

    /// The parameters with the given power and ramp time.
    pub closed spec fn of(power_dbm: i8, ramp_time: RampTime) -> TxParams {
        TxParams { power_dbm, ramp_time }
    }

    /// The two parameter bytes of `SetTxParams`.
    pub open spec fn bytes(self) -> Seq<u8> {
        seq![power_byte(self.power_dbm()), self.ramp_time().code()]
    }

    /// Sets the output power in dBm.
    ///
    /// The low power amplifier takes -17 to +14 dBm, the high power
    /// amplifier -9 to +22 dBm, in steps of 1 dB. A power outside -17 to
    /// +22 dBm is replaced by the nearer of the two limits.
    pub fn set_power_dbm(self, power_dbm: i8) -> (r: Self)
        ensures
            r.power_dbm() == clamp_power_dbm(power_dbm),
            r.ramp_time() == self.ramp_time(),
    {
        let power_dbm: i8 = if power_dbm < -17 {
            -17
        } else if power_dbm > 22 {
            22
        } else {
            power_dbm
        };
        TxParams { power_dbm, ..self }
    }

    /// Sets the ramp time.
    pub fn set_ramp_time(self, ramp_time: RampTime) -> (r: Self)
        ensures
            r.power_dbm() == self.power_dbm(),
            r.ramp_time() == ramp_time,
    {
        TxParams { ramp_time, ..self }
    }
}

impl Default for TxParams {
    /// 0 dBm with a ramp time of 10 us.
    fn default() -> (r: TxParams)
        ensures
            r.power_dbm() == 0,
            r.ramp_time() == RampTime::Ramp10u,
    {
        TxParams { power_dbm: 0, ramp_time: RampTime::Ramp10u }
    }
}

impl From<TxParams> for [u8; 2] {
    fn from(val: TxParams) -> (r: [u8; 2])
        ensures
            r@ == val.bytes(),
    {
        let power: u8 = if val.power_dbm >= 0 {
            val.power_dbm as u8
        } else {
            (val.power_dbm as i16 + 0x100) as u8
        };
        let r: [u8; 2] = [power, u8::from(val.ramp_time)];
        assert(r@ =~= val.bytes());
        r
    }
}

impl FromSpecImpl<TxParams> for [u8; 2] {
    open spec fn obeys_from_spec() -> bool {
        true
    }

    open spec fn from_spec(v: TxParams) -> [u8; 2] {
        [power_byte(v.power_dbm()), v.ramp_time().code()]
    }
}

/// The power amplifier of the chip in use.
#[derive(Copy, Clone, Debug, PartialEq, Eq, Structural)]
pub enum DeviceSel {
    /// High power amplifier
    SX1262,
    /// Low power amplifier
    SX1261,
}

impl DeviceSel {
    /// The byte that stands for this device on the wire.
    pub open spec fn code(self) -> u8 {
        match self {
            DeviceSel::SX1262 => 0x00,
            DeviceSel::SX1261 => 0x01,
        }
    }
}

impl From<DeviceSel> for u8 {
    fn from(val: DeviceSel) -> (r: u8)
        ensures
            r == val.code(),
    {
        match val {
            DeviceSel::SX1262 => 0x00,
            DeviceSel::SX1261 => 0x01,
        }
    }
}

impl FromSpecImpl<DeviceSel> for u8 {
    open spec fn obeys_from_spec() -> bool {
        true
    }

    open spec fn from_spec(v: DeviceSel) -> u8 {
        v.code()
    }
}

/// The parameters of `SetPaConfig`.
#[derive(Copy, Clone, Debug, PartialEq, Eq, Structural)]
pub struct PaConfig {
    pa_duty_cycle: u8,
    hp_max: u8,
    device_sel: DeviceSel,
    enable_pa_clamp_fix: bool,
}

/// A duty cycle or a size of the power amplifier held to the highest value
/// that the chip defines, 0x07.
pub open spec fn clamp_pa_setting(value: u8) -> u8 {
    if value > 0x07 {
        0x07u8
    } else {
        value
    }
}

impl PaConfig {
    /// The duty cycle (conduction angle) of the power amplifier.
    pub closed spec fn pa_duty_cycle(self) -> u8 {
        self.pa_duty_cycle
    }

    /// The size of the high power amplifier.
    pub closed spec fn hp_max(self) -> u8 {
        self.hp_max
    }

    /// The device whose power amplifier is configured.
    pub closed spec fn device_sel(self) -> DeviceSel {
        self.device_sel
    }

    /// Whether the workaround for the over-protective clamping of the power
    /// amplifier is asked for.
    pub closed spec fn enable_pa_clamp_fix(self) -> bool {
        self.enable_pa_clamp_fix
    }

    /// The four parameter bytes of `SetPaConfig`. The last, `paLut`, is
    /// always 0x01.
    pub open spec fn bytes(self) -> Seq<u8> {
        seq![self.pa_duty_cycle(), self.hp_max(), self.device_sel().code(), 0x01u8]
    }

    /// Sets the duty cycle. The chip defines values up to 0x07 (0x04 on the
    /// SX1262); a larger one is replaced by 0x07.
    pub fn set_pa_duty_cycle(self, pa_duty_cycle: u8) -> (r: Self)
        ensures
            r.pa_duty_cycle() == clamp_pa_setting(pa_duty_cycle),
            r.hp_max() == self.hp_max(),
            r.device_sel() == self.device_sel(),
            r.enable_pa_clamp_fix() == self.enable_pa_clamp_fix(),
    {
        let pa_duty_cycle: u8 = if pa_duty_cycle > 0x07 { 0x07 } else { pa_duty_cycle };
        PaConfig { pa_duty_cycle, ..self }
    }

    /// Sets the size of the high power amplifier. The chip defines values
    /// up to 0x07; a larger one is replaced by 0x07.
    pub fn set_hp_max(self, hp_max: u8) -> (r: Self)
        ensures
            r.pa_duty_cycle() == self.pa_duty_cycle(),
            r.hp_max() == clamp_pa_setting(hp_max),
            r.device_sel() == self.device_sel(),
            r.enable_pa_clamp_fix() == self.enable_pa_clamp_fix(),
    {
        let hp_max: u8 = if hp_max > 0x07 { 0x07 } else { hp_max };
        PaConfig { hp_max, ..self }
    }

    /// Sets the device.
    pub fn set_device_sel(self, device_sel: DeviceSel) -> (r: Self)
        ensures
            r.pa_duty_cycle() == self.pa_duty_cycle(),
            r.hp_max() == self.hp_max(),
            r.device_sel() == device_sel,
            r.enable_pa_clamp_fix() == self.enable_pa_clamp_fix(),
    {
        PaConfig { device_sel, ..self }
    }

    /// Records whether the clamping workaround is asked for. The flag is
    /// carried with the configuration; it is no part of the parameter bytes.
    pub fn set_enable_pa_clamp_fix(self, enable: bool) -> (r: Self)
        ensures
            r.pa_duty_cycle() == self.pa_duty_cycle(),
            r.hp_max() == self.hp_max(),
            r.device_sel() == self.device_sel(),
            r.enable_pa_clamp_fix() == enable,
    {
        PaConfig { enable_pa_clamp_fix: enable, ..self }
    }

    /// Whether the clamping workaround is asked for.
    pub fn pa_clamp_fix_enabled(&self) -> (r: bool)
        ensures
            r == self.enable_pa_clamp_fix(),
    {
        self.enable_pa_clamp_fix
    }
}

impl Default for PaConfig {
    /// Duty cycle 0, size 0, SX1262, no clamping workaround.
    fn default() -> (r: PaConfig)
        ensures
            r.pa_duty_cycle() == 0x00,
            r.hp_max() == 0x00,
            r.device_sel() == DeviceSel::SX1262,
            !r.enable_pa_clamp_fix(),
    {
        PaConfig {
            pa_duty_cycle: 0x00,
            hp_max: 0x00,
            device_sel: DeviceSel::SX1262,
            enable_pa_clamp_fix: false,
        }
    }
}

impl From<PaConfig> for [u8; 4] {
    fn from(val: PaConfig) -> (r: [u8; 4])
        ensures
            r@ == val.bytes(),
    {
        let r: [u8; 4] = [val.pa_duty_cycle, val.hp_max, u8::from(val.device_sel), 0x01];
        assert(r@ =~= val.bytes());
        r
    }
}

impl FromSpecImpl<PaConfig> for [u8; 4] {
    open spec fn obeys_from_spec() -> bool {
        true
    }

    open spec fn from_spec(v: PaConfig) -> [u8; 4] {
        [v.pa_duty_cycle(), v.hp_max(), v.device_sel().code(), 0x01u8]
    }
}

} // verus!
