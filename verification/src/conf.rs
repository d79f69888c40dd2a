//! The configuration that brings the modem up.

use crate::op::calib::CalibParam;
use crate::op::irq::IrqMask;
use crate::op::modulation::{
    LoRaBandWidth, LoRaSpreadFactor, LoraCodingRate, LoraModParams, ModParams,
};
use crate::op::packet::{
    LoRaCrcType, LoRaHeaderType, LoRaInvertIq, LoRaPacketParams, PacketParams, PacketType,
};
use crate::op::rxtx::{DeviceSel, PaConfig, RampTime, TxParams};
use crate::op::tcxo::{TcxoDelay, TcxoVoltage};
use vstd::arithmetic::div_mod::{lemma_fundamental_div_mod, lemma_mod_pos_bound};
use vstd::prelude::*;

verus! {

/// The value of the RF frequency register for a carrier of `rf_frequency`
/// and a crystal of `f_xtal`, both in the same unit:
/// `rf_frequency * 2^25 / f_xtal`, rounded to the nearest integer, a half
/// upwards.
pub open spec fn rf_register_value(rf_frequency: int, f_xtal: int) -> int
    recommends
        f_xtal > 0,
{
    (2 * (rf_frequency * 0x200_0000) + f_xtal) / (2 * f_xtal)
}

/// Whether a carrier and a crystal frequency have a register value: the
/// crystal frequency is not zero and the value fits the 32-bit register.
pub open spec fn valid_rf_pair(rf_frequency: u32, f_xtal: u32) -> bool {
    f_xtal > 0 && rf_register_value(rf_frequency as int, f_xtal as int) <= u32::MAX
}

/// The register value is the integer nearest to `rf_frequency * 2^25 /
/// f_xtal`: it is off by half a unit at most, and by exactly half a unit
/// only downwards.
pub proof fn lemma_rf_register_value_is_nearest(rf_frequency: int, f_xtal: int)
    requires
        rf_frequency >= 0,
        f_xtal > 0,
    ensures
        ({
            let r = rf_register_value(rf_frequency, f_xtal);
            let exact = rf_frequency * 0x200_0000;
            &&& 0 <= r
            &&& 2 * (r * f_xtal) - f_xtal <= 2 * exact
            &&& 2 * exact < 2 * (r * f_xtal) + f_xtal
        }),
{
    let n = 2 * (rf_frequency * 0x200_0000) + f_xtal;
    let d = 2 * f_xtal;
    let r = n / d;
    lemma_fundamental_div_mod(n, d);
    lemma_mod_pos_bound(n, d);
    assert(d * r == 2 * (r * f_xtal)) by (nonlinear_arith)
        requires
            d == 2 * f_xtal,
    ;
    assert(0 <= r) by (nonlinear_arith)
        requires
            n >= 0,
            d > 0,
            r == n / d,
    ;
}

/// Calculates the value of the RF frequency register from the carrier
/// frequency and the crystal frequency, both in Hz.
///
/// For 868 MHz and a 32 MHz crystal: 868 * 2^25 / 32 = 0x3640_0000.
pub fn calc_rf_freq(rf_frequency: u32, f_xtal: u32) -> (r: u32)
    requires
        valid_rf_pair(rf_frequency, f_xtal),
    ensures
        r == rf_register_value(rf_frequency as int, f_xtal as int),
{
    let n: u64 = (rf_frequency as u64) * 0x400_0000 + (f_xtal as u64);
    let d: u64 = 2 * (f_xtal as u64);
    (n / d) as u32
}

/// A carrier frequency, the crystal frequency and the register value that
/// follows from the two.
///
/// The register value is computed when the value is made and cannot be set
/// by itself: another carrier or crystal takes another `RfFrequency`.
#[derive(Copy, Clone, Debug, PartialEq, Eq, Structural)]
pub struct RfFrequency {
    rf_frequency: u32,
    f_xtal: u32,
    rf_freq: u32,
}

impl RfFrequency {
    /// The carrier frequency in Hz.
    pub closed spec fn hz(self) -> u32 {
        self.rf_frequency
    }

    /// The crystal frequency in Hz.
    pub closed spec fn xtal_hz(self) -> u32 {
        self.f_xtal
    }

    /// The value of the RF frequency register.
    pub closed spec fn register(self) -> u32 {
        self.rf_freq
    }

    /// The register value is the one that follows from the two frequencies.
    #[verifier::type_invariant]
    pub closed spec fn wf(self) -> bool {
        &&& valid_rf_pair(self.rf_frequency, self.f_xtal)
        &&& self.rf_freq == rf_register_value(self.rf_frequency as int, self.f_xtal as int)
    }

    /// The frequencies with their register value; `None` where they have
    /// none.
    pub fn new(rf_frequency: u32, f_xtal: u32) -> (r: Option<Self>)
        ensures
            r is Some <==> valid_rf_pair(rf_frequency, f_xtal),
            r matches Some(f) ==> {
                &&& f.hz() == rf_frequency
                &&& f.xtal_hz() == f_xtal
                &&& f.register() == rf_register_value(rf_frequency as int, f_xtal as int)
                &&& f.wf()
            },
    {
        if f_xtal == 0 {
            return None;
        }
        let n: u64 = (rf_frequency as u64) * 0x400_0000 + (f_xtal as u64);
        let d: u64 = 2 * (f_xtal as u64);
        if n / d > 0xFFFF_FFFF {
            return None;
        }
        Some(Self { rf_frequency, f_xtal, rf_freq: calc_rf_freq(rf_frequency, f_xtal) })
    }

    /// The carrier frequency in Hz.
    pub fn rf_frequency(&self) -> (r: u32)
        ensures
            r == self.hz(),
    {
        self.rf_frequency
    }

    /// The crystal frequency in Hz.
    pub fn f_xtal(&self) -> (r: u32)
        ensures
            r == self.xtal_hz(),
    {
        self.f_xtal
    }

    /// The value of the RF frequency register.
    pub fn rf_freq(&self) -> (r: u32)
        ensures
            r == self.register(),
            r == rf_register_value(self.hz() as int, self.xtal_hz() as int),
    {
        proof {
            use_type_invariant(self);
        }
        self.rf_freq
    }
}

/// Configuration parameters.
/// Used to initialize the SX126x modem
#[derive(Copy, Clone, Debug, PartialEq, Eq)]
pub struct Config {
    /// Packet type
    pub packet_type: PacketType,
    /// LoRa sync word.
    /// Use 0x3444 for public networks like TTN, 0x1424 for private networks.
    pub sync_word: u16,
    /// Calibration parameters
    pub calib_param: CalibParam,
    /// Modulation parameters
    pub mod_params: ModParams,
    /// Power-amplifier configuration
    pub pa_config: PaConfig,
    /// Packet parameters. Set to `None` to configure these later.
    pub packet_params: Option<PacketParams>,
    /// TX parameters
    pub tx_params: TxParams,
    /// DIO1 IRQ mask. The bring-up uses it as the interrupt mask and as the
    /// mask of each DIO line.
    pub dio1_irq_mask: IrqMask,
    /// DIO2 IRQ mask. The bring-up does not consult it: it gives the mask
    /// of DIO1 to every DIO line.
    pub dio2_irq_mask: IrqMask,
    /// DIO3 IRQ mask. The bring-up does not consult it either.
    pub dio3_irq_mask: IrqMask,
    /// Carrier and crystal frequency, with the value of the RF frequency
    /// register
    pub rf: RfFrequency,
    /// TCXO options. Set to `None` if not using a TCXO.
    pub tcxo_opts: Option<(TcxoVoltage, TcxoDelay)>,
}

impl Default for Config {
    /// LoRa at 905.2 MHz on a 32 MHz crystal: SF9, 250 kHz, coding rate
    /// 4/7; variable length packets of up to 255 bytes with 8 preamble
    /// symbols and CRC; 0 dBm from the high power amplifier; every
    /// interrupt on DIO1; a 3.3 V TCXO given 1 ms to start.
    fn default() -> (r: Config)
        ensures
            r.packet_type == PacketType::LoRa,
            r.sync_word == 0x12,
            r.calib_param.bits() == 0x7F,
            r.mod_params@ == (LoraModParams {
                spread_factor: LoRaSpreadFactor::SF9,
                bandwidth: LoRaBandWidth::BW250,
                coding_rate: LoraCodingRate::CR4_7,
                low_data_rate_optimize: false,
            }),
            r.mod_params.bytes() == seq![0x09u8, 0x05u8, 0x03u8, 0u8, 0u8, 0u8, 0u8, 0u8],
            r.pa_config.bytes() == seq![0x04u8, 0x07u8, 0x00u8, 0x01u8],
            r.pa_config.enable_pa_clamp_fix(),
            r.packet_params matches Some(p) && p@ == (LoRaPacketParams {
                preamble_len: 8,
                header_type: LoRaHeaderType::VarLen,
                payload_len: 255,
                crc_type: LoRaCrcType::CrcOn,
                invert_iq: LoRaInvertIq::Standard,
            }) && p.bytes() == seq![0u8, 8u8, 0u8, 255u8, 1u8, 0u8, 0u8, 0u8, 0u8],
            r.tx_params.bytes() == seq![0x00u8, 0x04u8],
            r.dio1_irq_mask.bits() == 0xFFFF,
            r.dio2_irq_mask.bits() == 0x0000,
            r.dio3_irq_mask.bits() == 0x0000,
            r.rf.hz() == 905_200_000,
            r.rf.xtal_hz() == 32_000_000,
            r.rf.register() == 949_170_995,
            r.tcxo_opts matches Some((voltage, delay)) && voltage == TcxoVoltage::Volt3_3
                && delay.steps() == 64,
    {
        assert(rf_register_value(905_200_000, 32_000_000) == 949_170_995) by (nonlinear_arith);
        let rf = RfFrequency {
            rf_frequency: 905_200_000,
            f_xtal: 32_000_000,
            rf_freq: calc_rf_freq(905_200_000, 32_000_000),
        };
        let config = Config {
            packet_type: PacketType::LoRa,
            pa_config: PaConfig::default()
                .set_pa_duty_cycle(0x04)
                .set_hp_max(0x07)
                .set_device_sel(DeviceSel::SX1262)
                .set_enable_pa_clamp_fix(true),
            tx_params: TxParams::default().set_power_dbm(0).set_ramp_time(RampTime::Ramp200u),
            mod_params: ModParams::from(
                LoraModParams::default()
                    .set_bandwidth(LoRaBandWidth::BW250)
                    .set_coding_rate(LoraCodingRate::CR4_7)
                    .set_spread_factor(LoRaSpreadFactor::SF9)
                    .set_low_dr_opt(false),
            ),
            packet_params: Some(
                PacketParams::from(
                    LoRaPacketParams::default()
                        .set_preamble_len(8)
                        .set_header_type(LoRaHeaderType::VarLen)
                        .set_payload_len(255)
                        .set_crc_type(LoRaCrcType::CrcOn)
                        .set_invert_iq(LoRaInvertIq::Standard),
                ),
            ),
            dio1_irq_mask: IrqMask::all(),
            dio2_irq_mask: IrqMask::none(),
            dio3_irq_mask: IrqMask::none(),
            tcxo_opts: Some((TcxoVoltage::Volt3_3, TcxoDelay::from_ms(1))),
            calib_param: CalibParam::new(true, true, true, true, true, true, true),
            sync_word: 0x12,
            rf,
        };
        config
    }
}

} // verus!
