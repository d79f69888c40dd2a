use sx126x::op::irq::{IrqMask, IrqMaskBit, IrqStatus};
use sx126x::op::op_modes::OperatingModes;
use sx126x::op::rxtx::{DeviceSel, PaConfig, RampTime, RxTxTimeout, TxParams};
use sx126x::op::tcxo::{TcxoDelay, TcxoVoltage};
use sx126x::op::StandbyConfig;
use sx126x::reg::Register;

#[test]
fn standby_config_codes() {
    assert_eq!(u8::from(StandbyConfig::StbyRc), 0x00);
    assert_eq!(u8::from(StandbyConfig::StbyXOSC), 0x01);
}

#[test]
fn operating_mode_opcodes() {
    assert_eq!(u8::from(OperatingModes::SetSleep), 0x84);
    assert_eq!(u8::from(OperatingModes::SetStandby), 0x80);
    assert_eq!(u8::from(OperatingModes::SetFs), 0xC1);
    assert_eq!(u8::from(OperatingModes::SetTx), 0x83);
    assert_eq!(u8::from(OperatingModes::SetRx), 0x82);
    assert_eq!(u8::from(OperatingModes::StopTimerOnPreamble), 0x9F);
    assert_eq!(u8::from(OperatingModes::SetRxDutyCycle), 0x94);
    assert_eq!(u8::from(OperatingModes::SetCad), 0xC5);
    assert_eq!(u8::from(OperatingModes::SetTxContinuousWave), 0xD1);
    assert_eq!(u8::from(OperatingModes::SetTxInfinitePreamble), 0xD2);
    assert_eq!(u8::from(OperatingModes::SetRegulatorMode), 0x96);
    assert_eq!(u8::from(OperatingModes::Calibrate), 0x89);
    assert_eq!(u8::from(OperatingModes::CalibrateImage), 0x98);
    assert_eq!(u8::from(OperatingModes::SetPaConfig), 0x95);
    assert_eq!(u8::from(OperatingModes::SetRxTxFallbackMode), 0x93);
}

#[test]
fn register_addresses() {
    assert_eq!(u16::from(Register::LoRaSyncWordMsb), 0x0740);
    assert_eq!(u16::from(Register::LoRaSyncWordLsb), 0x0741);
    assert_eq!(u16::from(Register::WhiteningInitialValueMsb), 0x06B8);
    assert_eq!(u16::from(Register::SyncWord0), 0x06C0);
    assert_eq!(u16::from(Register::RxGain), 0x08AC);
    assert_eq!(u16::from(Register::OcpConfiguration), 0x08E7);
    assert_eq!(u16::from(Register::XtaTrim), 0x0911);
    assert_eq!(u16::from(Register::XtbTrim), 0x0912);
}

#[test]
fn irq_mask_none_all_and_default() {
    assert_eq!(u16::from(IrqMask::none()), 0x0000);
    assert_eq!(u16::from(IrqMask::all()), 0xFFFF);
    assert_eq!(u16::from(IrqMask::default()), 0x0000);
    assert_eq!(IrqMask::from(0x0203), IrqMask::none().combine(IrqMaskBit::TxDone)
        .combine(IrqMaskBit::RxDone)
        .combine(IrqMaskBit::Timeout));
}

#[test]
fn irq_mask_bits() {
    let bits = [
        (IrqMaskBit::TxDone, 0x0001),
        (IrqMaskBit::RxDone, 0x0002),
        (IrqMaskBit::PreambleDetected, 0x0004),
        (IrqMaskBit::SyncwordValid, 0x0008),
        (IrqMaskBit::HeaderValid, 0x0010),
        (IrqMaskBit::HeaderError, 0x0020),
        (IrqMaskBit::CrcErr, 0x0040),
        (IrqMaskBit::CadDone, 0x0080),
        (IrqMaskBit::CadDetected, 0x0100),
        (IrqMaskBit::Timeout, 0x0200),
    ];
    for (bit, mask) in bits {
        assert_eq!(u16::from(bit), mask);
        assert_eq!(u16::from(IrqMask::none().combine(bit)), mask);
        assert_eq!(u16::from(IrqMask::all().combine(bit)), 0xFFFF);
    }
}

#[test]
fn irq_mask_union() {
    let mask = IrqMask::none()
        .combine(IrqMaskBit::TxDone)
        .combine(IrqMaskBit::Timeout)
        .combine(IrqMaskBit::CrcErr);
    assert_eq!(u16::from(mask), 0x0241);
    let other_order = IrqMask::none()
        .combine(IrqMaskBit::CrcErr)
        .combine(IrqMaskBit::TxDone)
        .combine(IrqMaskBit::Timeout)
        .combine(IrqMaskBit::TxDone);
    assert_eq!(other_order, mask);
}

#[test]
fn irq_status_flags() {
    let status = IrqStatus::from(0x0241);
    assert!(status.tx_done());
    assert!(!status.rx_done());
    assert!(!status.preamble_detected());
    assert!(!status.syncword_valid());
    assert!(!status.header_valid());
    assert!(!status.header_error());
    assert!(status.crc_err());
    assert!(!status.cad_done());
    assert!(!status.cad_detected());
    assert!(status.timeout());
    let status = IrqStatus::from(0x01BE);
    assert!(!status.tx_done());
    assert!(status.rx_done());
    assert!(status.preamble_detected());
    assert!(status.syncword_valid());
    assert!(status.header_valid());
    assert!(status.header_error());
    assert!(!status.crc_err());
    assert!(status.cad_done());
    assert!(status.cad_detected());
    assert!(!status.timeout());
}

#[test]
fn rx_tx_timeout_from_ms() {
    assert_eq!(<[u8; 3]>::from(RxTxTimeout::from_ms(0)), [0x00, 0x00, 0x00]);
    assert_eq!(<[u8; 3]>::from(RxTxTimeout::from_ms(1)), [0x00, 0x00, 0x40]);
    assert_eq!(<[u8; 3]>::from(RxTxTimeout::from_ms(1000)), [0x00, 0xFA, 0x00]);
    assert_eq!(<[u8; 3]>::from(RxTxTimeout::from_ms(262_143)), [0xFF, 0xFF, 0xC0]);
}

#[test]
fn rx_tx_timeout_from_ms_wraps_at_24_bits() {
    assert_eq!(<[u8; 3]>::from(RxTxTimeout::from_ms(262_144)), [0x00, 0x00, 0x00]);
    assert_eq!(<[u8; 3]>::from(RxTxTimeout::from_ms(262_145)), [0x00, 0x00, 0x40]);
    assert_eq!(<[u8; 3]>::from(RxTxTimeout::from_ms(u32::MAX)), [0xFF, 0xFF, 0xC0]);
}

#[test]
fn rx_tx_timeout_from_steps() {
    assert_eq!(<[u8; 3]>::from(RxTxTimeout::from(1000u32)), [0x00, 0x03, 0xE8]);
    assert_eq!(<[u8; 3]>::from(RxTxTimeout::from(0x123456u32)), [0x12, 0x34, 0x56]);
    assert_eq!(<[u8; 3]>::from(RxTxTimeout::from(0xFFFFFFu32)), [0xFF, 0xFF, 0xFF]);
    assert_eq!(<[u8; 3]>::from(RxTxTimeout::from(0xAB123456u32)), [0x12, 0x34, 0x56]);
}

#[test]
fn rx_tx_timeout_byte_orders() {
    let timeout = RxTxTimeout::from(0x123456u32);
    assert_eq!(timeout.to_le_bytes(), [0x56, 0x34, 0x12]);
    assert_eq!(<[u8; 3]>::from(timeout), [0x12, 0x34, 0x56]);
}

#[test]
fn ramp_time_codes() {
    assert_eq!(u8::from(RampTime::Ramp10u), 0x00);
    assert_eq!(u8::from(RampTime::Ramp20u), 0x01);
    assert_eq!(u8::from(RampTime::Ramp40u), 0x02);
    assert_eq!(u8::from(RampTime::Ramp80u), 0x03);
    assert_eq!(u8::from(RampTime::Ramp200u), 0x04);
    assert_eq!(u8::from(RampTime::Ramp800u), 0x05);
    assert_eq!(u8::from(RampTime::Ramp1700u), 0x06);
    assert_eq!(u8::from(RampTime::Ramp3400u), 0x07);
}

#[test]
fn tx_params_bytes() {
    assert_eq!(<[u8; 2]>::from(TxParams::default()), [0x00, 0x00]);
    let params = TxParams::default().set_power_dbm(14).set_ramp_time(RampTime::Ramp200u);
    assert_eq!(<[u8; 2]>::from(params), [0x0E, 0x04]);
    let params = TxParams::default().set_power_dbm(22);
    assert_eq!(<[u8; 2]>::from(params), [0x16, 0x00]);
    let params = TxParams::default().set_power_dbm(-9);
    assert_eq!(<[u8; 2]>::from(params), [0xF7, 0x00]);
    let params = TxParams::default().set_power_dbm(-17);
    assert_eq!(<[u8; 2]>::from(params), [0xEF, 0x00]);
    let params = TxParams::default().set_power_dbm(-1).set_ramp_time(RampTime::Ramp3400u);
    assert_eq!(<[u8; 2]>::from(params), [0xFF, 0x07]);
}

#[test]
fn tx_params_power_is_held_within_limits() {
    assert_eq!(<[u8; 2]>::from(TxParams::default().set_power_dbm(23)), [0x16, 0x00]);
    assert_eq!(<[u8; 2]>::from(TxParams::default().set_power_dbm(127)), [0x16, 0x00]);
    assert_eq!(<[u8; 2]>::from(TxParams::default().set_power_dbm(-18)), [0xEF, 0x00]);
    assert_eq!(<[u8; 2]>::from(TxParams::default().set_power_dbm(-128)), [0xEF, 0x00]);
}

#[test]
fn pa_config_bytes() {
    assert_eq!(<[u8; 4]>::from(PaConfig::default()), [0x00, 0x00, 0x00, 0x01]);
    let config = PaConfig::default()
        .set_pa_duty_cycle(0x04)
        .set_hp_max(0x07)
        .set_device_sel(DeviceSel::SX1262)
        .set_enable_pa_clamp_fix(true);
    assert_eq!(<[u8; 4]>::from(config), [0x04, 0x07, 0x00, 0x01]);
    assert!(config.pa_clamp_fix_enabled());
    let config = PaConfig::default()
        .set_pa_duty_cycle(0x06)
        .set_hp_max(0x00)
        .set_device_sel(DeviceSel::SX1261);
    assert_eq!(<[u8; 4]>::from(config), [0x06, 0x00, 0x01, 0x01]);
    assert!(!config.pa_clamp_fix_enabled());
}

#[test]
fn pa_config_settings_are_held_within_limits() {
    let config = PaConfig::default().set_pa_duty_cycle(0x08).set_hp_max(0xFF);
    assert_eq!(<[u8; 4]>::from(config), [0x07, 0x07, 0x00, 0x01]);
    let config = PaConfig::default().set_pa_duty_cycle(0x07).set_hp_max(0x07);
    assert_eq!(<[u8; 4]>::from(config), [0x07, 0x07, 0x00, 0x01]);
}

#[test]
fn device_sel_codes() {
    assert_eq!(u8::from(DeviceSel::SX1262), 0x00);
    assert_eq!(u8::from(DeviceSel::SX1261), 0x01);
}

#[test]
fn tcxo_voltage_codes() {
    assert_eq!(u8::from(TcxoVoltage::Volt1_6), 0x00);
    assert_eq!(u8::from(TcxoVoltage::Volt1_7), 0x01);
    assert_eq!(u8::from(TcxoVoltage::Volt1_8), 0x02);
    assert_eq!(u8::from(TcxoVoltage::Volt2_2), 0x03);
    assert_eq!(u8::from(TcxoVoltage::Volt2_4), 0x04);
    assert_eq!(u8::from(TcxoVoltage::Volt2_7), 0x05);
    assert_eq!(u8::from(TcxoVoltage::Volt3_0), 0x06);
    assert_eq!(u8::from(TcxoVoltage::Volt3_3), 0x07);
}

#[test]
fn tcxo_delay_bytes() {
    assert_eq!(<[u8; 3]>::from(TcxoDelay::from_ms(1)), [0x00, 0x00, 0x40]);
    assert_eq!(<[u8; 3]>::from(TcxoDelay::from_ms(10)), [0x00, 0x02, 0x80]);
    assert_eq!(<[u8; 3]>::from(TcxoDelay::from_ms(262_144)), [0x00, 0x00, 0x00]);
    assert_eq!(<[u8; 3]>::from(TcxoDelay::from([0x12, 0x34, 0x56])), [0x12, 0x34, 0x56]);
    assert_eq!(<[u8; 3]>::from(TcxoDelay::from([0xFF, 0xFF, 0xFF])), [0xFF, 0xFF, 0xFF]);
}
