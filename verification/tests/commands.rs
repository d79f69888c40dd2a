use sx126x::op::calib::{CalibImageFreq, CalibParam};
use sx126x::op::irq::{IrqMask, IrqMaskBit, IrqStatus};
use sx126x::op::modulation::{
    LoRaBandWidth, LoRaSpreadFactor, LoraCodingRate, LoraModParams, ModParams,
};
use sx126x::op::packet::{
    LoRaCrcType, LoRaHeaderType, LoRaInvertIq, LoRaPacketParams, PacketParams, PacketType,
};
use sx126x::op::rxtx::{DeviceSel, PaConfig, RampTime, RxTxTimeout, TxParams};
use sx126x::op::status::{DeviceErrors, PacketStatus, RxBufferStatus, Stats, Status};
use sx126x::op::tcxo::{TcxoDelay, TcxoVoltage};
use sx126x::op::StandbyConfig;
use sx126x::reg::Register;
use sx126x::sx::host::{Action, Operation, Step};
use sx126x::sx;
use sx126x::{PinError, SpiError};

fn transaction(ops: Vec<Operation>, error: SpiError) -> Step<SpiError> {
    Step { action: Action::Transaction(ops), error }
}

fn write(bytes: &[u8]) -> Operation {
    Operation::Write(bytes.to_vec())
}

fn transfer(bytes: &[u8]) -> Operation {
    Operation::TransferInPlace(bytes.to_vec())
}

#[test]
fn set_sync_word_writes_the_register() {
    assert_eq!(
        sx::set_sync_word(0x1424),
        transaction(vec![write(&[0x0D]), write(&[0x07, 0x40]), write(&[0x14, 0x24])], SpiError::Write),
    );
    assert_eq!(
        sx::set_sync_word(0x3444),
        transaction(vec![write(&[0x0D]), write(&[0x07, 0x40]), write(&[0x34, 0x44])], SpiError::Write),
    );
}

#[test]
fn set_packet_type_bytes() {
    assert_eq!(
        sx::set_packet_type(PacketType::LoRa),
        transaction(vec![write(&[0x8A, 0x01])], SpiError::Write),
    );
    assert_eq!(
        sx::set_packet_type(PacketType::GFSK),
        transaction(vec![write(&[0x8A, 0x00])], SpiError::Write),
    );
}

#[test]
fn set_standby_bytes() {
    assert_eq!(
        sx::set_standby(StandbyConfig::StbyRc),
        transaction(vec![write(&[0x80, 0x00])], SpiError::Write),
    );
    assert_eq!(
        sx::set_standby(StandbyConfig::StbyXOSC),
        transaction(vec![write(&[0x80, 0x01])], SpiError::Write),
    );
}

#[test]
fn get_status_bytes_and_response() {
    assert_eq!(sx::get_status(), transaction(vec![transfer(&[0xC0, 0x00])], SpiError::Transfer));
    assert_eq!(sx::get_status_response(&[0xA2, 0x2C]), Ok(Status::from(0x2C)));
    assert_eq!(sx::get_status_response(&[0x2C]), Err(SpiError::Transfer));
    assert_eq!(sx::get_status_response(&[0xA2, 0x2C, 0x00]), Err(SpiError::Transfer));
    assert_eq!(sx::get_status_response(&[]), Err(SpiError::Transfer));
}

#[test]
fn set_fs_bytes() {
    assert_eq!(sx::set_fs(), transaction(vec![write(&[0xC1])], SpiError::Transfer));
}

#[test]
fn get_stats_bytes_and_response() {
    assert_eq!(
        sx::get_stats(),
        transaction(vec![transfer(&[0x10, 0, 0, 0, 0, 0, 0, 0])], SpiError::Transfer),
    );
    let stats = sx::get_stats_response(&[0xAA, 0x24, 0x00, 0x10, 0x00, 0x02, 0x01, 0x00]).unwrap();
    assert_eq!(
        stats,
        Stats { status: Status::from(0x24), rx_pkt: 16, crc_error: 2, header_error: 256 },
    );
    assert_eq!(sx::get_stats_response(&[0; 7]), Err(SpiError::Transfer));
    assert_eq!(sx::get_stats_response(&[0; 9]), Err(SpiError::Transfer));
}

#[test]
fn calibrate_image_bytes() {
    assert_eq!(
        sx::calibrate_image(CalibImageFreq::MHz863_870),
        transaction(vec![write(&[0x98]), write(&[0xD7, 0xDB])], SpiError::Write),
    );
    assert_eq!(
        sx::calibrate_image(CalibImageFreq::MHz430_440),
        transaction(vec![write(&[0x98]), write(&[0x6B, 0x6F])], SpiError::Write),
    );
}

#[test]
fn calibrate_bytes() {
    assert_eq!(
        sx::calibrate(CalibParam::all()),
        transaction(vec![write(&[0x89, 0x7F])], SpiError::Write),
    );
    assert_eq!(
        sx::calibrate(CalibParam::new(false, false, true, false, false, false, false)),
        transaction(vec![write(&[0x89, 0x04])], SpiError::Write),
    );
}

#[test]
fn write_register_bytes() {
    assert_eq!(
        sx::write_register(Register::RxGain, &[0x96]),
        transaction(vec![write(&[0x0D]), write(&[0x08, 0xAC]), write(&[0x96])], SpiError::Write),
    );
    assert_eq!(
        sx::write_register(Register::SyncWord0, &[1, 2, 3, 4, 5, 6, 7, 8]),
        transaction(
            vec![write(&[0x0D]), write(&[0x06, 0xC0]), write(&[1, 2, 3, 4, 5, 6, 7, 8])],
            SpiError::Write,
        ),
    );
    assert_eq!(
        sx::write_register(Register::XtaTrim, &[]),
        transaction(vec![write(&[0x0D]), write(&[0x09, 0x11]), write(&[])], SpiError::Write),
    );
}

#[test]
fn read_register_bytes() {
    assert_eq!(
        sx::read_register(0x0740, 2),
        transaction(
            vec![write(&[0x1D]), write(&[0x07, 0x40]), write(&[0x00]), Operation::Read(2)],
            SpiError::Transfer,
        ),
    );
    assert_eq!(
        sx::read_register(0x08AC, 1),
        transaction(
            vec![write(&[0x1D]), write(&[0x08, 0xAC]), write(&[0x00]), Operation::Read(1)],
            SpiError::Transfer,
        ),
    );
}

#[test]
fn write_buffer_bytes() {
    assert_eq!(
        sx::write_buffer(0x00, b"hello"),
        transaction(vec![write(&[0x0E, 0x00]), write(b"hello")], SpiError::Write),
    );
    assert_eq!(
        sx::write_buffer(0x80, &[]),
        transaction(vec![write(&[0x0E, 0x80]), write(&[])], SpiError::Write),
    );
}

#[test]
fn read_buffer_bytes() {
    assert_eq!(
        sx::read_buffer(0x10, 42),
        transaction(vec![write(&[0x1E, 0x10, 0x00]), Operation::Read(42)], SpiError::Transfer),
    );
}

#[test]
fn read_response_takes_the_length_asked_for() {
    assert_eq!(sx::read_response(vec![1, 2, 3], 3), Ok(vec![1, 2, 3]));
    assert_eq!(sx::read_response(vec![], 0), Ok(vec![]));
    assert_eq!(sx::read_response(vec![1, 2, 3], 4), Err(SpiError::Transfer));
    assert_eq!(sx::read_response(vec![1, 2, 3], 2), Err(SpiError::Transfer));
}

#[test]
fn set_dio2_as_rf_switch_ctrl_bytes() {
    assert_eq!(
        sx::set_dio2_as_rf_switch_ctrl(true),
        transaction(vec![write(&[0x9D, 0x01])], SpiError::Write),
    );
    assert_eq!(
        sx::set_dio2_as_rf_switch_ctrl(false),
        transaction(vec![write(&[0x9D, 0x00])], SpiError::Write),
    );
}

#[test]
fn get_packet_status_bytes_and_response() {
    assert_eq!(
        sx::get_packet_status(),
        transaction(vec![write(&[0x14, 0x00]), Operation::Read(3)], SpiError::Transfer),
    );
    assert_eq!(
        sx::get_packet_status_response(&[0x50, 0xEC, 0x4C]),
        Ok(PacketStatus { rssi_pkt: 0x50, snr_pkt: -20, signal_rssi_pkt: 0x4C }),
    );
    assert_eq!(sx::get_packet_status_response(&[0x50, 0xEC]), Err(SpiError::Transfer));
    assert_eq!(sx::get_packet_status_response(&[0; 4]), Err(SpiError::Transfer));
}

#[test]
fn set_dio3_as_tcxo_ctrl_bytes() {
    assert_eq!(
        sx::set_dio3_as_tcxo_ctrl(TcxoVoltage::Volt3_3, TcxoDelay::from_ms(1)),
        transaction(vec![write(&[0x97, 0x07]), write(&[0x00, 0x00, 0x40])], SpiError::Write),
    );
    assert_eq!(
        sx::set_dio3_as_tcxo_ctrl(TcxoVoltage::Volt1_8, TcxoDelay::from_ms(10)),
        transaction(vec![write(&[0x97, 0x02]), write(&[0x00, 0x02, 0x80])], SpiError::Write),
    );
}

#[test]
fn device_errors_bytes_and_response() {
    assert_eq!(
        sx::clear_device_errors(),
        transaction(vec![write(&[0x07, 0x00, 0x00])], SpiError::Write),
    );
    assert_eq!(
        sx::get_device_errors(),
        transaction(vec![transfer(&[0x17, 0x00, 0x00, 0x00])], SpiError::Transfer),
    );
    // The register comes least significant byte first.
    assert_eq!(
        sx::get_device_errors_response(&[0xAA, 0x24, 0x20, 0x01]),
        Ok(DeviceErrors::from(0x0120)),
    );
    let errors = sx::get_device_errors_response(&[0xAA, 0x24, 0x20, 0x01]).unwrap();
    assert!(errors.xosc_start_err());
    assert!(errors.pa_ramp_err());
    assert!(!errors.rc64k_calib_err());
    assert_eq!(sx::get_device_errors_response(&[0x24, 0x20, 0x01]), Err(SpiError::Transfer));
    assert_eq!(sx::get_device_errors_response(&[0; 5]), Err(SpiError::Transfer));
}

#[test]
fn reset_pulls_the_line_low_for_200_us() {
    assert_eq!(
        sx::reset(),
        vec![
            Step { action: Action::ResetLow, error: SpiError::BusError },
            transaction(vec![Operation::DelayNs(200_000)], SpiError::Write),
            Step { action: Action::ResetHigh, error: SpiError::BusError },
        ],
    );
}

#[test]
fn set_ant_enabled_drives_the_line() {
    assert_eq!(sx::set_ant_enabled(true), Action::AntennaHigh);
    assert_eq!(sx::set_ant_enabled(false), Action::AntennaLow);
}

#[test]
fn set_dio_irq_params_bytes() {
    let tx_done = IrqMask::none().combine(IrqMaskBit::TxDone);
    let timeout = IrqMask::none().combine(IrqMaskBit::Timeout);
    assert_eq!(
        sx::set_dio_irq_params(IrqMask::all(), tx_done, timeout, IrqMask::none()),
        transaction(
            vec![
                write(&[0x08]),
                write(&[0xFF, 0xFF]),
                write(&[0x00, 0x01]),
                write(&[0x02, 0x00]),
                write(&[0x00, 0x00]),
            ],
            SpiError::Transfer,
        ),
    );
}

#[test]
fn irq_status_bytes_and_response() {
    assert_eq!(
        sx::get_irq_status(),
        transaction(vec![write(&[0x12]), Operation::Read(3)], SpiError::Transfer),
    );
    assert_eq!(sx::get_irq_status_response(&[0x24, 0x02, 0x01]), Ok(IrqStatus::from(0x0201)));
    let status = sx::get_irq_status_response(&[0x24, 0x02, 0x01]).unwrap();
    assert!(status.tx_done());
    assert!(status.timeout());
    assert!(!status.rx_done());
    assert_eq!(sx::get_irq_status_response(&[0x02, 0x01]), Err(SpiError::Transfer));
    assert_eq!(
        sx::clear_irq_status(IrqMask::all()),
        transaction(vec![write(&[0x02]), write(&[0xFF, 0xFF])], SpiError::Write),
    );
    assert_eq!(
        sx::clear_irq_status(IrqMask::none().combine(IrqMaskBit::RxDone)),
        transaction(vec![write(&[0x02]), write(&[0x00, 0x02])], SpiError::Write),
    );
}

#[test]
fn set_tx_bytes_and_response() {
    assert_eq!(
        sx::set_tx(RxTxTimeout::from_ms(1000)),
        transaction(vec![transfer(&[0x83, 0x00, 0xFA, 0x00])], SpiError::Transfer),
    );
    assert_eq!(
        sx::set_tx(RxTxTimeout::from_ms(0)),
        transaction(vec![transfer(&[0x83, 0x00, 0x00, 0x00])], SpiError::Transfer),
    );
    assert_eq!(sx::set_tx_response(&[0xA2, 0x6C, 0x6C, 0x6C]), Ok(Status::from(0x6C)));
    assert_eq!(sx::set_tx_response(&[0xA2, 0x6C, 0x00, 0x00]), Ok(Status::from(0x6C)));
    assert_eq!(sx::set_tx_response(&[0xA2, 0x6C, 0x6C]), Err(SpiError::Transfer));
    assert_eq!(sx::set_tx_response(&[0xA2, 0x6C, 0x6C, 0x6C, 0x6C]), Err(SpiError::Transfer));
}

#[test]
fn set_rx_bytes_and_status() {
    assert_eq!(
        sx::set_rx(RxTxTimeout::from(0x123456u32)),
        transaction(vec![write(&[0x82, 0x12, 0x34, 0x56])], SpiError::Transfer),
    );
    assert_eq!(sx::set_rx_status(RxTxTimeout::from(0x123456u32)), Status::from(0x12));
    assert_eq!(sx::set_rx_status(RxTxTimeout::from_ms(1000)), Status::from(0x00));
}

#[test]
fn set_packet_params_bytes() {
    let params = PacketParams::from(LoRaPacketParams {
        preamble_len: 8,
        header_type: LoRaHeaderType::VarLen,
        payload_len: 255,
        crc_type: LoRaCrcType::CrcOn,
        invert_iq: LoRaInvertIq::Standard,
    });
    assert_eq!(
        sx::set_packet_params(params),
        transaction(
            vec![write(&[0x8C]), write(&[0x00, 0x08, 0x00, 0xFF, 0x01, 0x00, 0, 0, 0])],
            SpiError::Write,
        ),
    );
}

#[test]
fn set_mod_params_bytes() {
    let params = ModParams::from(LoraModParams {
        spread_factor: LoRaSpreadFactor::SF12,
        bandwidth: LoRaBandWidth::BW10,
        coding_rate: LoraCodingRate::CR4_8,
        low_data_rate_optimize: true,
    });
    assert_eq!(
        sx::set_mod_params(params),
        transaction(
            vec![write(&[0x8B]), write(&[0x0C, 0x08, 0x04, 0x01, 0, 0, 0, 0])],
            SpiError::Write,
        ),
    );
}

#[test]
fn set_tx_params_bytes() {
    let params = TxParams::default().set_power_dbm(-9).set_ramp_time(RampTime::Ramp200u);
    assert_eq!(
        sx::set_tx_params(params),
        transaction(vec![write(&[0x8E]), write(&[0xF7, 0x04])], SpiError::Write),
    );
}

#[test]
fn set_rf_frequency_bytes() {
    assert_eq!(
        sx::set_rf_frequency(0x3640_0000),
        transaction(vec![write(&[0x86]), write(&[0x36, 0x40, 0x00, 0x00])], SpiError::Write),
    );
    assert_eq!(
        sx::set_rf_frequency(0x1234_5678),
        transaction(vec![write(&[0x86]), write(&[0x12, 0x34, 0x56, 0x78])], SpiError::Write),
    );
}

#[test]
fn set_pa_config_bytes() {
    let config = PaConfig::default()
        .set_pa_duty_cycle(0x02)
        .set_hp_max(0x03)
        .set_device_sel(DeviceSel::SX1261);
    assert_eq!(
        sx::set_pa_config(config),
        transaction(vec![write(&[0x95]), write(&[0x02, 0x03, 0x01, 0x01])], SpiError::Write),
    );
}

#[test]
fn set_buffer_base_address_bytes() {
    assert_eq!(
        sx::set_buffer_base_address(0x00, 0x80),
        transaction(vec![write(&[0x8F, 0x00, 0x80])], SpiError::Write),
    );
}

#[test]
fn rx_buffer_status_bytes_and_response() {
    assert_eq!(
        sx::get_rx_buffer_status(),
        transaction(vec![transfer(&[0x13, 0x00, 0x00, 0x00])], SpiError::Transfer),
    );
    assert_eq!(
        sx::get_rx_buffer_status_response(&[0xAA, 0x24, 0x2A, 0x80]),
        Ok(RxBufferStatus { payload_length_rx: 0x2A, rx_start_buffer_pointer: 0x80 }),
    );
    assert_eq!(sx::get_rx_buffer_status_response(&[0x24, 0x2A, 0x80]), Err(SpiError::Transfer));
}

#[test]
fn waits() {
    assert_eq!(
        sx::wait_on_busy(),
        vec![
            Step {
                action: Action::Transaction(vec![Operation::DelayNs(1000)]),
                error: PinError::Output,
            },
            Step { action: Action::WaitBusyLow, error: PinError::Input },
        ],
    );
    assert_eq!(
        sx::wait_on_dio1(),
        Step { action: Action::WaitDio1High, error: PinError::Input },
    );
}
