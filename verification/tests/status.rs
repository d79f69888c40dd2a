use sx126x::op::status::{
    ChipMode, CommandStatus, DeviceErrors, PacketStatus, RxBufferStatus, Stats, Status,
};

#[test]
fn status_chip_mode() {
    assert_eq!(Status::from(0x20).chip_mode(), Some(ChipMode::StbyRC));
    assert_eq!(Status::from(0x30).chip_mode(), Some(ChipMode::StbyXOSC));
    assert_eq!(Status::from(0x40).chip_mode(), Some(ChipMode::FS));
    assert_eq!(Status::from(0x50).chip_mode(), Some(ChipMode::RX));
    assert_eq!(Status::from(0x60).chip_mode(), Some(ChipMode::TX));
    assert_eq!(Status::from(0x00).chip_mode(), None);
    assert_eq!(Status::from(0x10).chip_mode(), None);
    assert_eq!(Status::from(0x70).chip_mode(), None);
    // Bit 7 and the command status do not count.
    assert_eq!(Status::from(0xAC).chip_mode(), Some(ChipMode::StbyRC));
    assert_eq!(Status::from(0xEF).chip_mode(), Some(ChipMode::TX));
}

#[test]
fn status_command_status() {
    assert_eq!(Status::from(0x04).command_status(), Some(CommandStatus::DataAvailable));
    assert_eq!(Status::from(0x06).command_status(), Some(CommandStatus::CommandTimeout));
    assert_eq!(Status::from(0x08).command_status(), Some(CommandStatus::CommandProcessingError));
    assert_eq!(Status::from(0x0A).command_status(), Some(CommandStatus::FailureToExecute));
    assert_eq!(Status::from(0x0C).command_status(), Some(CommandStatus::CommandTxDone));
    assert_eq!(Status::from(0x00).command_status(), None);
    assert_eq!(Status::from(0x02).command_status(), None);
    assert_eq!(Status::from(0x0E).command_status(), None);
    // Bit 0 and the chip mode do not count.
    assert_eq!(Status::from(0x2D).command_status(), Some(CommandStatus::CommandTxDone));
    assert_eq!(Status::from(0xF5).command_status(), Some(CommandStatus::DataAvailable));
}

#[test]
fn stats_from_bytes() {
    let stats = Stats::from([0x24, 0x01, 0x02, 0x03, 0x04, 0x05, 0x06]);
    assert_eq!(stats.status, Status::from(0x24));
    assert_eq!(stats.rx_pkt, 0x0102);
    assert_eq!(stats.crc_error, 0x0304);
    assert_eq!(stats.header_error, 0x0506);
    let stats = Stats::from([0xFF; 7]);
    assert_eq!(stats.rx_pkt, 0xFFFF);
    assert_eq!(stats.crc_error, 0xFFFF);
    assert_eq!(stats.header_error, 0xFFFF);
}

#[test]
fn packet_status_from_bytes() {
    let status = PacketStatus::from([0x50, 0x14, 0x4C]);
    assert_eq!(status.rssi_pkt, 0x50);
    assert_eq!(status.snr_pkt, 20);
    assert_eq!(status.signal_rssi_pkt, 0x4C);
    assert_eq!(PacketStatus::from([0, 0x7F, 0]).snr_pkt, 127);
    assert_eq!(PacketStatus::from([0, 0x80, 0]).snr_pkt, -128);
    assert_eq!(PacketStatus::from([0, 0xFF, 0]).snr_pkt, -1);
    assert_eq!(PacketStatus::from([0, 0xEC, 0]).snr_pkt, -20);
}

#[test]
fn device_errors_flags() {
    let none = DeviceErrors::from(0x0000);
    assert!(!none.rc64k_calib_err());
    assert!(!none.rc13m_calib_err());
    assert!(!none.pll_calib_err());
    assert!(!none.adc_calib_err());
    assert!(!none.img_calib_err());
    assert!(!none.xosc_start_err());
    assert!(!none.pll_lock_err());
    assert!(!none.pa_ramp_err());
    assert!(DeviceErrors::from(0x0001).rc64k_calib_err());
    assert!(DeviceErrors::from(0x0002).rc13m_calib_err());
    assert!(DeviceErrors::from(0x0004).pll_calib_err());
    assert!(DeviceErrors::from(0x0008).adc_calib_err());
    assert!(DeviceErrors::from(0x0010).img_calib_err());
    assert!(DeviceErrors::from(0x0020).xosc_start_err());
    assert!(DeviceErrors::from(0x0040).pll_lock_err());
    assert!(DeviceErrors::from(0x0100).pa_ramp_err());
    // Bit 7 is reserved: it stands for no fault.
    let reserved = DeviceErrors::from(0x0080);
    assert!(!reserved.pll_lock_err());
    assert!(!reserved.pa_ramp_err());
    let all = DeviceErrors::from(0x017F);
    assert!(all.rc64k_calib_err() && all.rc13m_calib_err() && all.pll_calib_err());
    assert!(all.adc_calib_err() && all.img_calib_err() && all.xosc_start_err());
    assert!(all.pll_lock_err() && all.pa_ramp_err());
}

#[test]
fn rx_buffer_status_from_bytes() {
    let status = RxBufferStatus::from([0x2A, 0x80]);
    assert_eq!(status.payload_length_rx, 0x2A);
    assert_eq!(status.rx_start_buffer_pointer, 0x80);
}
