//! What the chip reports: status, statistics, errors.

use crate::bytes::{u16_from_bytes, word};
use vstd::prelude::*;
use vstd::std_specs::convert::FromSpecImpl;

verus! {

/// The status byte of the chip.
#[derive(Copy, Clone, Debug, PartialEq, Eq, Structural)]
pub struct Status {
    inner: u8,
}

/// The mode the chip is in.
#[derive(Copy, Clone, Debug, PartialEq, Eq, Structural)]
pub enum ChipMode {
    StbyRC,
    StbyXOSC,
    FS,
    RX,
    TX,
}

/// How the last command went.
#[derive(Copy, Clone, Debug, PartialEq, Eq, Structural)]
pub enum CommandStatus {
    DataAvailable,
    CommandTimeout,
    CommandProcessingError,
    FailureToExecute,
    CommandTxDone,
}

impl ChipMode {
    /// The mode that bits 6 to 4 of a status byte stand for, if any.
    pub open spec fn of_field(field: u8) -> Option<ChipMode> {
        if field == 0x02 {
            Some(ChipMode::StbyRC)
        } else if field == 0x03 {
            Some(ChipMode::StbyXOSC)
        } else if field == 0x04 {
            Some(ChipMode::FS)
        } else if field == 0x05 {
            Some(ChipMode::RX)
        } else if field == 0x06 {
            Some(ChipMode::TX)
        } else {
            None
        }
    }
}

impl CommandStatus {
    /// The command status that bits 3 to 1 of a status byte stand for, if
    /// any.
    pub open spec fn of_field(field: u8) -> Option<CommandStatus> {
        if field == 0x02 {
            Some(CommandStatus::DataAvailable)
        } else if field == 0x03 {
            Some(CommandStatus::CommandTimeout)
        } else if field == 0x04 {
            Some(CommandStatus::CommandProcessingError)
        } else if field == 0x05 {
            Some(CommandStatus::FailureToExecute)
        } else if field == 0x06 {
            Some(CommandStatus::CommandTxDone)
        } else {
            None
        }
    }
}

impl Status {
    /// The byte as the chip sent it.
    pub closed spec fn bits(self) -> u8 {
        self.inner
    }

    /// The status with the given byte.
    pub closed spec fn of_bits(bits: u8) -> Status {
        Status { inner: bits }
    }

    /// The mode held in bits 6 to 4; `None` where the field is unused or
    /// reserved.
    pub fn chip_mode(&self) -> (r: Option<ChipMode>)
        ensures
            r == ChipMode::of_field((self.bits() / 0x10) % 8),
    {
        match (self.inner / 0x10) % 8 {
            0x02 => Some(ChipMode::StbyRC),
            0x03 => Some(ChipMode::StbyXOSC),
            0x04 => Some(ChipMode::FS),
            0x05 => Some(ChipMode::RX),
            0x06 => Some(ChipMode::TX),
            _ => None,
        }
    }

    /// The command status held in bits 3 to 1; `None` where the field is
    /// unused or reserved.
    pub fn command_status(self) -> (r: Option<CommandStatus>)
        ensures
            r == CommandStatus::of_field((self.bits() / 0x02) % 8),
    {
        match (self.inner / 0x02) % 8 {
            0x02 => Some(CommandStatus::DataAvailable),
            0x03 => Some(CommandStatus::CommandTimeout),
            0x04 => Some(CommandStatus::CommandProcessingError),
            0x05 => Some(CommandStatus::FailureToExecute),
            0x06 => Some(CommandStatus::CommandTxDone),
            _ => None,
        }
    }
}

impl From<u8> for Status {
    fn from(b: u8) -> (r: Status)
        ensures
            r == Status::of_bits(b),
            r.bits() == b,
    {
        Self { inner: b }
    }
}

impl FromSpecImpl<u8> for Status {
    open spec fn obeys_from_spec() -> bool {
        true
    }

    open spec fn from_spec(v: u8) -> Status {
        Status::of_bits(v)
    }
}

/// The byte of a status is the byte it was made from.
pub proof fn lemma_status_bits(bits: u8)
    ensures
        Status::of_bits(bits).bits() == bits,
{
}

/// The reception counters of the chip.
#[derive(Copy, Clone, Debug, PartialEq, Eq, Structural)]
pub struct Stats {
    pub status: Status,
    /// Number of packets received
    pub rx_pkt: u16,
    /// Number of packets received with a wrong CRC
    pub crc_error: u16,
    /// Number of packets received with a header error
    pub header_error: u16,
}

impl From<[u8; 7]> for Stats {
    /// Reads the status byte and the three counters, each most significant
    /// byte first.
    fn from(b: [u8; 7]) -> (r: Stats)
        ensures
            r == (Stats {
                status: Status::of_bits(b[0]),
                rx_pkt: word(b[1], b[2]),
                crc_error: word(b[3], b[4]),
                header_error: word(b[5], b[6]),
            }),
    {
        Self {
            status: Status::from(b[0]),
            rx_pkt: u16_from_bytes(b[1], b[2]),
            crc_error: u16_from_bytes(b[3], b[4]),
            header_error: u16_from_bytes(b[5], b[6]),
        }
    }
}

impl FromSpecImpl<[u8; 7]> for Stats {
    open spec fn obeys_from_spec() -> bool {
        true
    }

    open spec fn from_spec(b: [u8; 7]) -> Stats {
        Stats {
            status: Status::of_bits(b[0]),
            rx_pkt: word(b[1], b[2]),
            crc_error: word(b[3], b[4]),
            header_error: word(b[5], b[6]),
        }
    }
}

/// Signal figures of the last packet received, as the chip reports them.
#[derive(Copy, Clone, Debug, PartialEq, Eq, Structural)]
pub struct PacketStatus {
    /// Average RSSI over the packet, in units of -0.5 dBm
    pub rssi_pkt: u8,
    /// Estimated SNR of the packet, in units of 0.25 dB
    pub snr_pkt: i8,
    /// RSSI of the LoRa signal after despreading, in units of -0.5 dBm
    pub signal_rssi_pkt: u8,
}

/// The signed value that a byte stands for in two's complement.
pub open spec fn signed_byte(b: u8) -> i8 {
    if b < 0x80 {
        b as i8
    } else {
        (b - 0x100) as i8
    }
}

impl From<[u8; 3]> for PacketStatus {
    /// Reads the RSSI of the packet, its SNR as a signed byte, and the RSSI
    /// of the signal.
    fn from(b: [u8; 3]) -> (r: PacketStatus)
        ensures
            r == (PacketStatus {
                rssi_pkt: b[0],
                snr_pkt: signed_byte(b[1]),
                signal_rssi_pkt: b[2],
            }),
    {
        let snr_pkt: i8 = if b[1] < 0x80 {
            b[1] as i8
        } else {
            (b[1] as i16 - 0x100) as i8
        };
        Self { rssi_pkt: b[0], snr_pkt, signal_rssi_pkt: b[2] }
    }
}

impl FromSpecImpl<[u8; 3]> for PacketStatus {
    open spec fn obeys_from_spec() -> bool {
        true
    }

    open spec fn from_spec(b: [u8; 3]) -> PacketStatus {
        PacketStatus { rssi_pkt: b[0], snr_pkt: signed_byte(b[1]), signal_rssi_pkt: b[2] }
    }
}

/// A fault that the chip can report of itself.
#[derive(Copy, Clone, Debug, PartialEq, Eq, Structural)]
pub enum DeviceError {
    /// RC64k calibration failed
    Rc64kCalib,
    /// RC13M calibration failed
    Rc13mCalib,
    /// PLL calibration failed
    PllCalib,
    /// ADC calibration failed
    AdcCalib,
    /// Image calibration failed
    ImgCalib,
    /// The crystal oscillator failed to start
    XoscStart,
    /// The PLL failed to lock
    PllLock,
    /// The power amplifier failed to ramp
    PaRamp,
}

impl DeviceError {
    /// The bit that stands for this fault in the error register.
    pub open spec fn mask(self) -> u16 {
        match self {
            DeviceError::Rc64kCalib => 0x0001,
            DeviceError::Rc13mCalib => 0x0002,
            DeviceError::PllCalib => 0x0004,
            DeviceError::AdcCalib => 0x0008,
            DeviceError::ImgCalib => 0x0010,
            DeviceError::XoscStart => 0x0020,
            DeviceError::PllLock => 0x0040,
            DeviceError::PaRamp => 0x0100,
        }
    }
}

/// The error register of the chip.
#[derive(Copy, Clone, Debug, PartialEq, Eq, Structural)]
pub struct DeviceErrors {
    inner: u16,
}

impl DeviceErrors {
    /// The register as the chip sent it.
    pub closed spec fn bits(self) -> u16 {
        self.inner
    }

    /// The register with the given bits.
    pub closed spec fn of_bits(bits: u16) -> DeviceErrors {
        DeviceErrors { inner: bits }
    }

    /// Whether the register reports `fault`.
    pub open spec fn reports(self, fault: DeviceError) -> bool {
        self.bits() & fault.mask() != 0
    }

    pub fn rc64k_calib_err(self) -> (r: bool)
        ensures
            r == self.reports(DeviceError::Rc64kCalib),
    {
        (self.inner & 0x0001) != 0
    }

    pub fn rc13m_calib_err(self) -> (r: bool)
        ensures
            r == self.reports(DeviceError::Rc13mCalib),
    {
        (self.inner & 0x0002) != 0
    }

    pub fn pll_calib_err(self) -> (r: bool)
        ensures
            r == self.reports(DeviceError::PllCalib),
    {
        (self.inner & 0x0004) != 0
    }

    pub fn adc_calib_err(self) -> (r: bool)
        ensures
            r == self.reports(DeviceError::AdcCalib),
    {
        (self.inner & 0x0008) != 0
    }

    pub fn img_calib_err(self) -> (r: bool)
        ensures
            r == self.reports(DeviceError::ImgCalib),
    {
        (self.inner & 0x0010) != 0
    }

    pub fn xosc_start_err(self) -> (r: bool)
        ensures
            r == self.reports(DeviceError::XoscStart),
    {
        (self.inner & 0x0020) != 0
    }

    pub fn pll_lock_err(self) -> (r: bool)
        ensures
            r == self.reports(DeviceError::PllLock),
    {
        (self.inner & 0x0040) != 0
    }

    pub fn pa_ramp_err(self) -> (r: bool)
        ensures
            r == self.reports(DeviceError::PaRamp),
    {
        (self.inner & 0x0100) != 0
    }
}

/// The bits of an error register are the bits it was made from.
pub proof fn lemma_device_errors_bits(bits: u16)
    ensures
        DeviceErrors::of_bits(bits).bits() == bits,
{
}

impl From<u16> for DeviceErrors {
    fn from(val: u16) -> (r: DeviceErrors)
        ensures
            r == DeviceErrors::of_bits(val),
            r.bits() == val,
    {
        Self { inner: val }
    }
}

impl FromSpecImpl<u16> for DeviceErrors {
    open spec fn obeys_from_spec() -> bool {
        true
    }

    open spec fn from_spec(v: u16) -> DeviceErrors {
        DeviceErrors::of_bits(v)
    }
}

/// Where in the data buffer the last packet received lies.
#[derive(Copy, Clone, Debug, PartialEq, Eq, Structural)]
pub struct RxBufferStatus {
    /// Length of the last packet received, in bytes
    pub payload_length_rx: u8,
    /// Offset in the buffer of the first byte received
    pub rx_start_buffer_pointer: u8,
}

impl From<[u8; 2]> for RxBufferStatus {
    fn from(b: [u8; 2]) -> (r: RxBufferStatus)
        ensures
            r == (RxBufferStatus { payload_length_rx: b[0], rx_start_buffer_pointer: b[1] }),
    {
        Self { payload_length_rx: b[0], rx_start_buffer_pointer: b[1] }
    }
}

impl FromSpecImpl<[u8; 2]> for RxBufferStatus {
    open spec fn obeys_from_spec() -> bool {
        true
    }

    open spec fn from_spec(b: [u8; 2]) -> RxBufferStatus {
        RxBufferStatus { payload_length_rx: b[0], rx_start_buffer_pointer: b[1] }
    }
}

} // verus!
