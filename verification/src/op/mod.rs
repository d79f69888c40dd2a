//! Parameter blocks of the chip's commands, and what the chip reports.

use vstd::prelude::*;
use vstd::std_specs::convert::FromSpecImpl;

pub mod cad;
pub mod calib;
pub mod irq;
pub mod modulation;
pub mod op_modes;
pub mod packet;
pub mod rxtx;
pub mod status;
pub mod tcxo;

pub use cad::{CadCommands, CadDetMin, CadDetPeak, CadExit, CadParams, CadSymbolNum, CadTimeout};
pub use calib::{CalibImageFreq, CalibParam};
pub use irq::{IrqMask, IrqMaskBit, IrqStatus};
pub use modulation::{LoRaBandWidth, LoRaSpreadFactor, LoraCodingRate, LoraModParams, ModParams};
pub use op_modes::OperatingModes;
pub use packet::{
    LoRaCrcType, LoRaCrcTypeConfig, LoRaHeaderType, LoRaInvertIq, LoRaPacketParams, PacketParams,
    PacketType,
};
pub use rxtx::{DeviceSel, PaConfig, RampTime, RxTxTimeout, TxParams};
pub use status::{
    ChipMode, CommandStatus, DeviceError, DeviceErrors, PacketStatus, RxBufferStatus, Stats, Status,
};
pub use tcxo::{TcxoDelay, TcxoVoltage};

verus! {

/// The oscillator that runs in standby.
#[derive(Copy, Clone, Debug, PartialEq, Eq, Structural)]
pub enum StandbyConfig {
    /// Internal 13 MHz RC oscillator
    StbyRc,
    /// Crystal oscillator
    StbyXOSC,
}

impl StandbyConfig {
    /// The byte that stands for this configuration on the wire.
    pub open spec fn code(self) -> u8 {
        match self {
            StandbyConfig::StbyRc => 0x00,
            StandbyConfig::StbyXOSC => 0x01,
        }
    }
}

impl From<StandbyConfig> for u8 {
    fn from(val: StandbyConfig) -> (r: u8)
        ensures
            r == val.code(),
    {
        match val {
            StandbyConfig::StbyRc => 0x00,
            StandbyConfig::StbyXOSC => 0x01,
        }
    }
}

impl FromSpecImpl<StandbyConfig> for u8 {
    open spec fn obeys_from_spec() -> bool {
        true
    }

    open spec fn from_spec(v: StandbyConfig) -> u8 {
        v.code()
    }
}

} // verus!
