//! Failure kinds reported by the driver.

use vstd::prelude::*;

verus! {

/// A failure of the serial bus, as the driver reports it.
#[derive(Copy, Clone, Debug, PartialEq, Eq, Structural)]
pub enum SpiError {
    /// A write-only transaction failed.
    Write,
    /// A transaction that also reads failed, or delivered the wrong number of bytes.
    Transfer,
    /// SPI bus error.
    BusError,
    /// SPI device error.
    DeviceError,
}

/// A failure of a control line.
#[derive(Copy, Clone, Debug, PartialEq, Eq, Structural)]
pub enum PinError {
    /// An input line could not be read or waited on.
    Input,
    /// An output line could not be driven.
    Output,
}

/// A byte that stands for no value of the type it was decoded into.
///
/// Such a byte means that the bus has lost step with the chip or that the
/// chip is at fault. Decoding reports it with the byte, so that the caller
/// can decide what to do; it never puts a default in its place.
#[derive(Copy, Clone, Debug, PartialEq, Eq, Structural)]
pub enum DecodeError {
    /// Not a packet type.
    PacketType(u8),
    /// Not a LoRa spreading factor.
    SpreadFactor(u8),
    /// Not a LoRa bandwidth.
    BandWidth(u8),
    /// Not a LoRa coding rate.
    CodingRate(u8),
}

} // verus!
