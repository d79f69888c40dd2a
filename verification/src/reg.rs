//! Registers of the chip that are reached by address.

use vstd::prelude::*;
use vstd::std_specs::convert::FromSpecImpl;

verus! {

/// A register of the chip.
#[derive(Copy, Clone, Debug, PartialEq, Eq, Structural)]
pub enum Register {
    /// 0x06B8
    WhiteningInitialValueMsb,
    /// 0x06B9
    WhiteningInitialValueLsb,
    /// 0x06BC
    CrcMsbInitialValue,
    /// 0x06BD
    CrcLsbInitialValue,
    /// 0x06BE
    CrcMsbPolynomialValue,
    /// 0x06BF
    CrcLsbPolynomialValue,
    /// 0x06C0, the first of the eight bytes of the FSK sync word
    SyncWord0,
    /// 0x06CD
    NodeAddress,
    /// 0x06CE
    BroadcastAddress,
    /// 0x0740
    LoRaSyncWordMsb,
    /// 0x0741
    LoRaSyncWordLsb,
    /// 0x0819, the first of the four bytes of the random number generator
    RandomNumberGen0,
    /// 0x08AC
    RxGain,
    /// 0x08E7
    OcpConfiguration,
    /// 0x0911
    XtaTrim,
    /// 0x0912
    XtbTrim,
}

impl Register {
    /// The address of the register.
    pub open spec fn addr(self) -> u16 {
        match self {
            Register::WhiteningInitialValueMsb => 0x06B8,
            Register::WhiteningInitialValueLsb => 0x06B9,
            Register::CrcMsbInitialValue => 0x06BC,
            Register::CrcLsbInitialValue => 0x06BD,
            Register::CrcMsbPolynomialValue => 0x06BE,
            Register::CrcLsbPolynomialValue => 0x06BF,
            Register::SyncWord0 => 0x06C0,
            Register::NodeAddress => 0x06CD,
            Register::BroadcastAddress => 0x06CE,
            Register::LoRaSyncWordMsb => 0x0740,
            Register::LoRaSyncWordLsb => 0x0741,
            Register::RandomNumberGen0 => 0x0819,
            Register::RxGain => 0x08AC,
            Register::OcpConfiguration => 0x08E7,
            Register::XtaTrim => 0x0911,
            Register::XtbTrim => 0x0912,
        }
    }
}

impl From<Register> for u16 {
    fn from(val: Register) -> (r: u16)
        ensures
            r == val.addr(),
    {
        match val {
            Register::WhiteningInitialValueMsb => 0x06B8,
            Register::WhiteningInitialValueLsb => 0x06B9,
            Register::CrcMsbInitialValue => 0x06BC,
            Register::CrcLsbInitialValue => 0x06BD,
            Register::CrcMsbPolynomialValue => 0x06BE,
            Register::CrcLsbPolynomialValue => 0x06BF,
            Register::SyncWord0 => 0x06C0,
            Register::NodeAddress => 0x06CD,
            Register::BroadcastAddress => 0x06CE,
            Register::LoRaSyncWordMsb => 0x0740,
            Register::LoRaSyncWordLsb => 0x0741,
            Register::RandomNumberGen0 => 0x0819,
            Register::RxGain => 0x08AC,
            Register::OcpConfiguration => 0x08E7,
            Register::XtaTrim => 0x0911,
            Register::XtbTrim => 0x0912,
        }
    }
}

impl FromSpecImpl<Register> for u16 {
    open spec fn obeys_from_spec() -> bool {
        true
    }

    open spec fn from_spec(v: Register) -> u16 {
        v.addr()
    }
}

} // verus!
