//! Channel activity detection (CAD) parameters.
//!
//! | Command      | Opcode | Parameters                                                   |
//! |--------------|--------|--------------------------------------------------------------|
//! | SetCadParams | 0x88   | cadSymbolNum, cadDetPeak, cadDetMin, cadExitMode, cadTimeout |

use crate::bytes::be24;
use vstd::prelude::*;
use vstd::std_specs::convert::FromSpecImpl;

verus! {

/// Channel activity detection commands.
#[derive(Copy, Clone, Debug, PartialEq, Eq, Structural)]
pub enum CadCommands {
    /// 0x88, sets the parameters used to perform a CAD (LoRa only)
    SetCadParams,
}

impl CadCommands {
    /// The opcode of the command.
    pub open spec fn code(self) -> u8 {
        match self {
            CadCommands::SetCadParams => 0x88,
        }
    }
}

impl From<CadCommands> for u8 {
    fn from(val: CadCommands) -> (r: u8)
        ensures
            r == val.code(),
    {
        match val {
            CadCommands::SetCadParams => 0x88,
        }
    }
}

impl FromSpecImpl<CadCommands> for u8 {
    open spec fn obeys_from_spec() -> bool {
        true
    }

    open spec fn from_spec(v: CadCommands) -> u8 {
        v.code()
    }
}

/// Number of symbols used for a CAD.
#[allow(non_camel_case_types)]
#[derive(Copy, Clone, Debug, PartialEq, Eq, Structural)]
pub enum CadSymbolNum {
    /// 0x00, 1 symbol
    CAD_ON_1_SYMB,
    /// 0x01, 2 symbols
    CAD_ON_2_SYMB,
    /// 0x02, 4 symbols
    CAD_ON_4_SYMB,
    /// 0x03, 8 symbols
    CAD_ON_8_SYMB,
    /// 0x04, 16 symbols
    CAD_ON_16_SYMB,
}

impl CadSymbolNum {
    /// The byte that stands for this number of symbols on the wire.
    pub open spec fn code(self) -> u8 {
        match self {
            CadSymbolNum::CAD_ON_1_SYMB => 0x00,
            CadSymbolNum::CAD_ON_2_SYMB => 0x01,
            CadSymbolNum::CAD_ON_4_SYMB => 0x02,
            CadSymbolNum::CAD_ON_8_SYMB => 0x03,
            CadSymbolNum::CAD_ON_16_SYMB => 0x04,
        }
    }
}

impl From<CadSymbolNum> for u8 {
    fn from(val: CadSymbolNum) -> (r: u8)
        ensures
            r == val.code(),
    {
        match val {
            CadSymbolNum::CAD_ON_1_SYMB => 0x00,
            CadSymbolNum::CAD_ON_2_SYMB => 0x01,
            CadSymbolNum::CAD_ON_4_SYMB => 0x02,
            CadSymbolNum::CAD_ON_8_SYMB => 0x03,
            CadSymbolNum::CAD_ON_16_SYMB => 0x04,
        }
    }
}

impl FromSpecImpl<CadSymbolNum> for u8 {
    open spec fn obeys_from_spec() -> bool {
        true
    }

    open spec fn from_spec(v: CadSymbolNum) -> u8 {
        v.code()
    }
}

/// Peak detection threshold of a CAD, from 18 to 35.
#[derive(Copy, Clone, Debug, PartialEq, Eq, Structural)]
pub struct CadDetPeak(u8);

impl CadDetPeak {
    pub const MIN: u8 = 18;

    pub const MAX: u8 = 35;

    /// The threshold held.
    pub closed spec fn value(self) -> u8 {
        self.0
    }

    /// The threshold lies within the limits.
    #[verifier::type_invariant]
    pub closed spec fn in_range(self) -> bool {
        18 <= self.0 <= 35
    }

    pub fn new(value: u8) -> (r: Result<Self, &'static str>)
        ensures
            r is Ok <==> 18 <= value <= 35,
            r matches Ok(peak) ==> peak.value() == value && peak.in_range(),
            r matches Err(e) ==> e@ == "Value out of range"@,
    {
        if value >= Self::MIN && value <= Self::MAX {
            Ok(CadDetPeak(value))
        } else {
            Err("Value out of range")
        }
    }
}

impl From<CadDetPeak> for u8 {
    fn from(val: CadDetPeak) -> (r: u8)
        ensures
            r == val.value(),
            18 <= r <= 35,
    {
        proof {
            use_type_invariant(&val);
        }
        val.0
    }
}

impl FromSpecImpl<CadDetPeak> for u8 {
    open spec fn obeys_from_spec() -> bool {
        true
    }

    open spec fn from_spec(v: CadDetPeak) -> u8 {
        v.value()
    }
}

/// Minimum detection threshold of a CAD.
///
/// The vendor advises to use no value other than 10.
#[derive(Copy, Clone, Debug, PartialEq, Eq, Structural)]
pub struct CadDetMin(u8);

impl CadDetMin {
    pub const MIN: u8 = 10;

    pub const MAX: u8 = 10;

    /// The threshold held.
    pub closed spec fn value(self) -> u8 {
        self.0
    }

    pub fn new(value: u8) -> (r: Result<Self, &'static str>)
        ensures
            r is Ok <==> value == 10,
            r matches Ok(min) ==> min.value() == value,
            r matches Err(e) ==> e@ == "Value out of range"@,
    {
        if value >= Self::MIN && value <= Self::MAX {
            Ok(CadDetMin(value))
        } else {
            Err("Value out of range")
        }
    }

    /// Accepts any threshold. Not recommended; here for utility.
    pub fn new_override(value: u8) -> (r: Result<Self, &'static str>)
        ensures
            r matches Ok(min) && min.value() == value,
    {
        Ok(CadDetMin(value))
    }
}

impl From<CadDetMin> for u8 {
    fn from(val: CadDetMin) -> (r: u8)
        ensures
            r == val.value(),
    {
        val.0
    }
}

impl FromSpecImpl<CadDetMin> for u8 {
    open spec fn obeys_from_spec() -> bool {
        true
    }

    open spec fn from_spec(v: CadDetMin) -> u8 {
        v.value()
    }
}

/// What the chip does once a CAD is over.
#[allow(non_camel_case_types)]
#[derive(Copy, Clone, Debug, PartialEq, Eq, Structural)]
pub enum CadExit {
    /// 0x00, the chip performs the CAD and, whatever the activity on the
    /// channel, goes back to STBY_RC mode.
    CAD_ONLY,
    /// 0x01, the chip performs the CAD and, if it detects activity, stays in
    /// RX until a packet is detected or the CAD timeout has passed.
    CAD_RX,
}

impl CadExit {
    /// The byte that stands for this exit mode on the wire.
    pub open spec fn code(self) -> u8 {
        match self {
            CadExit::CAD_ONLY => 0x00,
            CadExit::CAD_RX => 0x01,
        }
    }
}

impl From<CadExit> for u8 {
    fn from(val: CadExit) -> (r: u8)
        ensures
            r == val.code(),
    {
        match val {
            CadExit::CAD_ONLY => 0x00,
            CadExit::CAD_RX => 0x01,
        }
    }
}

impl FromSpecImpl<CadExit> for u8 {
    open spec fn obeys_from_spec() -> bool {
        true
    }

    open spec fn from_spec(v: CadExit) -> u8 {
        v.code()
    }
}

/// Timeout of a CAD in units of 15.625 us: a 24-bit value.
#[derive(Copy, Clone, Debug, PartialEq, Eq, Structural)]
pub struct CadTimeout(u32);

impl CadTimeout {
    pub const MIN: u32 = 0;

    pub const MAX: u32 = 0xFFFFFF;

    /// The timeout held.
    pub closed spec fn value(self) -> u32 {
        self.0
    }

    /// The timeout fits in 24 bits.
    #[verifier::type_invariant]
    pub closed spec fn in_range(self) -> bool {
        self.0 <= 0xFFFFFF
    }

    pub fn new(value: u32) -> (r: Result<Self, &'static str>)
        ensures
            r is Ok <==> value <= 0xFFFFFF,
            r matches Ok(timeout) ==> timeout.value() == value && timeout.in_range(),
            r matches Err(e) ==> e@ == "Value out of range"@,
    {
        if value >= Self::MIN && value <= Self::MAX {
            Ok(CadTimeout(value))
        } else {
            Err("Value out of range")
        }
    }

    /// The low 24 bits of `val` as three bytes, most significant first.
    pub fn split_u24(val: u32) -> (r: (u8, u8, u8))
        ensures
            seq![r.0, r.1, r.2] == be24(val),
    {
        let byte0 = (val % 0x100) as u8;
        let byte1 = ((val / 0x100) % 0x100) as u8;
        let byte2 = ((val / 0x1_0000) % 0x100) as u8;
        assert(seq![byte2, byte1, byte0] =~= be24(val));
        (byte2, byte1, byte0)
    }
}

impl From<CadTimeout> for u32 {
    fn from(val: CadTimeout) -> (r: u32)
        ensures
            r == val.value(),
            r <= 0xFFFFFF,
    {
        proof {
            use_type_invariant(&val);
        }
        val.0
    }
}

impl FromSpecImpl<CadTimeout> for u32 {
    open spec fn obeys_from_spec() -> bool {
        true
    }

    open spec fn from_spec(v: CadTimeout) -> u32 {
        v.value()
    }
}

/// The parameters of a CAD.
#[derive(Copy, Clone, Debug)]
pub struct CadParams {
    pub symbol_num: CadSymbolNum,
    pub det_peak: CadDetPeak,
    pub det_min: CadDetMin,
    pub exit_mode: CadExit,
    pub timeout: Option<CadTimeout>,
}

} // verus!
