//! TCXO control through DIO3.

use crate::bytes::{be24, u24_to_be_bytes};
use vstd::prelude::*;
use vstd::std_specs::convert::FromSpecImpl;

verus! {

/// Supply voltage of the TCXO.
#[allow(non_camel_case_types)]
#[derive(Copy, Clone, Debug, PartialEq, Eq, Structural)]
pub enum TcxoVoltage {
    /// 1.6 V
    Volt1_6,
    /// 1.7 V
    Volt1_7,
    /// 1.8 V
    Volt1_8,
    /// 2.2 V
    Volt2_2,
    /// 2.4 V
    Volt2_4,
    /// 2.7 V
    Volt2_7,
    /// 3.0 V
    Volt3_0,
    /// 3.3 V
    Volt3_3,
}

impl TcxoVoltage {
    /// The byte that stands for this voltage on the wire.
    pub open spec fn code(self) -> u8 {
        match self {
            TcxoVoltage::Volt1_6 => 0x00,
            TcxoVoltage::Volt1_7 => 0x01,
            TcxoVoltage::Volt1_8 => 0x02,
            TcxoVoltage::Volt2_2 => 0x03,
            TcxoVoltage::Volt2_4 => 0x04,
            TcxoVoltage::Volt2_7 => 0x05,
            TcxoVoltage::Volt3_0 => 0x06,
            TcxoVoltage::Volt3_3 => 0x07,
        }
    }
}

impl From<TcxoVoltage> for u8 {
    fn from(val: TcxoVoltage) -> (r: u8)
        ensures
            r == val.code(),
    {
        match val {
            TcxoVoltage::Volt1_6 => 0x00,
            TcxoVoltage::Volt1_7 => 0x01,
            TcxoVoltage::Volt1_8 => 0x02,
            TcxoVoltage::Volt2_2 => 0x03,
            TcxoVoltage::Volt2_4 => 0x04,
            TcxoVoltage::Volt2_7 => 0x05,
            TcxoVoltage::Volt3_0 => 0x06,
            TcxoVoltage::Volt3_3 => 0x07,
        }
    }
}

impl FromSpecImpl<TcxoVoltage> for u8 {
    open spec fn obeys_from_spec() -> bool {
        true
    }

    open spec fn from_spec(v: TcxoVoltage) -> u8 {
        v.code()
    }
}

/// Time the TCXO is given to start: a 24-bit count of 15.625 us steps.
#[derive(Copy, Clone, Debug, PartialEq, Eq, Structural)]
pub struct TcxoDelay {
    steps: u32,
}

impl TcxoDelay {
    /// The number of 15.625 us steps.
    pub closed spec fn steps(self) -> u32 {
        self.steps
    }

    /// The count fits in 24 bits.
    #[verifier::type_invariant]
    pub closed spec fn in_range(self) -> bool {
        self.steps <= 0xFF_FFFF
    }

    /// The delay of `steps` steps, cut down to 24 bits.
    pub closed spec fn of_steps(steps: u32) -> TcxoDelay {
        TcxoDelay { steps: steps % 0x100_0000 }
    }

    /// The three bytes of the delay, most significant first.
    pub open spec fn bytes(self) -> Seq<u8> {
        be24(self.steps())
    }

    /// The delay of `ms` milliseconds: 64 steps each, counted modulo 2^24.
    /// Delays of 262144 ms and more wrap around.
    pub fn from_ms(ms: u32) -> (r: Self)
        ensures
            r.steps() == (ms * 64) % 0x100_0000,
            r.in_range(),
    {
        Self { steps: (ms % 0x4_0000) * 64 }
    }
}

impl From<TcxoDelay> for [u8; 3] {
    /// The three bytes of the delay, most significant first.
    fn from(val: TcxoDelay) -> (r: [u8; 3])
        ensures
            r@ == val.bytes(),
    {
        let r = u24_to_be_bytes(val.steps);
        assert(r =~= [val.bytes()[0], val.bytes()[1], val.bytes()[2]]);
        r
    }
}

impl FromSpecImpl<TcxoDelay> for [u8; 3] {
    open spec fn obeys_from_spec() -> bool {
        true
    }

    open spec fn from_spec(v: TcxoDelay) -> [u8; 3] {
        [v.bytes()[0], v.bytes()[1], v.bytes()[2]]
    }
}

impl From<[u8; 3]> for TcxoDelay {
    /// The delay whose bytes, most significant first, are `val`.
    fn from(val: [u8; 3]) -> (r: TcxoDelay)
        ensures
            r.steps() == val[0] * 0x1_0000 + val[1] * 0x100 + val[2],
            r.bytes() == val@,
            r.in_range(),
    {
        let b0: u32 = val[0] as u32;
        let b1: u32 = val[1] as u32;
        let b2: u32 = val[2] as u32;
        let r = TcxoDelay { steps: b0 * 0x1_0000 + b1 * 0x100 + b2 };
        assert(be24(r.steps) =~= val@);
        r
    }
}

impl FromSpecImpl<[u8; 3]> for TcxoDelay {
    open spec fn obeys_from_spec() -> bool {
        true
    }

    open spec fn from_spec(v: [u8; 3]) -> TcxoDelay {
        TcxoDelay::of_steps((v[0] * 0x1_0000 + v[1] * 0x100 + v[2]) as u32)
    }
}

} // verus!
