//! Interrupt masks and interrupt status.

use vstd::prelude::*;
use vstd::std_specs::convert::FromSpecImpl;

verus! {

/// An interrupt source.
#[derive(Copy, Clone, Debug, PartialEq, Eq, Structural)]
pub enum IrqMaskBit {
    /// Packet transmission completed
    TxDone,
    /// Packet received
    RxDone,
    /// Preamble detected
    PreambleDetected,
    /// Valid sync word detected
    SyncwordValid,
    /// Valid LoRa header received
    HeaderValid,
    /// LoRa header CRC error
    HeaderError,
    /// Wrong CRC received
    CrcErr,
    /// Channel activity detection finished
    CadDone,
    /// Channel activity detected
    CadDetected,
    /// RX or TX timeout
    Timeout,
}

impl IrqMaskBit {
    /// The bit that stands for this source in a mask.
    pub open spec fn mask(self) -> u16 {
        match self {
            IrqMaskBit::TxDone => 0x0001,
            IrqMaskBit::RxDone => 0x0002,
            IrqMaskBit::PreambleDetected => 0x0004,
            IrqMaskBit::SyncwordValid => 0x0008,
            IrqMaskBit::HeaderValid => 0x0010,
            IrqMaskBit::HeaderError => 0x0020,
            IrqMaskBit::CrcErr => 0x0040,
            IrqMaskBit::CadDone => 0x0080,
            IrqMaskBit::CadDetected => 0x0100,
            IrqMaskBit::Timeout => 0x0200,
        }
    }
}

impl From<IrqMaskBit> for u16 {
    fn from(val: IrqMaskBit) -> (r: u16)
        ensures
            r == val.mask(),
    {
        match val {
            IrqMaskBit::TxDone => 0x0001,
            IrqMaskBit::RxDone => 0x0002,
            IrqMaskBit::PreambleDetected => 0x0004,
            IrqMaskBit::SyncwordValid => 0x0008,
            IrqMaskBit::HeaderValid => 0x0010,
            IrqMaskBit::HeaderError => 0x0020,
            IrqMaskBit::CrcErr => 0x0040,
            IrqMaskBit::CadDone => 0x0080,
            IrqMaskBit::CadDetected => 0x0100,
            IrqMaskBit::Timeout => 0x0200,
        }
    }
}

impl FromSpecImpl<IrqMaskBit> for u16 {
    open spec fn obeys_from_spec() -> bool {
        true
    }

    open spec fn from_spec(v: IrqMaskBit) -> u16 {
        v.mask()
    }
}

/// A set of interrupt sources, one bit each.
#[derive(Copy, Clone, Debug, PartialEq, Eq, Structural)]
pub struct IrqMask {
    inner: u16,
}

impl IrqMask {
    /// The mask as the chip receives it.
    pub closed spec fn bits(self) -> u16 {
        self.inner
    }

    /// The mask with the given bits.
    pub closed spec fn of_bits(bits: u16) -> IrqMask {
        IrqMask { inner: bits }
    }

    /// The mask of no source.
    pub fn none() -> (r: Self)
        ensures
            r.bits() == 0x0000,
            r == Self::of_bits(0x0000),
    {
        Self { inner: 0x0000 }
    }

    /// The mask of every source.
    pub fn all() -> (r: Self)
        ensures
            r.bits() == 0xFFFF,
            r == Self::of_bits(0xFFFF),
    {
        Self { inner: 0xFFFF }
    }

    /// The union of this mask and `bit`.
    pub fn combine(self, bit: IrqMaskBit) -> (r: Self)
        ensures
            r.bits() == self.bits() | bit.mask(),
            r == Self::of_bits(self.bits() | bit.mask()),
    {
        let inner = self.inner | u16::from(bit);
        Self { inner }
    }
}

impl From<IrqMask> for u16 {
    fn from(val: IrqMask) -> (r: u16)
        ensures
            r == val.bits(),
    {
        val.inner
    }
}

impl FromSpecImpl<IrqMask> for u16 {
    open spec fn obeys_from_spec() -> bool {
        true
    }

    open spec fn from_spec(v: IrqMask) -> u16 {
        v.bits()
    }
}

impl From<u16> for IrqMask {
    fn from(val: u16) -> (r: IrqMask)
        ensures
            r == IrqMask::of_bits(val),
            r.bits() == val,
    {
        Self { inner: val }
    }
}

impl FromSpecImpl<u16> for IrqMask {
    open spec fn obeys_from_spec() -> bool {
        true
    }

    open spec fn from_spec(v: u16) -> IrqMask {
        IrqMask::of_bits(v)
    }
}

impl Default for IrqMask {
    /// The mask of no source.
    fn default() -> (r: IrqMask)
        ensures
            r.bits() == 0x0000,
    {
        Self::none()
    }
}

/// A mask is its bits and nothing more. Union with a source keeps what the
/// mask held and adds exactly that source: the order of two unions does not
/// matter, a second union with the same source changes nothing, the empty
/// mask gives the source alone and the full mask stays full.
pub proof fn lemma_irq_mask_union(bits: u16, a: IrqMaskBit, b: IrqMaskBit)
    ensures
        IrqMask::of_bits(bits).bits() == bits,
        (bits | a.mask()) | b.mask() == (bits | b.mask()) | a.mask(),
        (bits | a.mask()) | a.mask() == bits | a.mask(),
        (bits | a.mask()) & bits == bits,
        (bits | a.mask()) & a.mask() == a.mask(),
        0x0000u16 | a.mask() == a.mask(),
        0xFFFFu16 | a.mask() == 0xFFFF,
{
    let x = a.mask();
    let y = b.mask();
    assert((bits | x) | y == (bits | y) | x) by (bit_vector);
    assert((bits | x) | x == bits | x) by (bit_vector);
    assert((bits | x) & bits == bits) by (bit_vector);
    assert((bits | x) & x == x) by (bit_vector);
    assert(0x0000u16 | x == x) by (bit_vector);
    assert(0xFFFFu16 | x == 0xFFFF) by (bit_vector);
}

/// The interrupt flags read from the chip.
#[derive(Copy, Clone, Debug, PartialEq, Eq, Structural)]
pub struct IrqStatus {
    inner: u16,
}

impl IrqStatus {
    /// The flags as the chip sent them.
    pub closed spec fn bits(self) -> u16 {
        self.inner
    }

    /// The status with the given flags.
    pub closed spec fn of_bits(bits: u16) -> IrqStatus {
        IrqStatus { inner: bits }
    }

    /// Whether the flag of `source` is raised.
    pub open spec fn raised(self, source: IrqMaskBit) -> bool {
        self.bits() & source.mask() != 0
    }

    pub fn tx_done(self) -> (r: bool)
        ensures
            r == self.raised(IrqMaskBit::TxDone),
    {
        (self.inner & 0x0001) != 0
    }

    pub fn rx_done(self) -> (r: bool)
        ensures
            r == self.raised(IrqMaskBit::RxDone),
    {
        (self.inner & 0x0002) != 0
    }

    pub fn preamble_detected(self) -> (r: bool)
        ensures
            r == self.raised(IrqMaskBit::PreambleDetected),
    {
        (self.inner & 0x0004) != 0
    }

    pub fn syncword_valid(self) -> (r: bool)
        ensures
            r == self.raised(IrqMaskBit::SyncwordValid),
    {
        (self.inner & 0x0008) != 0
    }

    pub fn header_valid(self) -> (r: bool)
        ensures
            r == self.raised(IrqMaskBit::HeaderValid),
    {
        (self.inner & 0x0010) != 0
    }

    pub fn header_error(self) -> (r: bool)
        ensures
            r == self.raised(IrqMaskBit::HeaderError),
    {
        (self.inner & 0x0020) != 0
    }

    pub fn crc_err(self) -> (r: bool)
        ensures
            r == self.raised(IrqMaskBit::CrcErr),
    {
        (self.inner & 0x0040) != 0
    }

    pub fn cad_done(self) -> (r: bool)
        ensures
            r == self.raised(IrqMaskBit::CadDone),
    {
        (self.inner & 0x0080) != 0
    }

    pub fn cad_detected(self) -> (r: bool)
        ensures
            r == self.raised(IrqMaskBit::CadDetected),
    {
        (self.inner & 0x0100) != 0
    }

    pub fn timeout(self) -> (r: bool)
        ensures
            r == self.raised(IrqMaskBit::Timeout),
    {
        (self.inner & 0x0200) != 0
    }
}

/// The flags of a status are the flags it was made from.
pub proof fn lemma_irq_status_bits(bits: u16)
    ensures
        IrqStatus::of_bits(bits).bits() == bits,
{
}

impl From<u16> for IrqStatus {
    fn from(val: u16) -> (r: IrqStatus)
        ensures
            r == IrqStatus::of_bits(val),
            r.bits() == val,
    {
        Self { inner: val }
    }
}

impl FromSpecImpl<u16> for IrqStatus {
    open spec fn obeys_from_spec() -> bool {
        true
    }

    open spec fn from_spec(v: u16) -> IrqStatus {
        IrqStatus::of_bits(v)
    }
}

} // verus!
