//! Packet type and packet parameters.

use crate::bytes::{u16_from_bytes, u16_to_be_bytes, word};
use crate::sx::err::DecodeError;
use vstd::prelude::*;
use vstd::std_specs::convert::FromSpecImpl;
use vstd::std_specs::convert::TryFromSpecImpl;

verus! {

/// The packet protocol of the modem.
///
/// GFSK is named here but not otherwise supported.
#[derive(Copy, Clone, Debug, PartialEq, Eq, Structural)]
pub enum PacketType {
    GFSK,
    LoRa,
}

impl PacketType {
    /// The byte that stands for this packet type on the wire.
    pub open spec fn code(self) -> u8 {
        match self {
            PacketType::GFSK => 0x00,
            PacketType::LoRa => 0x01,
        }
    }

    /// What decoding `v` gives: the packet type it stands for, or the error
    /// that reports it.
    pub open spec fn decode(v: u8) -> Result<PacketType, DecodeError> {
        if v == 0x00 {
            Ok(PacketType::GFSK)
        } else if v == 0x01 {
            Ok(PacketType::LoRa)
        } else {
            Err(DecodeError::PacketType(v))
        }
    }
}

impl From<PacketType> for u8 {
    fn from(val: PacketType) -> (r: u8)
        ensures
            r == val.code(),
    {
        match val {
            PacketType::GFSK => 0x00,
            PacketType::LoRa => 0x01,
        }
    }
}

impl FromSpecImpl<PacketType> for u8 {
    open spec fn obeys_from_spec() -> bool {
        true
    }

    open spec fn from_spec(v: PacketType) -> u8 {
        v.code()
    }
}

impl TryFrom<u8> for PacketType {
    type Error = DecodeError;

    /// Decodes a packet type. A byte that stands for none is an error, never
    /// a default.
    fn try_from(value: u8) -> (r: Result<PacketType, DecodeError>)
        ensures
            r == PacketType::decode(value),
    {
        match value {
            0x00 => Ok(PacketType::GFSK),
            0x01 => Ok(PacketType::LoRa),
            _ => Err(DecodeError::PacketType(value)),
        }
    }
}

impl TryFromSpecImpl<u8> for PacketType {
    open spec fn obeys_try_from_spec() -> bool {
        true
    }

    open spec fn try_from_spec(v: u8) -> Result<PacketType, DecodeError> {
        PacketType::decode(v)
    }
}

/// Decoding the byte of a packet type gives that packet type back. A byte
/// decodes exactly when it is the byte of some packet type, and then to the
/// one it stands for; any other byte is reported as it is.
pub proof fn lemma_packet_type_round_trip(value: PacketType, byte: u8)
    ensures
        PacketType::decode(value.code()) == Ok::<PacketType, DecodeError>(value),
        PacketType::decode(byte) is Ok <==> exists|v: PacketType| v.code() == byte,
        PacketType::decode(byte) matches Ok(v) ==> v.code() == byte,
        PacketType::decode(byte) matches Err(e) ==> e == DecodeError::PacketType(byte),
{
    if byte == 0x00 {
        assert(PacketType::GFSK.code() == byte);
    } else if byte == 0x01 {
        assert(PacketType::LoRa.code() == byte);
    }
}

/// The 9-byte parameter block of `SetPacketParams`.
///
/// A block always holds the encoding of LoRa packet parameters: preamble
/// length (most significant byte first), header type, payload length, CRC
/// type, IQ setup and three zero bytes.
#[derive(Copy, Clone, Debug, PartialEq, Eq)]
pub struct PacketParams {
    inner: [u8; 9],
}

/// The nine bytes that stand for `params` on the wire.
pub open spec fn lora_packet_params_bytes(params: LoRaPacketParams) -> Seq<u8> {
    seq![
        (params.preamble_len / 0x100) as u8,
        (params.preamble_len % 0x100) as u8,
        params.header_type.code(),
        params.payload_len,
        params.crc_type.code(),
        params.invert_iq.code(),
        0u8,
        0u8,
        0u8,
    ]
}

impl View for PacketParams {
    type V = LoRaPacketParams;

    /// The parameters that the block's bytes are read as.
    closed spec fn view(&self) -> LoRaPacketParams {
        LoRaPacketParams {
            preamble_len: word(self.inner[0], self.inner[1]),
            header_type: LoRaHeaderType::of_code(self.inner[2]),
            payload_len: self.inner[3],
            crc_type: LoRaCrcType::of_code(self.inner[4]),
            invert_iq: LoRaInvertIq::of_code(self.inner[5]),
        }
    }
}

impl PacketParams {
    /// The block as the chip receives it.
    pub closed spec fn bytes(&self) -> Seq<u8> {
        self.inner@
    }

    /// The block that holds the encoding of `params`.
    pub closed spec fn encode(params: LoRaPacketParams) -> PacketParams {
        PacketParams {
            inner: [
                (params.preamble_len / 0x100) as u8,
                (params.preamble_len % 0x100) as u8,
                params.header_type.code(),
                params.payload_len,
                params.crc_type.code(),
                params.invert_iq.code(),
                0u8,
                0u8,
                0u8,
            ],
        }
    }

    /// The bytes are the encoding of the parameters they are read as.
    #[verifier::type_invariant]
    pub closed spec fn wf(&self) -> bool {
        self.inner@ == lora_packet_params_bytes(self@)
    }

    /// Reads the parameters back from the block.
    pub fn get_lora_params(&self) -> (r: LoRaPacketParams)
        ensures
            r == self@,
    {
        proof {
            use_type_invariant(self);
        }
        assert(self.inner@[2] == self@.header_type.code());
        assert(self.inner@[4] == self@.crc_type.code());
        assert(self.inner@[5] == self@.invert_iq.code());
        LoRaPacketParams {
            preamble_len: u16_from_bytes(self.inner[0], self.inner[1]),
            header_type: match self.inner[2] {
                0x00 => LoRaHeaderType::VarLen,
                0x01 => LoRaHeaderType::FixedLen,
                _ => unreached(),
            },
            payload_len: self.inner[3],
            crc_type: match self.inner[4] {
                0x00 => LoRaCrcType::CrcOff,
                0x01 => LoRaCrcType::CrcOn,
                _ => unreached(),
            },
            invert_iq: match self.inner[5] {
                0x00 => LoRaInvertIq::Standard,
                0x01 => LoRaInvertIq::Inverted,
                _ => unreached(),
            },
        }
    }
}

impl From<PacketParams> for [u8; 9] {
    fn from(val: PacketParams) -> (r: [u8; 9])
        ensures
            r@ == val.bytes(),
    {
        val.inner
    }
}

impl FromSpecImpl<PacketParams> for [u8; 9] {
    open spec fn obeys_from_spec() -> bool {
        true
    }

    closed spec fn from_spec(v: PacketParams) -> [u8; 9] {
        v.inner
    }
}

impl From<&PacketParams> for [u8; 9] {
    fn from(val: &PacketParams) -> (r: [u8; 9])
        ensures
            r@ == val.bytes(),
    {
        val.inner
    }
}

impl FromSpecImpl<&PacketParams> for [u8; 9] {
    open spec fn obeys_from_spec() -> bool {
        true
    }

    closed spec fn from_spec(v: &PacketParams) -> [u8; 9] {
        v.inner
    }
}

/// Whether a LoRa packet carries an explicit header.
#[derive(Copy, Clone, Debug, PartialEq, Eq, Structural)]
pub enum LoRaHeaderType {
    /// Variable length packet (explicit header)
    VarLen,
    /// Fixed length packet (implicit header)
    FixedLen,
}

impl LoRaHeaderType {
    /// The byte that stands for this header type on the wire.
    pub open spec fn code(self) -> u8 {
        match self {
            LoRaHeaderType::VarLen => 0x00,
            LoRaHeaderType::FixedLen => 0x01,
        }
    }

    /// The header type whose byte is `byte`.
    pub open spec fn of_code(byte: u8) -> LoRaHeaderType {
        if byte == 0x01 {
            LoRaHeaderType::FixedLen
        } else {
            LoRaHeaderType::VarLen
        }
    }
}

impl From<LoRaHeaderType> for u8 {
    fn from(val: LoRaHeaderType) -> (r: u8)
        ensures
            r == val.code(),
    {
        match val {
            LoRaHeaderType::VarLen => 0x00,
            LoRaHeaderType::FixedLen => 0x01,
        }
    }
}

impl FromSpecImpl<LoRaHeaderType> for u8 {
    open spec fn obeys_from_spec() -> bool {
        true
    }

    open spec fn from_spec(v: LoRaHeaderType) -> u8 {
        v.code()
    }
}

/// Whether a LoRa packet carries a CRC.
#[derive(Copy, Clone, Debug, PartialEq, Eq, Structural)]
pub enum LoRaCrcType {
    /// CRC off
    CrcOff,
    /// CRC on
    CrcOn,
}

impl LoRaCrcType {
    /// The byte that stands for this CRC type on the wire.
    pub open spec fn code(self) -> u8 {
        match self {
            LoRaCrcType::CrcOff => 0x00,
            LoRaCrcType::CrcOn => 0x01,
        }
    }

    /// The CRC type whose byte is `byte`.
    pub open spec fn of_code(byte: u8) -> LoRaCrcType {
        if byte == 0x01 {
            LoRaCrcType::CrcOn
        } else {
            LoRaCrcType::CrcOff
        }
    }
}

impl From<LoRaCrcType> for u8 {
    fn from(val: LoRaCrcType) -> (r: u8)
        ensures
            r == val.code(),
    {
        match val {
            LoRaCrcType::CrcOff => 0x00,
            LoRaCrcType::CrcOn => 0x01,
        }
    }
}

impl FromSpecImpl<LoRaCrcType> for u8 {
    open spec fn obeys_from_spec() -> bool {
        true
    }

    open spec fn from_spec(v: LoRaCrcType) -> u8 {
        v.code()
    }
}

/// CRC configuration; only used in FSK mode.
#[derive(Copy, Clone, Debug, PartialEq, Eq, Structural)]
pub enum LoRaCrcTypeConfig {
    /// No CRC
    CrcOff,
    /// CRC computed on 1 byte
    Crc1Byte,
    /// CRC computed on 2 bytes
    Crc2Bytes,
    /// CRC computed on 1 byte, inverted
    Crc1ByteInv,
    /// CRC computed on 2 bytes, inverted
    Crc2BytesInv,
}

impl LoRaCrcTypeConfig {
    /// The byte that stands for this configuration on the wire.
    pub open spec fn code(self) -> u8 {
        match self {
            LoRaCrcTypeConfig::CrcOff => 0x01,
            LoRaCrcTypeConfig::Crc1Byte => 0x00,
            LoRaCrcTypeConfig::Crc2Bytes => 0x02,
            LoRaCrcTypeConfig::Crc1ByteInv => 0x04,
            LoRaCrcTypeConfig::Crc2BytesInv => 0x06,
        }
    }
}

impl From<LoRaCrcTypeConfig> for u8 {
    fn from(val: LoRaCrcTypeConfig) -> (r: u8)
        ensures
            r == val.code(),
    {
        match val {
            LoRaCrcTypeConfig::CrcOff => 0x01,
            LoRaCrcTypeConfig::Crc1Byte => 0x00,
            LoRaCrcTypeConfig::Crc2Bytes => 0x02,
            LoRaCrcTypeConfig::Crc1ByteInv => 0x04,
            LoRaCrcTypeConfig::Crc2BytesInv => 0x06,
        }
    }
}

impl FromSpecImpl<LoRaCrcTypeConfig> for u8 {
    open spec fn obeys_from_spec() -> bool {
        true
    }

    open spec fn from_spec(v: LoRaCrcTypeConfig) -> u8 {
        v.code()
    }
}

/// IQ setup of a LoRa packet. It marks a message as uplink (standard) or
/// downlink (inverted).
#[derive(Copy, Clone, Debug, PartialEq, Eq, Structural)]
pub enum LoRaInvertIq {
    /// Standard IQ setup
    Standard,
    /// Inverted IQ setup
    Inverted,
}

impl LoRaInvertIq {
    /// The byte that stands for this IQ setup on the wire.
    pub open spec fn code(self) -> u8 {
        match self {
            LoRaInvertIq::Standard => 0x00,
            LoRaInvertIq::Inverted => 0x01,
        }
    }

    /// The IQ setup whose byte is `byte`.
    pub open spec fn of_code(byte: u8) -> LoRaInvertIq {
        if byte == 0x01 {
            LoRaInvertIq::Inverted
        } else {
            LoRaInvertIq::Standard
        }
    }
}

impl From<LoRaInvertIq> for u8 {
    fn from(val: LoRaInvertIq) -> (r: u8)
        ensures
            r == val.code(),
    {
        match val {
            LoRaInvertIq::Standard => 0x00,
            LoRaInvertIq::Inverted => 0x01,
        }
    }
}

impl FromSpecImpl<LoRaInvertIq> for u8 {
    open spec fn obeys_from_spec() -> bool {
        true
    }

    open spec fn from_spec(v: LoRaInvertIq) -> u8 {
        v.code()
    }
}

/// LoRa packet parameters.
#[derive(Copy, Clone, Debug, PartialEq, Eq, Structural)]
pub struct LoRaPacketParams {
    /// Preamble length: the number of LoRa symbols sent as preamble, from
    /// 1 to 65535.
    pub preamble_len: u16,
    /// Header type. With a variable length header the payload length, the
    /// coding rate and the header CRC travel in the LoRa header.
    pub header_type: LoRaHeaderType,
    /// Size of the payload to transmit in bytes, or the largest payload that
    /// the receiver accepts.
    pub payload_len: u8,
    /// CRC type
    pub crc_type: LoRaCrcType,
    /// IQ setup
    pub invert_iq: LoRaInvertIq,
}

/// Eight preamble symbols, variable length, empty payload, no CRC, standard
/// IQ.
pub open spec fn default_lora_packet_params() -> LoRaPacketParams {
    LoRaPacketParams {
        preamble_len: 0x0008,
        header_type: LoRaHeaderType::VarLen,
        payload_len: 0x00,
        crc_type: LoRaCrcType::CrcOff,
        invert_iq: LoRaInvertIq::Standard,
    }
}

impl From<LoRaPacketParams> for PacketParams {
    /// Encodes the parameters. Reading the block back gives the same
    /// parameters.
    fn from(val: LoRaPacketParams) -> (r: PacketParams)
        ensures
            r@ == val,
            r.bytes() == lora_packet_params_bytes(val),
    {
        let preamble_len = u16_to_be_bytes(val.preamble_len);
        let r = PacketParams {
            inner: [
                preamble_len[0],
                preamble_len[1],
                u8::from(val.header_type),
                val.payload_len,
                u8::from(val.crc_type),
                u8::from(val.invert_iq),
                0x00,
                0x00,
                0x00,
            ],
        };
        proof {
            lemma_packet_params_round_trip(val);
            assert(r.inner@ =~= lora_packet_params_bytes(val));
        }
        r
    }
}

impl FromSpecImpl<LoRaPacketParams> for PacketParams {
    open spec fn obeys_from_spec() -> bool {
        true
    }

    open spec fn from_spec(v: LoRaPacketParams) -> PacketParams {
        PacketParams::encode(v)
    }
}

impl From<&LoRaPacketParams> for PacketParams {
    fn from(val: &LoRaPacketParams) -> (r: PacketParams)
        ensures
            r@ == *val,
            r.bytes() == lora_packet_params_bytes(*val),
    {
        PacketParams::from(*val)
    }
}

impl FromSpecImpl<&LoRaPacketParams> for PacketParams {
    open spec fn obeys_from_spec() -> bool {
        true
    }

    open spec fn from_spec(v: &LoRaPacketParams) -> PacketParams {
        PacketParams::encode(*v)
    }
}

impl Default for LoRaPacketParams {
    fn default() -> (r: LoRaPacketParams)
        ensures
            r == default_lora_packet_params(),
    {
        LoRaPacketParams {
            preamble_len: 0x0008,
            header_type: LoRaHeaderType::VarLen,
            payload_len: 0x00,
            crc_type: LoRaCrcType::CrcOff,
            invert_iq: LoRaInvertIq::Standard,
        }
    }
}

impl LoRaPacketParams {
    /// Valid from 0x0001 to 0xFFFF
    pub fn set_preamble_len(self, preamble_len: u16) -> (r: Self)
        ensures
            r == (LoRaPacketParams { preamble_len, ..self }),
    {
        LoRaPacketParams { preamble_len, ..self }
    }

    pub fn set_header_type(self, header_type: LoRaHeaderType) -> (r: Self)
        ensures
            r == (LoRaPacketParams { header_type, ..self }),
    {
        LoRaPacketParams { header_type, ..self }
    }

    pub fn set_payload_len(self, payload_len: u8) -> (r: Self)
        ensures
            r == (LoRaPacketParams { payload_len, ..self }),
    {
        LoRaPacketParams { payload_len, ..self }
    }

    pub fn set_crc_type(self, crc_type: LoRaCrcType) -> (r: Self)
        ensures
            r == (LoRaPacketParams { crc_type, ..self }),
    {
        LoRaPacketParams { crc_type, ..self }
    }

    pub fn set_invert_iq(self, invert_iq: LoRaInvertIq) -> (r: Self)
        ensures
            r == (LoRaPacketParams { invert_iq, ..self }),
    {
        LoRaPacketParams { invert_iq, ..self }
    }
}

impl Default for PacketParams {
    /// The block of the default LoRa packet parameters.
    fn default() -> (r: PacketParams)
        ensures
            r@ == default_lora_packet_params(),
            r.bytes() == lora_packet_params_bytes(default_lora_packet_params()),
    {
        PacketParams::from(LoRaPacketParams::default())
    }
}

/// A block holds the nine bytes that stand for the parameters it is read
/// as.
pub proof fn lemma_packet_params_bytes(block: PacketParams)
    requires
        block.wf(),
    ensures
        block.bytes() == lora_packet_params_bytes(block@),
        block == PacketParams::encode(block@),
{
    assert(block.inner =~= PacketParams::encode(block@).inner);
}

/// Encoding packet parameters and reading the block back gives the same
/// preamble length, header type, payload length, CRC type and IQ setup, and
/// the block holds the nine bytes that stand for them.
pub proof fn lemma_packet_params_round_trip(params: LoRaPacketParams)
    ensures
        PacketParams::encode(params)@ == params,
        PacketParams::encode(params).bytes() == lora_packet_params_bytes(params),
        PacketParams::encode(params).wf(),
{
    assert(PacketParams::encode(params).inner@ =~= lora_packet_params_bytes(params));
}

} // verus!
