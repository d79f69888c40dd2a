//! Modulation parameters.

use crate::sx::err::DecodeError;
use vstd::prelude::*;
use vstd::std_specs::convert::FromSpecImpl;
use vstd::std_specs::convert::TryFromSpecImpl;

verus! {

/// The 8-byte parameter block of `SetModulationParams`.
///
/// A block always holds the encoding of LoRa parameters: spreading factor,
/// bandwidth, coding rate, the low data rate flag and four zero bytes.
#[derive(Copy, Clone, Debug, PartialEq, Eq)]
pub struct ModParams {
    inner: [u8; 8],
}

/// The eight bytes that stand for `params` on the wire.
pub open spec fn lora_mod_params_bytes(params: LoraModParams) -> Seq<u8> {
    seq![
        params.spread_factor.code(),
        params.bandwidth.code(),
        params.coding_rate.code(),
        if params.low_data_rate_optimize { 1u8 } else { 0u8 },
        0u8,
        0u8,
        0u8,
        0u8,
    ]
}

impl View for ModParams {
    type V = LoraModParams;

    /// The parameters that the block's bytes are read as.
    closed spec fn view(&self) -> LoraModParams {
        LoraModParams {
            spread_factor: LoRaSpreadFactor::of_code(self.inner[0]),
            bandwidth: LoRaBandWidth::of_code(self.inner[1]),
            coding_rate: LoraCodingRate::of_code(self.inner[2]),
            low_data_rate_optimize: self.inner[3] != 0,
        }
    }
}

impl ModParams {
    /// The block as the chip receives it.
    pub closed spec fn bytes(&self) -> Seq<u8> {
        self.inner@
    }

    /// The block that holds the encoding of `params`.
    pub closed spec fn encode(params: LoraModParams) -> ModParams {
        ModParams {
            inner: [
                params.spread_factor.code(),
                params.bandwidth.code(),
                params.coding_rate.code(),
                if params.low_data_rate_optimize { 1u8 } else { 0u8 },
                0u8,
                0u8,
                0u8,
                0u8,
            ],
        }
    }

    /// The bytes are the encoding of the parameters they are read as.
    #[verifier::type_invariant]
    pub closed spec fn wf(&self) -> bool {
        self.inner@ == lora_mod_params_bytes(self@)
    }

    /// The spreading factor held. It is always a valid one: the block was
    /// made from typed parameters.
    pub fn get_spread_factor(&self) -> (r: LoRaSpreadFactor)
        ensures
            r == self@.spread_factor,
    {
        proof {
            use_type_invariant(self);
            lemma_spread_factor_round_trip(self@.spread_factor, self.inner@[0]);
        }
        match LoRaSpreadFactor::try_from(self.inner[0]) {
            Ok(sf) => sf,
            Err(_) => unreached(),
        }
    }

    /// The bandwidth held.
    pub fn get_bandwidth(&self) -> (r: LoRaBandWidth)
        ensures
            r == self@.bandwidth,
    {
        proof {
            use_type_invariant(self);
            lemma_bandwidth_round_trip(self@.bandwidth, self.inner@[1]);
        }
        match LoRaBandWidth::try_from(self.inner[1]) {
            Ok(bw) => bw,
            Err(_) => unreached(),
        }
    }

    /// The coding rate held.
    pub fn get_coding_rate(&self) -> (r: LoraCodingRate)
        ensures
            r == self@.coding_rate,
    {
        proof {
            use_type_invariant(self);
            lemma_coding_rate_round_trip(self@.coding_rate, self.inner@[2]);
        }
        match LoraCodingRate::try_from(self.inner[2]) {
            Ok(cr) => cr,
            Err(_) => unreached(),
        }
    }

    /// Whether the low data rate optimisation is on.
    pub fn get_low_dr_opt(&self) -> (r: bool)
        ensures
            r == self@.low_data_rate_optimize,
    {
        self.inner[3] != 0
    }
}

impl From<ModParams> for [u8; 8] {
    fn from(val: ModParams) -> (r: [u8; 8])
        ensures
            r@ == val.bytes(),
    {
        val.inner
    }
}

impl FromSpecImpl<ModParams> for [u8; 8] {
    open spec fn obeys_from_spec() -> bool {
        true
    }

    closed spec fn from_spec(v: ModParams) -> [u8; 8] {
        v.inner
    }
}

impl From<&ModParams> for [u8; 8] {
    fn from(val: &ModParams) -> (r: [u8; 8])
        ensures
            r@ == val.bytes(),
    {
        val.inner
    }
}

impl FromSpecImpl<&ModParams> for [u8; 8] {
    open spec fn obeys_from_spec() -> bool {
        true
    }

    closed spec fn from_spec(v: &ModParams) -> [u8; 8] {
        v.inner
    }
}

impl Default for ModParams {
    /// The block of the default LoRa parameters.
    fn default() -> (r: ModParams)
        ensures
            r@ == default_lora_mod_params(),
            r.bytes() == lora_mod_params_bytes(default_lora_mod_params()),
    {
        ModParams::from(LoraModParams::default())
    }
}

/// LoRa spreading factor.
#[derive(Copy, Clone, Debug, PartialEq, Eq, Structural)]
pub enum LoRaSpreadFactor {
    SF5,
    SF6,
    SF7,
    SF8,
    SF9,
    SF10,
    SF11,
    SF12,
}

impl LoRaSpreadFactor {
    /// The byte that stands for this spreading factor on the wire.
    pub open spec fn code(self) -> u8 {
        match self {
            LoRaSpreadFactor::SF5 => 0x05,
            LoRaSpreadFactor::SF6 => 0x06,
            LoRaSpreadFactor::SF7 => 0x07,
            LoRaSpreadFactor::SF8 => 0x08,
            LoRaSpreadFactor::SF9 => 0x09,
            LoRaSpreadFactor::SF10 => 0x0A,
            LoRaSpreadFactor::SF11 => 0x0B,
            LoRaSpreadFactor::SF12 => 0x0C,
        }
    }

    /// What decoding `v` gives: the spreading factor it stands for, or the error that
    /// reports it.
    pub open spec fn decode(v: u8) -> Result<LoRaSpreadFactor, DecodeError> {
        if v == 0x05 {
            Ok(LoRaSpreadFactor::SF5)
        } else if v == 0x06 {
            Ok(LoRaSpreadFactor::SF6)
        } else if v == 0x07 {
            Ok(LoRaSpreadFactor::SF7)
        } else if v == 0x08 {
            Ok(LoRaSpreadFactor::SF8)
        } else if v == 0x09 {
            Ok(LoRaSpreadFactor::SF9)
        } else if v == 0x0A {
            Ok(LoRaSpreadFactor::SF10)
        } else if v == 0x0B {
            Ok(LoRaSpreadFactor::SF11)
        } else if v == 0x0C {
            Ok(LoRaSpreadFactor::SF12)
        } else {
            Err(DecodeError::SpreadFactor(v))
        }
    }

    /// The spreading factor that `byte` stands for; meaningful only where
    /// decoding `byte` succeeds.
    pub open spec fn of_code(byte: u8) -> LoRaSpreadFactor {
        match LoRaSpreadFactor::decode(byte) {
            Ok(sf) => sf,
            Err(_) => LoRaSpreadFactor::SF5,
        }
    }
}

impl From<LoRaSpreadFactor> for u8 {
    fn from(val: LoRaSpreadFactor) -> (r: u8)
        ensures
            r == val.code(),
    {
        match val {
            LoRaSpreadFactor::SF5 => 0x05,
            LoRaSpreadFactor::SF6 => 0x06,
            LoRaSpreadFactor::SF7 => 0x07,
            LoRaSpreadFactor::SF8 => 0x08,
            LoRaSpreadFactor::SF9 => 0x09,
            LoRaSpreadFactor::SF10 => 0x0A,
            LoRaSpreadFactor::SF11 => 0x0B,
            LoRaSpreadFactor::SF12 => 0x0C,
        }
    }
}

impl FromSpecImpl<LoRaSpreadFactor> for u8 {
    open spec fn obeys_from_spec() -> bool {
        true
    }

    open spec fn from_spec(v: LoRaSpreadFactor) -> u8 {
        v.code()
    }
}

impl TryFrom<u8> for LoRaSpreadFactor {
    type Error = DecodeError;

    /// Decodes a spreading factor. A byte that stands for none is an error,
    /// never a default.
    fn try_from(value: u8) -> (r: Result<LoRaSpreadFactor, DecodeError>)
        ensures
            r == LoRaSpreadFactor::decode(value),
    {
        match value {
            0x05 => Ok(LoRaSpreadFactor::SF5),
            0x06 => Ok(LoRaSpreadFactor::SF6),
            0x07 => Ok(LoRaSpreadFactor::SF7),
            0x08 => Ok(LoRaSpreadFactor::SF8),
            0x09 => Ok(LoRaSpreadFactor::SF9),
            0x0A => Ok(LoRaSpreadFactor::SF10),
            0x0B => Ok(LoRaSpreadFactor::SF11),
            0x0C => Ok(LoRaSpreadFactor::SF12),
            _ => Err(DecodeError::SpreadFactor(value)),
        }
    }
}

impl TryFromSpecImpl<u8> for LoRaSpreadFactor {
    open spec fn obeys_try_from_spec() -> bool {
        true
    }

    open spec fn try_from_spec(v: u8) -> Result<LoRaSpreadFactor, DecodeError> {
        LoRaSpreadFactor::decode(v)
    }
}

/// Decoding the byte of a spreading factor gives that spreading factor back.
/// A byte decodes exactly when it is the byte of some spreading factor, and
/// then to the one it stands for; any other byte is reported as it is.
pub proof fn lemma_spread_factor_round_trip(value: LoRaSpreadFactor, byte: u8)
    ensures
        LoRaSpreadFactor::decode(value.code()) == Ok::<
            LoRaSpreadFactor,
            DecodeError,
        >(value),
        LoRaSpreadFactor::of_code(value.code()) == value,
        LoRaSpreadFactor::decode(byte) is Ok <==> exists|
            v: LoRaSpreadFactor,
        | v.code() == byte,
        LoRaSpreadFactor::decode(byte) matches Ok(v) ==> v.code()
            == byte,
        LoRaSpreadFactor::decode(byte) matches Err(e) ==> e
            == DecodeError::SpreadFactor(byte),
{
    if LoRaSpreadFactor::decode(byte) is Ok {
        assert(LoRaSpreadFactor::of_code(byte).code() == byte);
    }
}

/// LoRa bandwidth. The codes are not contiguous.
#[derive(Copy, Clone, Debug, PartialEq, Eq, Structural)]
pub enum LoRaBandWidth {
    /// 7.81 kHz
    BW7,
    /// 10.42 kHz
    BW10,
    /// 15.63 kHz
    BW15,
    /// 20.83 kHz
    BW20,
    /// 31.25 kHz
    BW31,
    /// 41.67 kHz
    BW41,
    /// 62.50 kHz
    BW62,
    /// 125 kHz
    BW125,
    /// 250 kHz
    BW250,
    /// 500 kHz
    BW500,
}

impl LoRaBandWidth {
    /// The byte that stands for this bandwidth on the wire.
    pub open spec fn code(self) -> u8 {
        match self {
            LoRaBandWidth::BW7 => 0x00,
            LoRaBandWidth::BW10 => 0x08,
            LoRaBandWidth::BW15 => 0x01,
            LoRaBandWidth::BW20 => 0x09,
            LoRaBandWidth::BW31 => 0x02,
            LoRaBandWidth::BW41 => 0x0A,
            LoRaBandWidth::BW62 => 0x03,
            LoRaBandWidth::BW125 => 0x04,
            LoRaBandWidth::BW250 => 0x05,
            LoRaBandWidth::BW500 => 0x06,
        }
    }

    /// What decoding `v` gives: the bandwidth it stands for, or the error that
    /// reports it.
    pub open spec fn decode(v: u8) -> Result<LoRaBandWidth, DecodeError> {
        if v == 0x00 {
            Ok(LoRaBandWidth::BW7)
        } else if v == 0x08 {
            Ok(LoRaBandWidth::BW10)
        } else if v == 0x01 {
            Ok(LoRaBandWidth::BW15)
        } else if v == 0x09 {
            Ok(LoRaBandWidth::BW20)
        } else if v == 0x02 {
            Ok(LoRaBandWidth::BW31)
        } else if v == 0x0A {
            Ok(LoRaBandWidth::BW41)
        } else if v == 0x03 {
            Ok(LoRaBandWidth::BW62)
        } else if v == 0x04 {
            Ok(LoRaBandWidth::BW125)
        } else if v == 0x05 {
            Ok(LoRaBandWidth::BW250)
        } else if v == 0x06 {
            Ok(LoRaBandWidth::BW500)
        } else {
            Err(DecodeError::BandWidth(v))
        }
    }

    /// The bandwidth that `byte` stands for; meaningful only where decoding
    /// `byte` succeeds.
    pub open spec fn of_code(byte: u8) -> LoRaBandWidth {
        match LoRaBandWidth::decode(byte) {
            Ok(bw) => bw,
            Err(_) => LoRaBandWidth::BW7,
        }
    }

    /// The bandwidth in Hz.
    pub open spec fn hz(self) -> u32 {
        match self {
            LoRaBandWidth::BW7 => 7_810,
            LoRaBandWidth::BW10 => 10_420,
            LoRaBandWidth::BW15 => 15_630,
            LoRaBandWidth::BW20 => 20_830,
            LoRaBandWidth::BW31 => 31_250,
            LoRaBandWidth::BW41 => 41_670,
            LoRaBandWidth::BW62 => 62_500,
            LoRaBandWidth::BW125 => 125_000,
            LoRaBandWidth::BW250 => 250_000,
            LoRaBandWidth::BW500 => 500_000,
        }
    }

    /// The bandwidth in Hz, as the data sheet rounds it.
    pub fn to_hz(&self) -> (r: u32)
        ensures
            r == self.hz(),
    {
        match self {
            LoRaBandWidth::BW7 => 7_810,
            LoRaBandWidth::BW10 => 10_420,
            LoRaBandWidth::BW15 => 15_630,
            LoRaBandWidth::BW20 => 20_830,
            LoRaBandWidth::BW31 => 31_250,
            LoRaBandWidth::BW41 => 41_670,
            LoRaBandWidth::BW62 => 62_500,
            LoRaBandWidth::BW125 => 125_000,
            LoRaBandWidth::BW250 => 250_000,
            LoRaBandWidth::BW500 => 500_000,
        }
    }
}

impl From<LoRaBandWidth> for u8 {
    fn from(val: LoRaBandWidth) -> (r: u8)
        ensures
            r == val.code(),
    {
        match val {
            LoRaBandWidth::BW7 => 0x00,
            LoRaBandWidth::BW10 => 0x08,
            LoRaBandWidth::BW15 => 0x01,
            LoRaBandWidth::BW20 => 0x09,
            LoRaBandWidth::BW31 => 0x02,
            LoRaBandWidth::BW41 => 0x0A,
            LoRaBandWidth::BW62 => 0x03,
            LoRaBandWidth::BW125 => 0x04,
            LoRaBandWidth::BW250 => 0x05,
            LoRaBandWidth::BW500 => 0x06,
        }
    }
}

impl FromSpecImpl<LoRaBandWidth> for u8 {
    open spec fn obeys_from_spec() -> bool {
        true
    }

    open spec fn from_spec(v: LoRaBandWidth) -> u8 {
        v.code()
    }
}

impl TryFrom<u8> for LoRaBandWidth {
    type Error = DecodeError;

    /// Decodes a bandwidth. A byte that stands for none is an error, never a
    /// default.
    fn try_from(value: u8) -> (r: Result<LoRaBandWidth, DecodeError>)
        ensures
            r == LoRaBandWidth::decode(value),
    {
        match value {
            0x00 => Ok(LoRaBandWidth::BW7),
            0x08 => Ok(LoRaBandWidth::BW10),
            0x01 => Ok(LoRaBandWidth::BW15),
            0x09 => Ok(LoRaBandWidth::BW20),
            0x02 => Ok(LoRaBandWidth::BW31),
            0x0A => Ok(LoRaBandWidth::BW41),
            0x03 => Ok(LoRaBandWidth::BW62),
            0x04 => Ok(LoRaBandWidth::BW125),
            0x05 => Ok(LoRaBandWidth::BW250),
            0x06 => Ok(LoRaBandWidth::BW500),
            _ => Err(DecodeError::BandWidth(value)),
        }
    }
}

impl TryFromSpecImpl<u8> for LoRaBandWidth {
    open spec fn obeys_try_from_spec() -> bool {
        true
    }

    open spec fn try_from_spec(v: u8) -> Result<LoRaBandWidth, DecodeError> {
        LoRaBandWidth::decode(v)
    }
}

/// Decoding the byte of a bandwidth gives that bandwidth back. A byte
/// decodes exactly when it is the byte of some bandwidth, and then to the
/// one it stands for; any other byte is reported as it is.
pub proof fn lemma_bandwidth_round_trip(value: LoRaBandWidth, byte: u8)
    ensures
        LoRaBandWidth::decode(value.code()) == Ok::<
            LoRaBandWidth,
            DecodeError,
        >(value),
        LoRaBandWidth::of_code(value.code()) == value,
        LoRaBandWidth::decode(byte) is Ok <==> exists|
            v: LoRaBandWidth,
        | v.code() == byte,
        LoRaBandWidth::decode(byte) matches Ok(v) ==> v.code() == byte,
        LoRaBandWidth::decode(byte) matches Err(e) ==> e
            == DecodeError::BandWidth(byte),
{
    if LoRaBandWidth::decode(byte) is Ok {
        assert(LoRaBandWidth::of_code(byte).code() == byte);
    }
}

/// LoRa coding rate.
#[allow(non_camel_case_types)]
#[derive(Copy, Clone, Debug, PartialEq, Eq, Structural)]
pub enum LoraCodingRate {
    CR4_5,
    CR4_6,
    CR4_7,
    CR4_8,
}

impl LoraCodingRate {
    /// The byte that stands for this coding rate on the wire.
    pub open spec fn code(self) -> u8 {
        match self {
            LoraCodingRate::CR4_5 => 0x01,
            LoraCodingRate::CR4_6 => 0x02,
            LoraCodingRate::CR4_7 => 0x03,
            LoraCodingRate::CR4_8 => 0x04,
        }
    }

    /// What decoding `v` gives: the coding rate it stands for, or the error that
    /// reports it.
    pub open spec fn decode(v: u8) -> Result<LoraCodingRate, DecodeError> {
        if v == 0x01 {
            Ok(LoraCodingRate::CR4_5)
        } else if v == 0x02 {
            Ok(LoraCodingRate::CR4_6)
        } else if v == 0x03 {
            Ok(LoraCodingRate::CR4_7)
        } else if v == 0x04 {
            Ok(LoraCodingRate::CR4_8)
        } else {
            Err(DecodeError::CodingRate(v))
        }
    }

    /// The coding rate that `byte` stands for; meaningful only where
    /// decoding `byte` succeeds.
    pub open spec fn of_code(byte: u8) -> LoraCodingRate {
        match LoraCodingRate::decode(byte) {
            Ok(cr) => cr,
            Err(_) => LoraCodingRate::CR4_5,
        }
    }
}

impl From<LoraCodingRate> for u8 {
    fn from(val: LoraCodingRate) -> (r: u8)
        ensures
            r == val.code(),
    {
        match val {
            LoraCodingRate::CR4_5 => 0x01,
            LoraCodingRate::CR4_6 => 0x02,
            LoraCodingRate::CR4_7 => 0x03,
            LoraCodingRate::CR4_8 => 0x04,
        }
    }
}

impl FromSpecImpl<LoraCodingRate> for u8 {
    open spec fn obeys_from_spec() -> bool {
        true
    }

    open spec fn from_spec(v: LoraCodingRate) -> u8 {
        v.code()
    }
}

impl TryFrom<u8> for LoraCodingRate {
    type Error = DecodeError;

    /// Decodes a coding rate. A byte that stands for none is an error, never
    /// a default.
    fn try_from(value: u8) -> (r: Result<LoraCodingRate, DecodeError>)
        ensures
            r == LoraCodingRate::decode(value),
    {
        match value {
            0x01 => Ok(LoraCodingRate::CR4_5),
            0x02 => Ok(LoraCodingRate::CR4_6),
            0x03 => Ok(LoraCodingRate::CR4_7),
            0x04 => Ok(LoraCodingRate::CR4_8),
            _ => Err(DecodeError::CodingRate(value)),
        }
    }
}

impl TryFromSpecImpl<u8> for LoraCodingRate {
    open spec fn obeys_try_from_spec() -> bool {
        true
    }

    open spec fn try_from_spec(v: u8) -> Result<LoraCodingRate, DecodeError> {
        LoraCodingRate::decode(v)
    }
}

/// Decoding the byte of a coding rate gives that coding rate back. A byte
/// decodes exactly when it is the byte of some coding rate, and then to the
/// one it stands for; any other byte is reported as it is.
pub proof fn lemma_coding_rate_round_trip(value: LoraCodingRate, byte: u8)
    ensures
        LoraCodingRate::decode(value.code()) == Ok::<
            LoraCodingRate,
            DecodeError,
        >(value),
        LoraCodingRate::of_code(value.code()) == value,
        LoraCodingRate::decode(byte) is Ok <==> exists|
            v: LoraCodingRate,
        | v.code() == byte,
        LoraCodingRate::decode(byte) matches Ok(v) ==> v.code()
            == byte,
        LoraCodingRate::decode(byte) matches Err(e) ==> e
            == DecodeError::CodingRate(byte),
{
    if LoraCodingRate::decode(byte) is Ok {
        assert(LoraCodingRate::of_code(byte).code() == byte);
    }
}

/// LoRa modulation parameters.
#[derive(Copy, Clone, Debug, PartialEq, Eq, Structural)]
pub struct LoraModParams {
    pub spread_factor: LoRaSpreadFactor,
    pub bandwidth: LoRaBandWidth,
    pub coding_rate: LoraCodingRate,
    pub low_data_rate_optimize: bool,
}

/// SF7, 125 kHz, coding rate 4/5, no low data rate optimisation.
pub open spec fn default_lora_mod_params() -> LoraModParams {
    LoraModParams {
        spread_factor: LoRaSpreadFactor::SF7,
        bandwidth: LoRaBandWidth::BW125,
        coding_rate: LoraCodingRate::CR4_5,
        low_data_rate_optimize: false,
    }
}

impl Default for LoraModParams {
    fn default() -> (r: LoraModParams)
        ensures
            r == default_lora_mod_params(),
    {
        LoraModParams {
            spread_factor: LoRaSpreadFactor::SF7,
            bandwidth: LoRaBandWidth::BW125,
            coding_rate: LoraCodingRate::CR4_5,
            low_data_rate_optimize: false,
        }
    }
}

impl LoraModParams {
    pub fn set_spread_factor(self, spread_factor: LoRaSpreadFactor) -> (r: Self)
        ensures
            r == (LoraModParams { spread_factor, ..self }),
    {
        LoraModParams { spread_factor, ..self }
    }

    pub fn set_bandwidth(self, bandwidth: LoRaBandWidth) -> (r: Self)
        ensures
            r == (LoraModParams { bandwidth, ..self }),
    {
        LoraModParams { bandwidth, ..self }
    }

    pub fn set_coding_rate(self, coding_rate: LoraCodingRate) -> (r: Self)
        ensures
            r == (LoraModParams { coding_rate, ..self }),
    {
        LoraModParams { coding_rate, ..self }
    }

    pub fn set_low_dr_opt(self, low_dr_opt: bool) -> (r: Self)
        ensures
            r == (LoraModParams { low_data_rate_optimize: low_dr_opt, ..self }),
    {
        LoraModParams { low_data_rate_optimize: low_dr_opt, ..self }
    }
}

impl From<LoraModParams> for ModParams {
    /// Encodes the parameters. Reading the block back gives the same
    /// parameters.
    fn from(val: LoraModParams) -> (r: ModParams)
        ensures
            r@ == val,
            r.bytes() == lora_mod_params_bytes(val),
    {
        let r = ModParams {
            inner: [
                u8::from(val.spread_factor),
                u8::from(val.bandwidth),
                u8::from(val.coding_rate),
                if val.low_data_rate_optimize { 1 } else { 0 },
                0x00,
                0x00,
                0x00,
                0x00,
            ],
        };
        proof {
            lemma_mod_params_round_trip(val);
            assert(r.inner@ =~= lora_mod_params_bytes(val));
        }
        r
    }
}

impl FromSpecImpl<LoraModParams> for ModParams {
    open spec fn obeys_from_spec() -> bool {
        true
    }

    open spec fn from_spec(v: LoraModParams) -> ModParams {
        ModParams::encode(v)
    }
}

/// A block holds the eight bytes that stand for the parameters it is read
/// as: a valid spreading factor, bandwidth and coding rate, a flag of 0 or
/// 1, and four zero bytes.
pub proof fn lemma_mod_params_bytes(block: ModParams)
    requires
        block.wf(),
    ensures
        block.bytes() == lora_mod_params_bytes(block@),
        block == ModParams::encode(block@),
{
    assert(block.inner =~= ModParams::encode(block@).inner);
}

/// Encoding modulation parameters and reading the block back gives the same
/// spreading factor, bandwidth, coding rate and low data rate flag, and the
/// block holds the eight bytes that stand for them.
pub proof fn lemma_mod_params_round_trip(params: LoraModParams)
    ensures
        ModParams::encode(params)@ == params,
        ModParams::encode(params).bytes() == lora_mod_params_bytes(params),
        ModParams::encode(params).wf(),
{
    lemma_spread_factor_round_trip(params.spread_factor, 0);
    lemma_bandwidth_round_trip(params.bandwidth, 0);
    lemma_coding_rate_round_trip(params.coding_rate, 0);
    assert(ModParams::encode(params).inner@ =~= lora_mod_params_bytes(params));
}

} // verus!
