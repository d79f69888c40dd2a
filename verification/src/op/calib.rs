//! Calibration parameters.

use vstd::prelude::*;
use vstd::std_specs::convert::FromSpecImpl;

verus! {

/// Selects the blocks that a `Calibrate` command recalibrates.
///
/// | Bit | Block              |
/// |-----|--------------------|
/// | 0   | RC64k oscillator   |
/// | 1   | RC13M oscillator   |
/// | 2   | PLL                |
/// | 3   | ADC pulse          |
/// | 4   | ADC bulk N         |
/// | 5   | ADC bulk P         |
/// | 6   | Image              |
/// | 7   | reserved, always 0 |
///
/// Calibrating every block takes 3.5 ms. The command must be issued in
/// STDBY_RC mode; the busy line stays high until the calibration is over.
#[derive(Copy, Clone, Debug, PartialEq, Eq, Structural)]
pub struct CalibParam {
    inner: u8,
}

impl CalibParam {
    /// The reserved bit 7 is clear.
    #[verifier::type_invariant]
    pub closed spec fn reserved_clear(self) -> bool {
        self.inner < 0x80
    }

    /// The mask as the chip receives it.
    pub closed spec fn bits(self) -> u8 {
        self.inner
    }

    /// The mask made of bits 0 to 6 of `byte`.
    pub closed spec fn of_byte(byte: u8) -> CalibParam {
        CalibParam { inner: byte & 0x7F }
    }

    /// The mask that enables exactly the given blocks.
    pub open spec fn mask(
        rc64k_en: bool,
        rc13_en: bool,
        pll_en: bool,
        adc_pulse_en: bool,
        adc_bulk_n_en: bool,
        adc_bulk_p_en: bool,
        image_en: bool,
    ) -> u8 {
        let rc64k = if rc64k_en { 0x01int } else { 0 };
        let rc13 = if rc13_en { 0x02int } else { 0 };
        let pll = if pll_en { 0x04int } else { 0 };
        let adc_pulse = if adc_pulse_en { 0x08int } else { 0 };
        let adc_bulk_n = if adc_bulk_n_en { 0x10int } else { 0 };
        let adc_bulk_p = if adc_bulk_p_en { 0x20int } else { 0 };
        let image = if image_en { 0x40int } else { 0 };
        (rc64k + rc13 + pll + adc_pulse + adc_bulk_n + adc_bulk_p + image) as u8
    }

    /// Returns a `CalibParam` with all calibration parameters enabled.
    pub fn default() -> (r: Self)
        ensures
            r.bits() == 0x7F,
            r.reserved_clear(),
    {
        Self::all()
    }

    /// Creates a new `CalibParam` with the specified calibration parameters.
    pub fn new(
        rc64k_en: bool,
        rc13_en: bool,
        pll_en: bool,
        adc_pulse_en: bool,
        adc_bulk_n_en: bool,
        adc_bulk_p_en: bool,
        image_en: bool,
    ) -> (r: Self)
        ensures
            r.bits() == Self::mask(
                rc64k_en,
                rc13_en,
                pll_en,
                adc_pulse_en,
                adc_bulk_n_en,
                adc_bulk_p_en,
                image_en,
            ),
            r.reserved_clear(),
    {
        let mut inner: u8 = 0;
        if rc64k_en {
            inner = inner + 0x01;
        }
        if rc13_en {
            inner = inner + 0x02;
        }
        if pll_en {
            inner = inner + 0x04;
        }
        if adc_pulse_en {
            inner = inner + 0x08;
        }
        if adc_bulk_n_en {
            inner = inner + 0x10;
        }
        if adc_bulk_p_en {
            inner = inner + 0x20;
        }
        if image_en {
            inner = inner + 0x40;
        }
        Self { inner }
    }

    /// Returns a `CalibParam` with all calibration parameters enabled.
    pub fn all() -> (r: Self)
        ensures
            r.bits() == 0x7F,
            r.reserved_clear(),
    {
        Self::new(true, true, true, true, true, true, true)
    }
}

impl From<CalibParam> for u8 {
    fn from(val: CalibParam) -> (r: u8)
        ensures
            r == val.bits(),
            r < 0x80,
    {
        proof {
            use_type_invariant(&val);
        }
        val.inner
    }
}

impl FromSpecImpl<CalibParam> for u8 {
    open spec fn obeys_from_spec() -> bool {
        true
    }

    open spec fn from_spec(v: CalibParam) -> u8 {
        v.bits()
    }
}

impl From<u8> for CalibParam {
    /// Keeps bits 0 to 6 of `val` and clears the reserved bit.
    fn from(val: u8) -> (r: CalibParam)
        ensures
            r == CalibParam::of_byte(val),
            r.bits() == val % 0x80,
            r.reserved_clear(),
    {
        assert(val & 0x7F == val % 0x80) by (bit_vector);
        CalibParam { inner: val & 0x7F }
    }
}

impl FromSpecImpl<u8> for CalibParam {
    open spec fn obeys_from_spec() -> bool {
        true
    }

    open spec fn from_spec(v: u8) -> CalibParam {
        CalibParam::of_byte(v)
    }
}

/// Whatever byte a mask is made from, its reserved bit is clear, and each of
/// the 128 bytes with a clear bit 7 comes back unchanged.
pub proof fn lemma_calib_param_round_trip(byte: u8)
    ensures
        CalibParam::of_byte(byte).reserved_clear(),
        CalibParam::of_byte(byte).bits() < 0x80,
        CalibParam::of_byte(byte).bits() == byte % 0x80,
        byte < 0x80 ==> CalibParam::of_byte(byte).bits() == byte,
{
    assert(byte & 0x7F == byte % 0x80) by (bit_vector);
}

/// A mask built from seven flags enables exactly the blocks whose flags are set.
pub proof fn lemma_calib_mask_flags(
    rc64k_en: bool,
    rc13_en: bool,
    pll_en: bool,
    adc_pulse_en: bool,
    adc_bulk_n_en: bool,
    adc_bulk_p_en: bool,
    image_en: bool,
)
    ensures
        ({
            let m = CalibParam::mask(
                rc64k_en,
                rc13_en,
                pll_en,
                adc_pulse_en,
                adc_bulk_n_en,
                adc_bulk_p_en,
                image_en,
            ) as int;
            &&& m < 0x80
            &&& (m % 2 == 1) == rc64k_en
            &&& (m / 0x02 % 2 == 1) == rc13_en
            &&& (m / 0x04 % 2 == 1) == pll_en
            &&& (m / 0x08 % 2 == 1) == adc_pulse_en
            &&& (m / 0x10 % 2 == 1) == adc_bulk_n_en
            &&& (m / 0x20 % 2 == 1) == adc_bulk_p_en
            &&& (m / 0x40 % 2 == 1) == image_en
        }),
{
}

/// Frequency band of an image calibration, with the two bytes the chip expects.
///
/// | Frequency band (MHz) | Freq1 | Freq2 |
/// |----------------------|-------|-------|
/// | 430 - 440            | 0x6B  | 0x6F  |
/// | 470 - 510            | 0x75  | 0x81  |
/// | 779 - 787            | 0xC1  | 0xC5  |
/// | 863 - 870            | 0xD7  | 0xDB  |
/// | 902 - 928            | 0xE1  | 0xE9  |
#[allow(non_camel_case_types)]
#[derive(Copy, Clone, Debug, PartialEq, Eq, Structural)]
pub enum CalibImageFreq {
    MHz430_440,
    MHz470_510,
    MHz779_787,
    MHz863_870,
    MHz902_928,
}

impl CalibImageFreq {
    /// The two parameter bytes of `CalibrateImage` for this band.
    pub open spec fn pair(self) -> Seq<u8> {
        match self {
            CalibImageFreq::MHz430_440 => seq![0x6Bu8, 0x6Fu8],
            CalibImageFreq::MHz470_510 => seq![0x75u8, 0x81u8],
            CalibImageFreq::MHz779_787 => seq![0xC1u8, 0xC5u8],
            CalibImageFreq::MHz863_870 => seq![0xD7u8, 0xDBu8],
            CalibImageFreq::MHz902_928 => seq![0xE1u8, 0xE9u8],
        }
    }

    /// Whether a frequency in Hz, cut down to whole MHz, lies in this band.
    pub open spec fn covers(self, rf_freq: u32) -> bool {
        let mhz = rf_freq as int / 1_000_000;
        match self {
            CalibImageFreq::MHz430_440 => 430 <= mhz <= 440,
            CalibImageFreq::MHz470_510 => 470 <= mhz <= 510,
            CalibImageFreq::MHz779_787 => 779 <= mhz <= 787,
            CalibImageFreq::MHz863_870 => 863 <= mhz <= 870,
            CalibImageFreq::MHz902_928 => 902 <= mhz <= 928,
        }
    }

    /// The band used to calibrate for a frequency in Hz: the band that covers
    /// it, and 902 - 928 MHz where none does.
    pub open spec fn band(rf_freq: u32) -> CalibImageFreq {
        if CalibImageFreq::MHz430_440.covers(rf_freq) {
            CalibImageFreq::MHz430_440
        } else if CalibImageFreq::MHz470_510.covers(rf_freq) {
            CalibImageFreq::MHz470_510
        } else if CalibImageFreq::MHz779_787.covers(rf_freq) {
            CalibImageFreq::MHz779_787
        } else if CalibImageFreq::MHz863_870.covers(rf_freq) {
            CalibImageFreq::MHz863_870
        } else {
            CalibImageFreq::MHz902_928
        }
    }

    /// The band that is used where no other applies.
    pub fn default() -> (r: Self)
        ensures
            r == CalibImageFreq::MHz902_928,
    {
        CalibImageFreq::MHz902_928
    }

    /// Looks up the calibration band of a frequency in Hz.
    ///
    /// A frequency outside every band is calibrated as 902 - 928 MHz. This
    /// is a fallback, not an error: off-band operation gets a calibration
    /// that may not suit it.
    pub fn from_rf_frequency(rf_freq: u32) -> (r: Self)
        ensures
            r == Self::band(rf_freq),
    {
        let mhz: u32 = rf_freq / 1_000_000;
        if 902 <= mhz && mhz <= 928 {
            CalibImageFreq::MHz902_928
        } else if 863 <= mhz && mhz <= 870 {
            CalibImageFreq::MHz863_870
        } else if 779 <= mhz && mhz <= 787 {
            CalibImageFreq::MHz779_787
        } else if 470 <= mhz && mhz <= 510 {
            CalibImageFreq::MHz470_510
        } else if 430 <= mhz && mhz <= 440 {
            CalibImageFreq::MHz430_440
        } else {
            CalibImageFreq::MHz902_928
        }
    }
}

impl From<CalibImageFreq> for [u8; 2] {
    fn from(val: CalibImageFreq) -> (r: [u8; 2])
        ensures
            r@ == val.pair(),
    {
        let r: [u8; 2] = match val {
            CalibImageFreq::MHz430_440 => [0x6B, 0x6F],
            CalibImageFreq::MHz470_510 => [0x75, 0x81],
            CalibImageFreq::MHz779_787 => [0xC1, 0xC5],
            CalibImageFreq::MHz863_870 => [0xD7, 0xDB],
            CalibImageFreq::MHz902_928 => [0xE1, 0xE9],
        };
        assert(r@ =~= val.pair());
        r
    }
}

impl FromSpecImpl<CalibImageFreq> for [u8; 2] {
    open spec fn obeys_from_spec() -> bool {
        true
    }

    open spec fn from_spec(v: CalibImageFreq) -> [u8; 2] {
        match v {
            CalibImageFreq::MHz430_440 => [0x6Bu8, 0x6Fu8],
            CalibImageFreq::MHz470_510 => [0x75u8, 0x81u8],
            CalibImageFreq::MHz779_787 => [0xC1u8, 0xC5u8],
            CalibImageFreq::MHz863_870 => [0xD7u8, 0xDBu8],
            CalibImageFreq::MHz902_928 => [0xE1u8, 0xE9u8],
        }
    }
}

/// Every frequency has exactly one calibration band: the one band that
/// covers it, or 902 - 928 MHz where no band covers it.
pub proof fn lemma_band_lookup_total(rf_freq: u32, other: CalibImageFreq)
    ensures
        other.covers(rf_freq) ==> CalibImageFreq::band(rf_freq) == other,
        !CalibImageFreq::band(rf_freq).covers(rf_freq) ==> {
            &&& CalibImageFreq::band(rf_freq) == CalibImageFreq::MHz902_928
            &&& CalibImageFreq::band(rf_freq).pair() == seq![0xE1u8, 0xE9u8]
            &&& !other.covers(rf_freq)
        },
{
}

} // verus!
