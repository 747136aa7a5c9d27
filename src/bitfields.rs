//! Packed flag registers: named boolean fields at fixed bit positions of an
//! 8- or 16-bit word, with reserved bits that encode as zero and are ignored
//! on decode.
use vstd::prelude::*;

verus! {

/// Whether bit `pos` of `raw` is set.
pub open spec fn bit8(raw: u8, pos: u8) -> bool {
    (raw >> pos) & 1 == 1
}

/// Whether bit `pos` of `raw` is set.
pub open spec fn bit16(raw: u16, pos: u16) -> bool {
    (raw >> pos) & 1 == 1
}

/// The word with only bit `pos` set when `on`, and no bit set otherwise.
pub open spec fn spec_flag8(on: bool, pos: u8) -> u8 {
    if on {
        1u8 << pos
    } else {
        0
    }
}

/// The word with only bit `pos` set when `on`, and no bit set otherwise.
pub open spec fn spec_flag16(on: bool, pos: u16) -> u16 {
    if on {
        1u16 << pos
    } else {
        0
    }
}

#[verifier::when_used_as_spec(spec_flag8)]
fn flag8(on: bool, pos: u8) -> (r: u8)
    requires
        pos < 8,
    ensures
        r == spec_flag8(on, pos),
{
    if on {
        1u8 << pos
    } else {
        0
    }
}

#[verifier::when_used_as_spec(spec_flag16)]
fn flag16(on: bool, pos: u16) -> (r: u16)
    requires
        pos < 16,
    ensures
        r == spec_flag16(on, pos),
{
    if on {
        1u16 << pos
    } else {
        0
    }
}

fn read_bit8(raw: u8, pos: u8) -> (r: bool)
    requires
        pos < 8,
    ensures
        r == bit8(raw, pos),
{
    (raw >> pos) & 1 == 1
}

fn read_bit16(raw: u16, pos: u16) -> (r: bool)
    requires
        pos < 16,
    ensures
        r == bit16(raw, pos),
{
    (raw >> pos) & 1 == 1
}

/// Parameter of the sleep command. Bits are numbered from the most
/// significant end: five reserved bits, `warm_start`, two reserved bits; so
/// `warm_start` is bit 2 of the byte.
#[derive(Clone, Copy, PartialEq, Eq, Structural, Debug)]
pub struct SleepConfig {
    /// Keep the configuration in retention memory, so that waking up
    /// resumes it.
    pub warm_start: bool,
}

impl SleepConfig {
    /// The bits that hold no field.
    pub const RESERVED: u8 = 0xFB;

    pub open spec fn spec_from_bits(raw: u8) -> SleepConfig {
        SleepConfig { warm_start: bit8(raw, 2) }
    }

    pub open spec fn spec_into_bits(self) -> u8 {
        spec_flag8(self.warm_start, 2)
    }

    /// The configuration with every field clear.
    pub fn new() -> (r: SleepConfig)
        ensures
            r == SleepConfig::spec_from_bits(0),
    {
        assert(!bit8(0, 2)) by (bit_vector);
        SleepConfig { warm_start: false }
    }

    pub fn with_warm_start(self, warm_start: bool) -> (r: SleepConfig)
        ensures
            r == (SleepConfig { warm_start, ..self }),
    {
        SleepConfig { warm_start, ..self }
    }

    pub fn from_bits(raw: u8) -> (r: SleepConfig)
        ensures
            r == SleepConfig::spec_from_bits(raw),
    {
        SleepConfig { warm_start: read_bit8(raw, 2) }
    }

    pub fn into_bits(self) -> (r: u8)
        ensures
            r == self.spec_into_bits(),
            r & SleepConfig::RESERVED == 0,
    {
        let r = flag8(self.warm_start, 2);
        proof {
            lemma_sleep_config_reserved_clear(self);
        }
        r
    }
}

/// Encoding a sleep configuration leaves its reserved bits clear.
pub proof fn lemma_sleep_config_reserved_clear(c: SleepConfig)
    ensures
        c.spec_into_bits() & SleepConfig::RESERVED == 0,
{
    let w = c.warm_start;
    assert(spec_flag8(w, 2) & 0xFB == 0) by (bit_vector);
}

/// Decoding an encoded sleep configuration gives it back.
pub proof fn lemma_sleep_config_round_trip(c: SleepConfig)
    ensures
        SleepConfig::spec_from_bits(c.spec_into_bits()) == c,
{
    let w = c.warm_start;
    assert(bit8(spec_flag8(w, 2), 2) == w) by (bit_vector);
}

/// Decoding a byte and encoding the result keeps the field bits and clears
/// the reserved ones.
pub proof fn lemma_sleep_config_reencode(raw: u8)
    ensures
        SleepConfig::spec_from_bits(raw).spec_into_bits() == raw & !SleepConfig::RESERVED,
{
    assert(spec_flag8(bit8(raw, 2), 2) == raw & !0xFBu8) by (bit_vector);
}

/// Interrupt flags, as set in the interrupt register and in the masks of
/// the DIO lines. Bits are numbered from the least significant end; bits 10
/// to 13 and bit 15 are reserved.
#[derive(Clone, Copy, PartialEq, Eq, Structural, Debug)]
pub struct Irq {
    /// Transmission finished. Bit 0.
    pub tx_done: bool,
    /// A packet was received. Bit 1.
    pub rx_done: bool,
    /// A preamble was detected. Bit 2.
    pub preamble_detected: bool,
    /// A valid sync word was detected. Bit 3.
    pub sync_word_valid: bool,
    /// A valid LoRa header was received. Bit 4.
    pub header_valid: bool,
    /// A LoRa header CRC error occurred. Bit 5.
    pub header_err: bool,
    /// A payload CRC error occurred. Bit 6.
    pub crc_err: bool,
    /// Channel activity detection finished. Bit 7.
    pub cad_done: bool,
    /// Channel activity was detected. Bit 8.
    pub cad_detected: bool,
    /// A receive or transmit timeout elapsed. Bit 9.
    pub timeout: bool,
    /// An LR-FHSS frequency hop took place. Bit 14.
    pub lr_fhss_hop: bool,
}

impl Irq {
    /// The bits that hold no field.
    pub const RESERVED: u16 = 0xBC00;

    pub open spec fn spec_from_bits(raw: u16) -> Irq {
        Irq {
            tx_done: bit16(raw, 0),
            rx_done: bit16(raw, 1),
            preamble_detected: bit16(raw, 2),
            sync_word_valid: bit16(raw, 3),
            header_valid: bit16(raw, 4),
            header_err: bit16(raw, 5),
            crc_err: bit16(raw, 6),
            cad_done: bit16(raw, 7),
            cad_detected: bit16(raw, 8),
            timeout: bit16(raw, 9),
            lr_fhss_hop: bit16(raw, 14),
        }
    }

    pub open spec fn spec_into_bits(self) -> u16 {
        spec_flag16(self.tx_done, 0)
            | spec_flag16(self.rx_done, 1)
            | spec_flag16(self.preamble_detected, 2)
            | spec_flag16(self.sync_word_valid, 3)
            | spec_flag16(self.header_valid, 4)
            | spec_flag16(self.header_err, 5)
            | spec_flag16(self.crc_err, 6)
            | spec_flag16(self.cad_done, 7)
            | spec_flag16(self.cad_detected, 8)
            | spec_flag16(self.timeout, 9)
            | spec_flag16(self.lr_fhss_hop, 14)
    }

    /// The value with every flag clear.
    pub fn new() -> (r: Irq)
        ensures
            r == Irq::spec_from_bits(0),
    {
        Irq::from_bits(0)
    }

    pub fn from_bits(raw: u16) -> (r: Irq)
        ensures
            r == Irq::spec_from_bits(raw),
    {
        Irq {
            tx_done: read_bit16(raw, 0),
            rx_done: read_bit16(raw, 1),
            preamble_detected: read_bit16(raw, 2),
            sync_word_valid: read_bit16(raw, 3),
            header_valid: read_bit16(raw, 4),
            header_err: read_bit16(raw, 5),
            crc_err: read_bit16(raw, 6),
            cad_done: read_bit16(raw, 7),
            cad_detected: read_bit16(raw, 8),
            timeout: read_bit16(raw, 9),
            lr_fhss_hop: read_bit16(raw, 14),
        }
    }

    pub fn into_bits(self) -> (r: u16)
        ensures
            r == self.spec_into_bits(),
            r & Irq::RESERVED == 0,
    {
        let r = flag16(self.tx_done, 0)
            | flag16(self.rx_done, 1)
            | flag16(self.preamble_detected, 2)
            | flag16(self.sync_word_valid, 3)
            | flag16(self.header_valid, 4)
            | flag16(self.header_err, 5)
            | flag16(self.crc_err, 6)
            | flag16(self.cad_done, 7)
            | flag16(self.cad_detected, 8)
            | flag16(self.timeout, 9)
            | flag16(self.lr_fhss_hop, 14);
        proof {
            lemma_irq_reserved_clear(self);
        }
        r
    }

    pub fn with_tx_done(self, tx_done: bool) -> (r: Irq)
        ensures
            r == (Irq { tx_done, ..self }),
    {
        Irq { tx_done, ..self }
    }

    pub fn with_rx_done(self, rx_done: bool) -> (r: Irq)
        ensures
            r == (Irq { rx_done, ..self }),
    {
        Irq { rx_done, ..self }
    }

    pub fn with_preamble_detected(self, preamble_detected: bool) -> (r: Irq)
        ensures
            r == (Irq { preamble_detected, ..self }),
    {
        Irq { preamble_detected, ..self }
    }

    pub fn with_sync_word_valid(self, sync_word_valid: bool) -> (r: Irq)
        ensures
            r == (Irq { sync_word_valid, ..self }),
    {
        Irq { sync_word_valid, ..self }
    }

    pub fn with_header_valid(self, header_valid: bool) -> (r: Irq)
        ensures
            r == (Irq { header_valid, ..self }),
    {
        Irq { header_valid, ..self }
    }

    pub fn with_header_err(self, header_err: bool) -> (r: Irq)
        ensures
            r == (Irq { header_err, ..self }),
    {
        Irq { header_err, ..self }
    }

    pub fn with_crc_err(self, crc_err: bool) -> (r: Irq)
        ensures
            r == (Irq { crc_err, ..self }),
    {
        Irq { crc_err, ..self }
    }

    pub fn with_cad_done(self, cad_done: bool) -> (r: Irq)
        ensures
            r == (Irq { cad_done, ..self }),
    {
        Irq { cad_done, ..self }
    }

    pub fn with_cad_detected(self, cad_detected: bool) -> (r: Irq)
        ensures
            r == (Irq { cad_detected, ..self }),
    {
        Irq { cad_detected, ..self }
    }

    pub fn with_timeout(self, timeout: bool) -> (r: Irq)
        ensures
            r == (Irq { timeout, ..self }),
    {
        Irq { timeout, ..self }
    }

    pub fn with_lr_fhss_hop(self, lr_fhss_hop: bool) -> (r: Irq)
        ensures
            r == (Irq { lr_fhss_hop, ..self }),
    {
        Irq { lr_fhss_hop, ..self }
    }
}

/// Encoding an `Irq` leaves its reserved bits clear.
pub proof fn lemma_irq_reserved_clear(v: Irq)
    ensures
        v.spec_into_bits() & Irq::RESERVED == 0,
{
    let tx_done = v.tx_done;
    let rx_done = v.rx_done;
    let preamble_detected = v.preamble_detected;
    let sync_word_valid = v.sync_word_valid;
    let header_valid = v.header_valid;
    let header_err = v.header_err;
    let crc_err = v.crc_err;
    let cad_done = v.cad_done;
    let cad_detected = v.cad_detected;
    let timeout = v.timeout;
    let lr_fhss_hop = v.lr_fhss_hop;
    assert((spec_flag16(tx_done, 0)
            | spec_flag16(rx_done, 1)
            | spec_flag16(preamble_detected, 2)
            | spec_flag16(sync_word_valid, 3)
            | spec_flag16(header_valid, 4)
            | spec_flag16(header_err, 5)
            | spec_flag16(crc_err, 6)
            | spec_flag16(cad_done, 7)
            | spec_flag16(cad_detected, 8)
            | spec_flag16(timeout, 9)
            | spec_flag16(lr_fhss_hop, 14)) & 0xBC00 == 0)
        by (bit_vector);
}

/// Decoding an encoded `Irq` gives it back.
pub proof fn lemma_irq_round_trip(v: Irq)
    ensures
        Irq::spec_from_bits(v.spec_into_bits()) == v,
{
    let tx_done = v.tx_done;
    let rx_done = v.rx_done;
    let preamble_detected = v.preamble_detected;
    let sync_word_valid = v.sync_word_valid;
    let header_valid = v.header_valid;
    let header_err = v.header_err;
    let crc_err = v.crc_err;
    let cad_done = v.cad_done;
    let cad_detected = v.cad_detected;
    let timeout = v.timeout;
    let lr_fhss_hop = v.lr_fhss_hop;
    let raw = spec_flag16(tx_done, 0)
        | spec_flag16(rx_done, 1)
        | spec_flag16(preamble_detected, 2)
        | spec_flag16(sync_word_valid, 3)
        | spec_flag16(header_valid, 4)
        | spec_flag16(header_err, 5)
        | spec_flag16(crc_err, 6)
        | spec_flag16(cad_done, 7)
        | spec_flag16(cad_detected, 8)
        | spec_flag16(timeout, 9)
        | spec_flag16(lr_fhss_hop, 14);
    assert(bit16(raw, 0) == tx_done
        && bit16(raw, 1) == rx_done
        && bit16(raw, 2) == preamble_detected
        && bit16(raw, 3) == sync_word_valid
        && bit16(raw, 4) == header_valid
        && bit16(raw, 5) == header_err
        && bit16(raw, 6) == crc_err
        && bit16(raw, 7) == cad_done
        && bit16(raw, 8) == cad_detected
        && bit16(raw, 9) == timeout
        && bit16(raw, 14) == lr_fhss_hop) by (bit_vector)
        requires
            raw == spec_flag16(tx_done, 0)
                | spec_flag16(rx_done, 1)
                | spec_flag16(preamble_detected, 2)
                | spec_flag16(sync_word_valid, 3)
                | spec_flag16(header_valid, 4)
                | spec_flag16(header_err, 5)
                | spec_flag16(crc_err, 6)
                | spec_flag16(cad_done, 7)
                | spec_flag16(cad_detected, 8)
                | spec_flag16(timeout, 9)
                | spec_flag16(lr_fhss_hop, 14),
    ;
}

/// Decoding a word and encoding the result keeps the flag bits and clears
/// the reserved ones.
pub proof fn lemma_irq_reencode(raw: u16)
    ensures
        Irq::spec_from_bits(raw).spec_into_bits() == raw & !Irq::RESERVED,
{
    assert(spec_flag16(bit16(raw, 0), 0)
        | spec_flag16(bit16(raw, 1), 1)
        | spec_flag16(bit16(raw, 2), 2)
        | spec_flag16(bit16(raw, 3), 3)
        | spec_flag16(bit16(raw, 4), 4)
        | spec_flag16(bit16(raw, 5), 5)
        | spec_flag16(bit16(raw, 6), 6)
        | spec_flag16(bit16(raw, 7), 7)
        | spec_flag16(bit16(raw, 8), 8)
        | spec_flag16(bit16(raw, 9), 9)
        | spec_flag16(bit16(raw, 14), 14) == raw & !0xBC00u16)
        by (bit_vector);
}

/// Error flags reported by the device. Bits are numbered from the least
/// significant end; bit 7 and bits 9 to 15 are reserved.
#[derive(Clone, Copy, PartialEq, Eq, Structural, Debug)]
pub struct OpError {
    /// Calibration of the 64 kHz RC oscillator failed. Bit 0.
    pub rc64k_calib_err: bool,
    /// Calibration of the 13 MHz RC oscillator failed. Bit 1.
    pub rc13m_calib_err: bool,
    /// Calibration of the PLL failed. Bit 2.
    pub pll_calib_err: bool,
    /// Calibration of the ADC failed. Bit 3.
    pub adc_calib_err: bool,
    /// Image calibration failed. Bit 4.
    pub img_calib_err: bool,
    /// The crystal oscillator failed to start. Bit 5.
    pub xosc_start_err: bool,
    /// The PLL failed to lock. Bit 6.
    pub pll_lock_err: bool,
    /// The power amplifier ramp failed. Bit 8.
    pub pa_ramp_err: bool,
}

impl OpError {
    /// The bits that hold no field.
    pub const RESERVED: u16 = 0xFE80;

    pub open spec fn spec_from_bits(raw: u16) -> OpError {
        OpError {
            rc64k_calib_err: bit16(raw, 0),
            rc13m_calib_err: bit16(raw, 1),
            pll_calib_err: bit16(raw, 2),
            adc_calib_err: bit16(raw, 3),
            img_calib_err: bit16(raw, 4),
            xosc_start_err: bit16(raw, 5),
            pll_lock_err: bit16(raw, 6),
            pa_ramp_err: bit16(raw, 8),
        }
    }

    pub open spec fn spec_into_bits(self) -> u16 {
        spec_flag16(self.rc64k_calib_err, 0)
            | spec_flag16(self.rc13m_calib_err, 1)
            | spec_flag16(self.pll_calib_err, 2)
            | spec_flag16(self.adc_calib_err, 3)
            | spec_flag16(self.img_calib_err, 4)
            | spec_flag16(self.xosc_start_err, 5)
            | spec_flag16(self.pll_lock_err, 6)
            | spec_flag16(self.pa_ramp_err, 8)
    }

    /// The value with every flag clear.
    pub fn new() -> (r: OpError)
        ensures
            r == OpError::spec_from_bits(0),
    {
        OpError::from_bits(0)
    }

    pub fn from_bits(raw: u16) -> (r: OpError)
        ensures
            r == OpError::spec_from_bits(raw),
    {
        OpError {
            rc64k_calib_err: read_bit16(raw, 0),
            rc13m_calib_err: read_bit16(raw, 1),
            pll_calib_err: read_bit16(raw, 2),
            adc_calib_err: read_bit16(raw, 3),
            img_calib_err: read_bit16(raw, 4),
            xosc_start_err: read_bit16(raw, 5),
            pll_lock_err: read_bit16(raw, 6),
            pa_ramp_err: read_bit16(raw, 8),
        }
    }

    pub fn into_bits(self) -> (r: u16)
        ensures
            r == self.spec_into_bits(),
            r & OpError::RESERVED == 0,
    {
        let r = flag16(self.rc64k_calib_err, 0)
            | flag16(self.rc13m_calib_err, 1)
            | flag16(self.pll_calib_err, 2)
            | flag16(self.adc_calib_err, 3)
            | flag16(self.img_calib_err, 4)
            | flag16(self.xosc_start_err, 5)
            | flag16(self.pll_lock_err, 6)
            | flag16(self.pa_ramp_err, 8);
        proof {
            lemma_op_error_reserved_clear(self);
        }
        r
    }

    pub fn with_rc64k_calib_err(self, rc64k_calib_err: bool) -> (r: OpError)
        ensures
            r == (OpError { rc64k_calib_err, ..self }),
    {
        OpError { rc64k_calib_err, ..self }
    }

    pub fn with_rc13m_calib_err(self, rc13m_calib_err: bool) -> (r: OpError)
        ensures
            r == (OpError { rc13m_calib_err, ..self }),
    {
        OpError { rc13m_calib_err, ..self }
    }

    pub fn with_pll_calib_err(self, pll_calib_err: bool) -> (r: OpError)
        ensures
            r == (OpError { pll_calib_err, ..self }),
    {
        OpError { pll_calib_err, ..self }
    }

    pub fn with_adc_calib_err(self, adc_calib_err: bool) -> (r: OpError)
        ensures
            r == (OpError { adc_calib_err, ..self }),
    {
        OpError { adc_calib_err, ..self }
    }

    pub fn with_img_calib_err(self, img_calib_err: bool) -> (r: OpError)
        ensures
            r == (OpError { img_calib_err, ..self }),
    {
        OpError { img_calib_err, ..self }
    }

    pub fn with_xosc_start_err(self, xosc_start_err: bool) -> (r: OpError)
        ensures
            r == (OpError { xosc_start_err, ..self }),
    {
        OpError { xosc_start_err, ..self }
    }

    pub fn with_pll_lock_err(self, pll_lock_err: bool) -> (r: OpError)
        ensures
            r == (OpError { pll_lock_err, ..self }),
    {
        OpError { pll_lock_err, ..self }
    }

    pub fn with_pa_ramp_err(self, pa_ramp_err: bool) -> (r: OpError)
        ensures
            r == (OpError { pa_ramp_err, ..self }),
    {
        OpError { pa_ramp_err, ..self }
    }
}

/// Encoding an `OpError` leaves its reserved bits clear.
pub proof fn lemma_op_error_reserved_clear(v: OpError)
    ensures
        v.spec_into_bits() & OpError::RESERVED == 0,
{
    let rc64k_calib_err = v.rc64k_calib_err;
    let rc13m_calib_err = v.rc13m_calib_err;
    let pll_calib_err = v.pll_calib_err;
    let adc_calib_err = v.adc_calib_err;
    let img_calib_err = v.img_calib_err;
    let xosc_start_err = v.xosc_start_err;
    let pll_lock_err = v.pll_lock_err;
    let pa_ramp_err = v.pa_ramp_err;
    assert((spec_flag16(rc64k_calib_err, 0)
            | spec_flag16(rc13m_calib_err, 1)
            | spec_flag16(pll_calib_err, 2)
            | spec_flag16(adc_calib_err, 3)
            | spec_flag16(img_calib_err, 4)
            | spec_flag16(xosc_start_err, 5)
            | spec_flag16(pll_lock_err, 6)
            | spec_flag16(pa_ramp_err, 8)) & 0xFE80 == 0)
        by (bit_vector);
}

/// Decoding an encoded `OpError` gives it back.
pub proof fn lemma_op_error_round_trip(v: OpError)
    ensures
        OpError::spec_from_bits(v.spec_into_bits()) == v,
{
    let rc64k_calib_err = v.rc64k_calib_err;
    let rc13m_calib_err = v.rc13m_calib_err;
    let pll_calib_err = v.pll_calib_err;
    let adc_calib_err = v.adc_calib_err;
    let img_calib_err = v.img_calib_err;
    let xosc_start_err = v.xosc_start_err;
    let pll_lock_err = v.pll_lock_err;
    let pa_ramp_err = v.pa_ramp_err;
    let raw = spec_flag16(rc64k_calib_err, 0)
        | spec_flag16(rc13m_calib_err, 1)
        | spec_flag16(pll_calib_err, 2)
        | spec_flag16(adc_calib_err, 3)
        | spec_flag16(img_calib_err, 4)
        | spec_flag16(xosc_start_err, 5)
        | spec_flag16(pll_lock_err, 6)
        | spec_flag16(pa_ramp_err, 8);
    assert(bit16(raw, 0) == rc64k_calib_err
        && bit16(raw, 1) == rc13m_calib_err
        && bit16(raw, 2) == pll_calib_err
        && bit16(raw, 3) == adc_calib_err
        && bit16(raw, 4) == img_calib_err
        && bit16(raw, 5) == xosc_start_err
        && bit16(raw, 6) == pll_lock_err
        && bit16(raw, 8) == pa_ramp_err) by (bit_vector)
        requires
            raw == spec_flag16(rc64k_calib_err, 0)
                | spec_flag16(rc13m_calib_err, 1)
                | spec_flag16(pll_calib_err, 2)
                | spec_flag16(adc_calib_err, 3)
                | spec_flag16(img_calib_err, 4)
                | spec_flag16(xosc_start_err, 5)
                | spec_flag16(pll_lock_err, 6)
                | spec_flag16(pa_ramp_err, 8),
    ;
}

/// Decoding a word and encoding the result keeps the flag bits and clears
/// the reserved ones.
pub proof fn lemma_op_error_reencode(raw: u16)
    ensures
        OpError::spec_from_bits(raw).spec_into_bits() == raw & !OpError::RESERVED,
{
    assert(spec_flag16(bit16(raw, 0), 0)
        | spec_flag16(bit16(raw, 1), 1)
        | spec_flag16(bit16(raw, 2), 2)
        | spec_flag16(bit16(raw, 3), 3)
        | spec_flag16(bit16(raw, 4), 4)
        | spec_flag16(bit16(raw, 5), 5)
        | spec_flag16(bit16(raw, 6), 6)
        | spec_flag16(bit16(raw, 8), 8) == raw & !0xFE80u16)
        by (bit_vector);
}
} // verus!
