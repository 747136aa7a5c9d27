//! Registers of the device: each has a fixed 16-bit address and a one-byte
//! value with its own decoding.
use vstd::prelude::*;

verus! {

/// A register at a fixed address whose value is one byte on the wire.
pub trait Register: Sized + Copy {
    /// The address of the register.
    spec fn spec_address() -> u16;

    fn address() -> (r: u16)
        ensures
            r == Self::spec_address(),
    ;

    /// The byte that encodes this value.
    spec fn spec_bits(&self) -> u8;

    /// The value that the byte `bits` decodes to.
    spec fn spec_from_bits(bits: u8) -> Self;

    fn bits(&self) -> (r: u8)
        ensures
            r == self.spec_bits(),
    ;

    fn from_bits(bits: u8) -> (r: Self)
        ensures
            r == Self::spec_from_bits(bits),
    ;

    /// Decoding the byte that encodes a value gives the value back.
    proof fn lemma_round_trip(v: Self)
        ensures
            Self::spec_from_bits(v.spec_bits()) == v,
    ;
}

/// For every register, decoding the byte that encodes a value gives the
/// value back.
pub proof fn lemma_register_round_trip<R: Register>(v: R)
    ensures
        R::spec_from_bits(v.spec_bits()) == v,
{
    R::lemma_round_trip(v);
}

/// Most significant byte of the LoRa sync word.
#[derive(Clone, Copy, PartialEq, Eq, Structural, Debug)]
pub struct LoraSyncWordMsb(pub u8);

impl Register for LoraSyncWordMsb {
    open spec fn spec_address() -> u16 {
        0x0740
    }

    fn address() -> (r: u16) {
        0x0740
    }

    open spec fn spec_bits(&self) -> u8 {
        self.0
    }

    open spec fn spec_from_bits(bits: u8) -> Self {
        LoraSyncWordMsb(bits)
    }

    fn bits(&self) -> (r: u8) {
        self.0
    }

    fn from_bits(bits: u8) -> (r: Self) {
        LoraSyncWordMsb(bits)
    }

    proof fn lemma_round_trip(v: Self) {
    }
}

/// Least significant byte of the LoRa sync word.
#[derive(Clone, Copy, PartialEq, Eq, Structural, Debug)]
pub struct LoraSyncWordLsb(pub u8);

impl Register for LoraSyncWordLsb {
    open spec fn spec_address() -> u16 {
        0x0741
    }

    fn address() -> (r: u16) {
        0x0741
    }

    open spec fn spec_bits(&self) -> u8 {
        self.0
    }

    open spec fn spec_from_bits(bits: u8) -> Self {
        LoraSyncWordLsb(bits)
    }

    fn bits(&self) -> (r: u8) {
        self.0
    }

    fn from_bits(bits: u8) -> (r: Self) {
        LoraSyncWordLsb(bits)
    }

    proof fn lemma_round_trip(v: Self) {
    }
}

/// First byte of the random number generator's output.
#[derive(Clone, Copy, PartialEq, Eq, Structural, Debug)]
pub struct RandomNumberGen0(pub u8);

impl Register for RandomNumberGen0 {
    open spec fn spec_address() -> u16 {
        0x0819
    }

    fn address() -> (r: u16) {
        0x0819
    }

    open spec fn spec_bits(&self) -> u8 {
        self.0
    }

    open spec fn spec_from_bits(bits: u8) -> Self {
        RandomNumberGen0(bits)
    }

    fn bits(&self) -> (r: u8) {
        self.0
    }

    fn from_bits(bits: u8) -> (r: Self) {
        RandomNumberGen0(bits)
    }

    proof fn lemma_round_trip(v: Self) {
    }
}

/// Receiver gain setting.
#[derive(Clone, Copy, PartialEq, Eq, Structural, Debug)]
pub struct RxGain(pub RxGainSetting);

impl Register for RxGain {
    open spec fn spec_address() -> u16 {
        0x08AC
    }

    fn address() -> (r: u16) {
        0x08AC
    }

    open spec fn spec_bits(&self) -> u8 {
        self.0.spec_bits()
    }

    open spec fn spec_from_bits(bits: u8) -> Self {
        RxGain(RxGainSetting::spec_from(bits))
    }

    fn bits(&self) -> (r: u8) {
        self.0.bits()
    }

    fn from_bits(bits: u8) -> (r: Self) {
        RxGain(RxGainSetting::from(bits))
    }

    proof fn lemma_round_trip(v: Self) {
    }
}

/// The values of the receiver gain register. Any byte other than the two
/// documented settings reads as `Unknown`, which writes as zero.
#[derive(Clone, Copy, PartialEq, Eq, Structural, Debug)]
pub enum RxGainSetting {
    Unknown,
    /// Power saving gain.
    PowerSaving,
    /// Boosted gain.
    Boosted,
}

impl RxGainSetting {
    pub open spec fn spec_bits(self) -> u8 {
        match self {
            RxGainSetting::Unknown => 0x00,
            RxGainSetting::PowerSaving => 0x94,
            RxGainSetting::Boosted => 0x96,
        }
    }

    pub open spec fn spec_from(value: u8) -> RxGainSetting {
        if value == 0x94 {
            RxGainSetting::PowerSaving
        } else if value == 0x96 {
            RxGainSetting::Boosted
        } else {
            RxGainSetting::Unknown
        }
    }

    #[verifier::when_used_as_spec(spec_bits)]
    pub fn bits(self) -> (r: u8)
        ensures
            r == self.spec_bits(),
    {
        match self {
            RxGainSetting::Unknown => 0x00,
            RxGainSetting::PowerSaving => 0x94,
            RxGainSetting::Boosted => 0x96,
        }
    }

    pub fn from(value: u8) -> (r: RxGainSetting)
        ensures
            r == RxGainSetting::spec_from(value),
    {
        match value {
            0x94 => RxGainSetting::PowerSaving,
            0x96 => RxGainSetting::Boosted,
            _ => RxGainSetting::Unknown,
        }
    }
}

/// First byte of the receiver gain retention settings.
#[derive(Clone, Copy, PartialEq, Eq, Structural, Debug)]
pub struct RxGainRetention0(pub u8);

impl Register for RxGainRetention0 {
    open spec fn spec_address() -> u16 {
        0x029F
    }

    fn address() -> (r: u16) {
        0x029F
    }

    open spec fn spec_bits(&self) -> u8 {
        self.0
    }

    open spec fn spec_from_bits(bits: u8) -> Self {
        RxGainRetention0(bits)
    }

    fn bits(&self) -> (r: u8) {
        self.0
    }

    fn from_bits(bits: u8) -> (r: Self) {
        RxGainRetention0(bits)
    }

    proof fn lemma_round_trip(v: Self) {
    }
}

/// Second byte of the receiver gain retention settings.
#[derive(Clone, Copy, PartialEq, Eq, Structural, Debug)]
pub struct RxGainRetention1(pub u8);

impl Register for RxGainRetention1 {
    open spec fn spec_address() -> u16 {
        0x02A0
    }

    fn address() -> (r: u16) {
        0x02A0
    }

    open spec fn spec_bits(&self) -> u8 {
        self.0
    }

    open spec fn spec_from_bits(bits: u8) -> Self {
        RxGainRetention1(bits)
    }

    fn bits(&self) -> (r: u8) {
        self.0
    }

    fn from_bits(bits: u8) -> (r: Self) {
        RxGainRetention1(bits)
    }

    proof fn lemma_round_trip(v: Self) {
    }
}

/// Third byte of the receiver gain retention settings.
#[derive(Clone, Copy, PartialEq, Eq, Structural, Debug)]
pub struct RxGainRetention2(pub u8);

impl Register for RxGainRetention2 {
    open spec fn spec_address() -> u16 {
        0x02A1
    }

    fn address() -> (r: u16) {
        0x02A1
    }

    open spec fn spec_bits(&self) -> u8 {
        self.0
    }

    open spec fn spec_from_bits(bits: u8) -> Self {
        RxGainRetention2(bits)
    }

    fn bits(&self) -> (r: u8) {
        self.0
    }

    fn from_bits(bits: u8) -> (r: Self) {
        RxGainRetention2(bits)
    }

    proof fn lemma_round_trip(v: Self) {
    }
}

/// For the registers that hold a plain byte, every byte read back from the
/// device encodes again to the same byte.
pub proof fn lemma_byte_registers_keep_bytes(b: u8)
    ensures
        LoraSyncWordMsb::spec_from_bits(b).spec_bits() == b,
        LoraSyncWordLsb::spec_from_bits(b).spec_bits() == b,
        RandomNumberGen0::spec_from_bits(b).spec_bits() == b,
        RxGainRetention0::spec_from_bits(b).spec_bits() == b,
        RxGainRetention1::spec_from_bits(b).spec_bits() == b,
        RxGainRetention2::spec_from_bits(b).spec_bits() == b,
{
}

} // verus!
