//! Wire-level protocol for the Neutron synthesizer's SysEx dialect: the
//! value codecs, the global-setting catalogue and the message envelope's
//! encode side.
//!
//! Every message is a SysEx frame
//! `F0 00 20 32 28 <address> <kind> [payload] F7`: the start marker, the
//! manufacturer identifier, the device-kind byte, the device-address byte,
//! the message-kind opcode, a kind-dependent payload and the end marker.

use vstd::prelude::*;
use vstd::slice::slice_subrange;
use vstd::string::StringExecFns;

verus! {

/// First byte of every SysEx frame.
pub const SYSEX_MESSAGE_START: u8 = 0xf0;

/// Last byte of every SysEx frame.
pub const SYSEX_EOX: u8 = 0xf7;

/// The manufacturer identifier, three bytes in wire order.
pub const BEHRINGER_MANUFACTURER_0: u8 = 0x00;

pub const BEHRINGER_MANUFACTURER_1: u8 = 0x20;

pub const BEHRINGER_MANUFACTURER_2: u8 = 0x32;

/// Device-kind byte identifying the Neutron model.
pub const NEUTRON_DEVICE: u8 = 0x28;

/// Protocol-version byte carried by update and version-report messages.
pub const COMMS_PROTOCOL_V1: u8 = 0x01;

/// Device-address byte that addresses every unit at once.
pub const MULTICAST_DEVICE_ID: u8 = 0x7f;

/// The five fixed bytes that open every frame of this dialect.
pub open spec fn spec_frame_header() -> Seq<u8> {
    seq![0xf0u8, 0x00u8, 0x20u8, 0x32u8, 0x28u8]
}

/// An on/off flag payload.
#[derive(Copy, Clone, Debug, PartialEq)]
pub enum ToggleOption {
    On,
    Off,
}

impl ToggleOption {
    pub open spec fn spec_byte(self) -> u8 {
        match self {
            ToggleOption::On => 0x01,
            ToggleOption::Off => 0x00,
        }
    }

    pub fn as_byte(&self) -> (b: u8)
        ensures
            b == self.spec_byte(),
    {
        match self {
            ToggleOption::On => 0x01,
            ToggleOption::Off => 0x00,
        }
    }
}

/// How two sound sources are combined: a hard switch or a continuous blend.
#[derive(Copy, Clone, Debug, PartialEq)]
pub enum BlendMode {
    Switch,
    Blend,
}

impl BlendMode {
    pub open spec fn spec_byte(self) -> u8 {
        match self {
            BlendMode::Switch => 0x01,
            BlendMode::Blend => 0x00,
        }
    }

    pub fn as_byte(&self) -> (b: u8)
        ensures
            b == self.spec_byte(),
    {
        match self {
            BlendMode::Switch => 0x01,
            BlendMode::Blend => 0x00,
        }
    }
}

/// Oscillator pipe length, or the wide +/- 10 octave range.
#[derive(Copy, Clone, Debug, PartialEq)]
pub enum OscRange {
    ThirtyTwo,
    Sixteen,
    Eight,
    PlusMinusTen,
}

impl OscRange {
    pub open spec fn spec_byte(self) -> u8 {
        match self {
            OscRange::ThirtyTwo => 0x00,
            OscRange::Sixteen => 0x01,
            OscRange::Eight => 0x02,
            OscRange::PlusMinusTen => 0x03,
        }
    }

    pub fn as_byte(&self) -> (b: u8)
        ensures
            b == self.spec_byte(),
    {
        match self {
            OscRange::ThirtyTwo => 0x00,
            OscRange::Sixteen => 0x01,
            OscRange::Eight => 0x02,
            OscRange::PlusMinusTen => 0x03,
        }
    }
}

/// Whether oscillator 2 follows the keyboard or holds its pitch.
#[derive(Copy, Clone, Debug, PartialEq)]
pub enum KeyTrackMode {
    Track,
    Hold,
}

impl KeyTrackMode {
    pub open spec fn spec_byte(self) -> u8 {
        match self {
            KeyTrackMode::Track => 0x00,
            KeyTrackMode::Hold => 0x01,
        }
    }

    pub fn as_byte(&self) -> (b: u8)
        ensures
            b == self.spec_byte(),
    {
        match self {
            KeyTrackMode::Track => 0x00,
            KeyTrackMode::Hold => 0x01,
        }
    }
}

/// Autoglide interval, -12 to +12 semitones, encoded linearly from 0x00.
#[derive(Copy, Clone, Debug, PartialEq)]
pub enum AutoglideSemitones {
    MinusTwelve,
    MinusEleven,
    MinusTen,
    MinusNine,
    MinusEight,
    MinusSeven,
    MinusSix,
    MinusFive,
    MinusFour,
    MinusThree,
    MinusTwo,
    MinusOne,
    Zero,
    PlusOne,
    PlusTwo,
    PlusThree,
    PlusFour,
    PlusFive,
    PlusSix,
    PlusSeven,
    PlusEight,
    PlusNine,
    PlusTen,
    PlusEleven,
    PlusTwelve,
}

impl AutoglideSemitones {
    pub open spec fn spec_byte(self) -> u8 {
        match self {
            AutoglideSemitones::MinusTwelve => 0x00,
            AutoglideSemitones::MinusEleven => 0x01,
            AutoglideSemitones::MinusTen => 0x02,
            AutoglideSemitones::MinusNine => 0x03,
            AutoglideSemitones::MinusEight => 0x04,
            AutoglideSemitones::MinusSeven => 0x05,
            AutoglideSemitones::MinusSix => 0x06,
            AutoglideSemitones::MinusFive => 0x07,
            AutoglideSemitones::MinusFour => 0x08,
            AutoglideSemitones::MinusThree => 0x09,
            AutoglideSemitones::MinusTwo => 0x0a,
            AutoglideSemitones::MinusOne => 0x0b,
            AutoglideSemitones::Zero => 0x0c,
            AutoglideSemitones::PlusOne => 0x0d,
            AutoglideSemitones::PlusTwo => 0x0e,
            AutoglideSemitones::PlusThree => 0x0f,
            AutoglideSemitones::PlusFour => 0x10,
            AutoglideSemitones::PlusFive => 0x11,
            AutoglideSemitones::PlusSix => 0x12,
            AutoglideSemitones::PlusSeven => 0x13,
            AutoglideSemitones::PlusEight => 0x14,
            AutoglideSemitones::PlusNine => 0x15,
            AutoglideSemitones::PlusTen => 0x16,
            AutoglideSemitones::PlusEleven => 0x17,
            AutoglideSemitones::PlusTwelve => 0x18,
        }
    }

    pub fn as_byte(&self) -> (b: u8)
        ensures
            b == self.spec_byte(),
    {
        match self {
            AutoglideSemitones::MinusTwelve => 0x00,
            AutoglideSemitones::MinusEleven => 0x01,
            AutoglideSemitones::MinusTen => 0x02,
            AutoglideSemitones::MinusNine => 0x03,
            AutoglideSemitones::MinusEight => 0x04,
            AutoglideSemitones::MinusSeven => 0x05,
            AutoglideSemitones::MinusSix => 0x06,
            AutoglideSemitones::MinusFive => 0x07,
            AutoglideSemitones::MinusFour => 0x08,
            AutoglideSemitones::MinusThree => 0x09,
            AutoglideSemitones::MinusTwo => 0x0a,
            AutoglideSemitones::MinusOne => 0x0b,
            AutoglideSemitones::Zero => 0x0c,
            AutoglideSemitones::PlusOne => 0x0d,
            AutoglideSemitones::PlusTwo => 0x0e,
            AutoglideSemitones::PlusThree => 0x0f,
            AutoglideSemitones::PlusFour => 0x10,
            AutoglideSemitones::PlusFive => 0x11,
            AutoglideSemitones::PlusSix => 0x12,
            AutoglideSemitones::PlusSeven => 0x13,
            AutoglideSemitones::PlusEight => 0x14,
            AutoglideSemitones::PlusNine => 0x15,
            AutoglideSemitones::PlusTen => 0x16,
            AutoglideSemitones::PlusEleven => 0x17,
            AutoglideSemitones::PlusTwelve => 0x18,
        }
    }
}

/// Which of the five low-frequency-oscillator slots a two-field setting
/// addresses.
#[derive(Copy, Clone, Debug, PartialEq)]
pub enum LfoIndex {
    One,
    Two,
    Three,
    Four,
    Five,
}

impl LfoIndex {
    pub open spec fn spec_byte(self) -> u8 {
        match self {
            LfoIndex::One => 0x00,
            LfoIndex::Two => 0x01,
            LfoIndex::Three => 0x02,
            LfoIndex::Four => 0x03,
            LfoIndex::Five => 0x04,
        }
    }

    pub fn as_byte(&self) -> (b: u8)
        ensures
            b == self.spec_byte(),
    {
        match self {
            LfoIndex::One => 0x00,
            LfoIndex::Two => 0x01,
            LfoIndex::Three => 0x02,
            LfoIndex::Four => 0x03,
            LfoIndex::Five => 0x04,
        }
    }
}

/// Low-frequency-oscillator waveform.
#[derive(Copy, Clone, Debug, PartialEq)]
pub enum LfoShape {
    Sine,
    Triangle,
    FallingSaw,
    Square,
    RisingSaw,
}

impl LfoShape {
    pub open spec fn spec_byte(self) -> u8 {
        match self {
            LfoShape::Sine => 0x00,
            LfoShape::Triangle => 0x01,
            LfoShape::FallingSaw => 0x02,
            LfoShape::Square => 0x03,
            LfoShape::RisingSaw => 0x04,
        }
    }

    pub fn as_byte(&self) -> (b: u8)
        ensures
            b == self.spec_byte(),
    {
        match self {
            LfoShape::Sine => 0x00,
            LfoShape::Triangle => 0x01,
            LfoShape::FallingSaw => 0x02,
            LfoShape::Square => 0x03,
            LfoShape::RisingSaw => 0x04,
        }
    }
}

/// Low-frequency-oscillator phase offset in 45-degree steps.
#[derive(Copy, Clone, Debug, PartialEq)]
pub enum LfoPhaseOffset {
    Zero,
    FourtyFive,
    Ninety,
    HundredThirtyFive,
    HundredEighty,
    TwoHundredTwentyFive,
    TwoHundredSeventy,
    ThreeHundredFifteen,
}

impl LfoPhaseOffset {
    pub open spec fn spec_byte(self) -> u8 {
        match self {
            LfoPhaseOffset::Zero => 0x00,
            LfoPhaseOffset::FourtyFive => 0x01,
            LfoPhaseOffset::Ninety => 0x02,
            LfoPhaseOffset::HundredThirtyFive => 0x03,
            LfoPhaseOffset::HundredEighty => 0x04,
            LfoPhaseOffset::TwoHundredTwentyFive => 0x05,
            LfoPhaseOffset::TwoHundredSeventy => 0x06,
            LfoPhaseOffset::ThreeHundredFifteen => 0x07,
        }
    }

    pub fn as_byte(&self) -> (b: u8)
        ensures
            b == self.spec_byte(),
    {
        match self {
            LfoPhaseOffset::Zero => 0x00,
            LfoPhaseOffset::FourtyFive => 0x01,
            LfoPhaseOffset::Ninety => 0x02,
            LfoPhaseOffset::HundredThirtyFive => 0x03,
            LfoPhaseOffset::HundredEighty => 0x04,
            LfoPhaseOffset::TwoHundredTwentyFive => 0x05,
            LfoPhaseOffset::TwoHundredSeventy => 0x06,
            LfoPhaseOffset::ThreeHundredFifteen => 0x07,
        }
    }
}

/// Source feeding the filter modulation input.
#[derive(Copy, Clone, Debug, PartialEq)]
pub enum ModSource {
    Off,
    AfterTouch,
    ModWheel,
    Velocity,
}

impl ModSource {
    pub open spec fn spec_byte(self) -> u8 {
        match self {
            ModSource::Off => 0x00,
            ModSource::AfterTouch => 0x01,
            ModSource::ModWheel => 0x02,
            ModSource::Velocity => 0x03,
        }
    }

    pub fn as_byte(&self) -> (b: u8)
        ensures
            b == self.spec_byte(),
    {
        match self {
            ModSource::Off => 0x00,
            ModSource::AfterTouch => 0x01,
            ModSource::ModWheel => 0x02,
            ModSource::Velocity => 0x03,
        }
    }
}

/// Signal routed to the assignable output jack.
#[derive(Copy, Clone, Debug, PartialEq)]
pub enum AssignOutOption {
    Osc1,
    Osc2,
    Velocity,
    ModWheel,
    AfterTouch,
}

impl AssignOutOption {
    pub open spec fn spec_byte(self) -> u8 {
        match self {
            AssignOutOption::Osc1 => 0x00,
            AssignOutOption::Osc2 => 0x01,
            AssignOutOption::Velocity => 0x02,
            AssignOutOption::ModWheel => 0x03,
            AssignOutOption::AfterTouch => 0x04,
        }
    }

    pub fn as_byte(&self) -> (b: u8)
        ensures
            b == self.spec_byte(),
    {
        match self {
            AssignOutOption::Osc1 => 0x00,
            AssignOutOption::Osc2 => 0x01,
            AssignOutOption::Velocity => 0x02,
            AssignOutOption::ModWheel => 0x03,
            AssignOutOption::AfterTouch => 0x04,
        }
    }
}

/// Envelope retrigger behaviour for overlapping notes.
#[derive(Copy, Clone, Debug, PartialEq)]
pub enum RetriggerMode {
    Staccato,
    Legato,
}

impl RetriggerMode {
    pub open spec fn spec_byte(self) -> u8 {
        match self {
            RetriggerMode::Staccato => 0x00,
            RetriggerMode::Legato => 0x01,
        }
    }

    pub fn as_byte(&self) -> (b: u8)
        ensures
            b == self.spec_byte(),
    {
        match self {
            RetriggerMode::Staccato => 0x00,
            RetriggerMode::Legato => 0x01,
        }
    }
}

/// A percentage value as the Neutron stores it: 64 discrete levels, with
/// level 0 meaning 0% and level 63 (0x3f) meaning 100%.
#[derive(Copy, Clone, Debug, PartialEq)]
pub struct Percent {
    pub value: u8,
}

impl Percent {
    /// A stored level never exceeds the top level 63.
    pub open spec fn wf(self) -> bool {
        self.value <= 63
    }

    pub open spec fn spec_byte(self) -> u8 {
        self.value
    }

    /// The level a raw byte is taken as: capped at the top level.
    pub open spec fn spec_from_byte(value: u8) -> Percent {
        Percent { value: if value <= 63 { value } else { 63 } }
    }

    /// The level a percentage quantizes to: floor(min(p, 100) / 100 * 63).
    pub open spec fn spec_from_percentage(value: u8) -> Percent {
        Percent { value: ((if value <= 100 { value } else { 100 }) as int * 63 / 100) as u8 }
    }

    pub fn from_byte(value: u8) -> (r: Self)
        ensures
            r == Self::spec_from_byte(value),
            r.wf(),
    {
        Percent { value: if value <= 63 { value } else { 63 } }
    }

    pub fn from_percentage(value: u8) -> (r: Self)
        ensures
            r == Self::spec_from_percentage(value),
            r.wf(),
    {
        let capped: u16 = if value <= 100 { value as u16 } else { 100 };
        Percent { value: (capped * 63 / 100) as u8 }
    }

    pub fn as_byte(&self) -> (b: u8)
        ensures
            b == self.spec_byte(),
    {
        self.value
    }
}

/// One of the sixteen MIDI channels a unit can listen on.
#[derive(Copy, Clone, Debug, PartialEq)]
pub enum Channel {
    One,
    Two,
    Three,
    Four,
    Five,
    Six,
    Seven,
    Eight,
    Nine,
    Ten,
    Eleven,
    Twelve,
    Thirteen,
    Fourteen,
    Fifteen,
    Sixteen,
}

impl Channel {
    /// Zero-based wire byte: channel N encodes as N - 1.
    pub open spec fn spec_byte(self) -> u8 {
        match self {
            Channel::One => 0x00,
            Channel::Two => 0x01,
            Channel::Three => 0x02,
            Channel::Four => 0x03,
            Channel::Five => 0x04,
            Channel::Six => 0x05,
            Channel::Seven => 0x06,
            Channel::Eight => 0x07,
            Channel::Nine => 0x08,
            Channel::Ten => 0x09,
            Channel::Eleven => 0x0a,
            Channel::Twelve => 0x0b,
            Channel::Thirteen => 0x0c,
            Channel::Fourteen => 0x0d,
            Channel::Fifteen => 0x0e,
            Channel::Sixteen => 0x0f,
        }
    }

    fn as_byte(&self) -> (b: u8)
        ensures
            b == self.spec_byte(),
    {
        match self {
            Channel::One => 0x00,
            Channel::Two => 0x01,
            Channel::Three => 0x02,
            Channel::Four => 0x03,
            Channel::Five => 0x04,
            Channel::Six => 0x05,
            Channel::Seven => 0x06,
            Channel::Eight => 0x07,
            Channel::Nine => 0x08,
            Channel::Ten => 0x09,
            Channel::Eleven => 0x0a,
            Channel::Twelve => 0x0b,
            Channel::Thirteen => 0x0c,
            Channel::Fourteen => 0x0d,
            Channel::Fifteen => 0x0e,
            Channel::Sixteen => 0x0f,
        }
    }
}

/// Target or source of a message: one channel, or every unit at once.
#[derive(Copy, Clone, Debug, PartialEq)]
pub enum DeviceId {
    Channel(Channel),
    Multicast,
}

impl DeviceId {
    pub open spec fn spec_byte(self) -> u8 {
        match self {
            DeviceId::Channel(c) => c.spec_byte(),
            DeviceId::Multicast => 0x7f,
        }
    }

    fn as_byte(&self) -> (b: u8)
        ensures
            b == self.spec_byte(),
    {
        match self {
            DeviceId::Channel(c) => c.as_byte(),
            DeviceId::Multicast => 0x7f,
        }
    }
}

/// The closed catalogue of global settings. Each variant owns one parameter
/// opcode; its payload is one byte (a codec value, or an ignored placeholder
/// for the unit variants) or two bytes (slot index, then value).
#[derive(Copy, Clone, Debug, PartialEq)]
pub enum GlobalSetting {
    ParaphonicMode(ToggleOption),
    OscSync(ToggleOption),
    Osc1BlendMode(BlendMode),
    Osc2BlendMode(BlendMode),
    Osc1TunePotBypass(ToggleOption),
    Osc2TunePotBypass(ToggleOption),
    Osc1Range(OscRange),
    Osc2Range(OscRange),
    Osc2KeyTrack(KeyTrackMode),
    Osc1Autoglide(AutoglideSemitones),
    Osc2Autoglide(AutoglideSemitones),
    LfoBlendMode(BlendMode),
    LfoKeySync(ToggleOption),
    LfoOneShot(ToggleOption),
    LfoRetrigger(ToggleOption),
    LfoMidiSync(ToggleOption),
    LfoDepth(Percent),
    LfoShapeOrder(LfoIndex, LfoShape),
    LfoShapePhase(LfoIndex, LfoPhaseOffset),
    LfoResetOrder,
    VcfKeyTracking(ToggleOption),
    VcfModDepth(Percent),
    VcfModSource(ModSource),
    MidiChannel(Channel),
    DisableMidiDips(ToggleOption),
    PolyChainMode(ToggleOption),
    KeyRangeMute(ToggleOption),
    KeyRangeReset,
    AssignOut(AssignOutOption),
    EnvRetriggerMode(RetriggerMode),
}

impl GlobalSetting {
    /// A setting is well formed when its percentage payloads hold a real
    /// level; every other payload is valid by its type alone.
    pub open spec fn wf(self) -> bool {
        match self {
            GlobalSetting::LfoDepth(p) => p.wf(),
            GlobalSetting::VcfModDepth(p) => p.wf(),
            _ => true,
        }
    }

    /// Canonical wire bytes of this setting: its opcode, then its payload.
    /// The unit variants carry a placeholder payload byte that encoders
    /// always write as zero.
    pub open spec fn spec_bytes(self) -> Seq<u8> {
        match self {
            GlobalSetting::ParaphonicMode(t) => seq![0x0fu8, t.spec_byte()],
            GlobalSetting::OscSync(t) => seq![0x0eu8, t.spec_byte()],
            GlobalSetting::Osc1BlendMode(b) => seq![0x20u8, b.spec_byte()],
            GlobalSetting::Osc2BlendMode(b) => seq![0x21u8, b.spec_byte()],
            GlobalSetting::Osc1TunePotBypass(t) => seq![0x22u8, t.spec_byte()],
            GlobalSetting::Osc2TunePotBypass(t) => seq![0x23u8, t.spec_byte()],
            GlobalSetting::Osc1Range(r) => seq![0x26u8, r.spec_byte()],
            GlobalSetting::Osc2Range(r) => seq![0x27u8, r.spec_byte()],
            GlobalSetting::Osc2KeyTrack(k) => seq![0x2au8, k.spec_byte()],
            GlobalSetting::Osc1Autoglide(s) => seq![0x24u8, s.spec_byte()],
            GlobalSetting::Osc2Autoglide(s) => seq![0x25u8, s.spec_byte()],
            GlobalSetting::LfoBlendMode(b) => seq![0x30u8, b.spec_byte()],
            GlobalSetting::LfoKeySync(t) => seq![0x37u8, t.spec_byte()],
            GlobalSetting::LfoOneShot(t) => seq![0x31u8, t.spec_byte()],
            GlobalSetting::LfoRetrigger(t) => seq![0x3bu8, t.spec_byte()],
            GlobalSetting::LfoMidiSync(t) => seq![0x35u8, t.spec_byte()],
            GlobalSetting::LfoDepth(p) => seq![0x34u8, p.spec_byte()],
            GlobalSetting::LfoShapeOrder(i, s) => seq![0x38u8, i.spec_byte(), s.spec_byte()],
            GlobalSetting::LfoShapePhase(i, o) => seq![0x3au8, i.spec_byte(), o.spec_byte()],
            GlobalSetting::LfoResetOrder => seq![0x39u8, 0x00u8],
            GlobalSetting::VcfKeyTracking(t) => seq![0x11u8, t.spec_byte()],
            GlobalSetting::VcfModDepth(p) => seq![0x14u8, p.spec_byte()],
            GlobalSetting::VcfModSource(m) => seq![0x12u8, m.spec_byte()],
            GlobalSetting::MidiChannel(c) => seq![0x00u8, c.spec_byte()],
            GlobalSetting::DisableMidiDips(t) => seq![0x0au8, t.spec_byte()],
            GlobalSetting::PolyChainMode(t) => seq![0x08u8, t.spec_byte()],
            GlobalSetting::KeyRangeMute(t) => seq![0x0bu8, t.spec_byte()],
            GlobalSetting::KeyRangeReset => seq![0x06u8, 0x00u8],
            GlobalSetting::AssignOut(o) => seq![0x04u8, o.spec_byte()],
            GlobalSetting::EnvRetriggerMode(m) => seq![0x05u8, m.spec_byte()],
        }
    }

    /// The dispatch byte this setting is recognized by.
    pub open spec fn spec_opcode(self) -> u8 {
        self.spec_bytes()[0]
    }
}

/// Something that can append its wire encoding to an outgoing buffer.
pub trait ByteBuilder {
    /// The bytes this value appends.
    spec fn spec_build_bytes(&self) -> Seq<u8>;

    fn append_to(&self, buffer: &mut Vec<u8>)
        ensures
            final(buffer)@ == old(buffer)@ + self.spec_build_bytes(),
    ;
}

impl ByteBuilder for GlobalSetting {
    open spec fn spec_build_bytes(&self) -> Seq<u8> {
        self.spec_bytes()
    }

    fn append_to(&self, buffer: &mut Vec<u8>)
        ensures
            final(buffer)@ == old(buffer)@ + self.spec_bytes(),
    {
        match self {
            GlobalSetting::ParaphonicMode(t) => {
                buffer.push(0x0f);
                buffer.push(t.as_byte());
            },
            GlobalSetting::OscSync(t) => {
                buffer.push(0x0e);
                buffer.push(t.as_byte());
            },
            GlobalSetting::Osc1BlendMode(b) => {
                buffer.push(0x20);
                buffer.push(b.as_byte());
            },
            GlobalSetting::Osc2BlendMode(b) => {
                buffer.push(0x21);
                buffer.push(b.as_byte());
            },
            GlobalSetting::Osc1TunePotBypass(t) => {
                buffer.push(0x22);
                buffer.push(t.as_byte());
            },
            GlobalSetting::Osc2TunePotBypass(t) => {
                buffer.push(0x23);
                buffer.push(t.as_byte());
            },
            GlobalSetting::Osc1Range(r) => {
                buffer.push(0x26);
                buffer.push(r.as_byte());
            },
            GlobalSetting::Osc2Range(r) => {
                buffer.push(0x27);
                buffer.push(r.as_byte());
            },
            GlobalSetting::Osc2KeyTrack(k) => {
                buffer.push(0x2a);
                buffer.push(k.as_byte());
            },
            GlobalSetting::Osc1Autoglide(s) => {
                buffer.push(0x24);
                buffer.push(s.as_byte());
            },
            GlobalSetting::Osc2Autoglide(s) => {
                buffer.push(0x25);
                buffer.push(s.as_byte());
            },
            GlobalSetting::LfoBlendMode(b) => {
                buffer.push(0x30);
                buffer.push(b.as_byte());
            },
            GlobalSetting::LfoKeySync(t) => {
                buffer.push(0x37);
                buffer.push(t.as_byte());
            },
            GlobalSetting::LfoOneShot(t) => {
                buffer.push(0x31);
                buffer.push(t.as_byte());
            },
            GlobalSetting::LfoRetrigger(t) => {
                buffer.push(0x3b);
                buffer.push(t.as_byte());
            },
            GlobalSetting::LfoMidiSync(t) => {
                buffer.push(0x35);
                buffer.push(t.as_byte());
            },
            GlobalSetting::LfoDepth(p) => {
                buffer.push(0x34);
                buffer.push(p.as_byte());
            },
            GlobalSetting::LfoShapeOrder(i, s) => {
                buffer.push(0x38);
                buffer.push(i.as_byte());
                buffer.push(s.as_byte());
            },
            GlobalSetting::LfoShapePhase(i, o) => {
                buffer.push(0x3a);
                buffer.push(i.as_byte());
                buffer.push(o.as_byte());
            },
            GlobalSetting::LfoResetOrder => {
                buffer.push(0x39);
                buffer.push(0x00);
            },
            GlobalSetting::VcfKeyTracking(t) => {
                buffer.push(0x11);
                buffer.push(t.as_byte());
            },
            GlobalSetting::VcfModDepth(p) => {
                buffer.push(0x14);
                buffer.push(p.as_byte());
            },
            GlobalSetting::VcfModSource(m) => {
                buffer.push(0x12);
                buffer.push(m.as_byte());
            },
            GlobalSetting::MidiChannel(c) => {
                buffer.push(0x00);
                buffer.push(c.as_byte());
            },
            GlobalSetting::DisableMidiDips(t) => {
                buffer.push(0x0a);
                buffer.push(t.as_byte());
            },
            GlobalSetting::PolyChainMode(t) => {
                buffer.push(0x08);
                buffer.push(t.as_byte());
            },
            GlobalSetting::KeyRangeMute(t) => {
                buffer.push(0x0b);
                buffer.push(t.as_byte());
            },
            GlobalSetting::KeyRangeReset => {
                buffer.push(0x06);
                buffer.push(0x00);
            },
            GlobalSetting::AssignOut(o) => {
                buffer.push(0x04);
                buffer.push(o.as_byte());
            },
            GlobalSetting::EnvRetriggerMode(m) => {
                buffer.push(0x05);
                buffer.push(m.as_byte());
            },
        }
        proof {
            assert(buffer@ =~= old(buffer)@ + self.spec_bytes());
        }
    }
}

/// Mathematical shape of a message: the same variants as [`NeutronMessage`],
/// with the version text abstracted to its character sequence.
pub enum MessageModel {
    SetGlobalSetting(DeviceId, GlobalSetting),
    RestoreGlobalSetting(DeviceId),
    SoftwareVersionRequest(DeviceId),
    SoftwareVersionResponse(DeviceId, Seq<char>),
    GlobalSettingUpdate(DeviceId, GlobalSetting),
}

impl MessageModel {
    /// Valid messages: settings are well formed, and a version text is a
    /// non-empty run of ASCII characters (the wire carries it as single
    /// data bytes below 0x80).
    pub open spec fn wf(self) -> bool {
        match self {
            MessageModel::SetGlobalSetting(_, s) => s.wf(),
            MessageModel::RestoreGlobalSetting(_) => true,
            MessageModel::SoftwareVersionRequest(_) => true,
            MessageModel::SoftwareVersionResponse(_, v) => v.len() >= 1
                && vstd::utf8::is_ascii_chars(v),
            MessageModel::GlobalSettingUpdate(_, s) => s.wf(),
        }
    }

    /// Canonical wire bytes of a message.
    pub open spec fn spec_bytes(self) -> Seq<u8> {
        match self {
            MessageModel::SetGlobalSetting(id, s) => spec_frame_header() + seq![
                id.spec_byte(),
                0x0au8,
            ] + s.spec_bytes() + seq![0xf7u8],
            MessageModel::RestoreGlobalSetting(id) => spec_frame_header() + seq![
                id.spec_byte(),
                0x0bu8,
                0xf7u8,
            ],
            MessageModel::SoftwareVersionRequest(id) => spec_frame_header() + seq![
                id.spec_byte(),
                0x73u8,
                0xf7u8,
            ],
            MessageModel::SoftwareVersionResponse(id, v) => spec_frame_header() + seq![
                id.spec_byte(),
                0x74u8,
                0x01u8,
            ] + v.map_values(|c: char| c as u8) + seq![0xf7u8],
            MessageModel::GlobalSettingUpdate(id, s) => spec_frame_header() + seq![
                id.spec_byte(),
                0x5au8,
                0x01u8,
            ] + s.spec_bytes() + seq![0xf7u8],
        }
    }
}

/// A complete protocol message: a command to a unit, or a notification or
/// response coming back from one.
#[derive(Debug, PartialEq)]
pub enum NeutronMessage {
    SetGlobalSetting(DeviceId, GlobalSetting),
    RestoreGlobalSetting(DeviceId),
    SoftwareVersionRequest(DeviceId),
    SoftwareVersionResponse(DeviceId, String),
    GlobalSettingUpdate(DeviceId, GlobalSetting),
}

impl View for NeutronMessage {
    type V = MessageModel;

    open spec fn view(&self) -> MessageModel {
        match self {
            NeutronMessage::SetGlobalSetting(id, s) => MessageModel::SetGlobalSetting(*id, *s),
            NeutronMessage::RestoreGlobalSetting(id) => MessageModel::RestoreGlobalSetting(*id),
            NeutronMessage::SoftwareVersionRequest(id) => MessageModel::SoftwareVersionRequest(
                *id,
            ),
            NeutronMessage::SoftwareVersionResponse(id, v) => {
                MessageModel::SoftwareVersionResponse(*id, v@)
            },
            NeutronMessage::GlobalSettingUpdate(id, s) => MessageModel::GlobalSettingUpdate(
                *id,
                *s,
            ),
        }
    }
}

impl NeutronMessage {
    pub open spec fn wf(self) -> bool {
        self@.wf()
    }

    /// Encode this message as the exact frame the hardware expects.
    pub fn as_bytes(&self) -> (r: Vec<u8>)
        requires
            self.wf(),
        ensures
            r@ == self@.spec_bytes(),
    {
        let mut bytes: Vec<u8> = Vec::new();
        bytes.push(SYSEX_MESSAGE_START);
        bytes.push(BEHRINGER_MANUFACTURER_0);
        bytes.push(BEHRINGER_MANUFACTURER_1);
        bytes.push(BEHRINGER_MANUFACTURER_2);
        bytes.push(NEUTRON_DEVICE);
        match self {
            NeutronMessage::SetGlobalSetting(id, c) => {
                bytes.push(id.as_byte());
                bytes.push(0x0a);
                c.append_to(&mut bytes);
            },
            NeutronMessage::RestoreGlobalSetting(id) => {
                bytes.push(id.as_byte());
                bytes.push(0x0b);
            },
            NeutronMessage::SoftwareVersionRequest(id) => {
                bytes.push(id.as_byte());
                bytes.push(0x73);
            },
            NeutronMessage::SoftwareVersionResponse(id, v) => {
                bytes.push(id.as_byte());
                bytes.push(0x74);
                bytes.push(COMMS_PROTOCOL_V1);
                proof {
                    vstd::utf8::is_ascii_chars_encode_utf8(v@);
                }
                bytes.extend_from_slice(v.as_str().as_bytes());
            },
            NeutronMessage::GlobalSettingUpdate(id, c) => {
                bytes.push(id.as_byte());
                bytes.push(0x5a);
                bytes.push(COMMS_PROTOCOL_V1);
                c.append_to(&mut bytes);
            },
        }
        bytes.push(SYSEX_EOX);
        proof {
            assert(bytes@ =~= self@.spec_bytes());
        }
        bytes
    }
}

/// The lowercase hex digit of a nibble.
pub open spec fn spec_hex_digit(n: u8) -> char
    recommends
        n < 16,
{
    if n < 10 {
        (('0' as u8) + n) as char
    } else {
        (('a' as u8) + (n - 10)) as char
    }
}

/// The lowercase hex rendering of a byte sequence: two digits per byte,
/// high nibble first.
pub open spec fn spec_hex(bytes: Seq<u8>) -> Seq<char>
    decreases bytes.len(),
{
    if bytes.len() == 0 {
        Seq::empty()
    } else {
        seq![
            spec_hex_digit(bytes[0] / 16),
            spec_hex_digit(bytes[0] % 16),
        ] + spec_hex(bytes.drop_first())
    }
}

/// Relies on hex::encode: each input byte becomes two lowercase hex
/// digits, high nibble first.
#[verifier::external_body]
fn hex_encode(bytes: &[u8]) -> (r: String)
    ensures
        r@ == spec_hex(bytes@),
{
    hex::encode(bytes)
}

/// Render a raw buffer as lowercase hex. This is the fallback for buffers
/// that fail to decode; it succeeds on every input.
pub fn fallback_hex(bytes: &[u8]) -> (r: String)
    ensures
        r@ == spec_hex(bytes@),
{
    hex_encode(bytes)
}

/// A buffer framed as SysEx and carrying the manufacturer identifier.
pub open spec fn spec_is_behringer(bytes: Seq<u8>) -> bool {
    &&& bytes.len() >= 5
    &&& bytes[0] == 0xf0
    &&& bytes.last() == 0xf7
    &&& bytes[1] == 0x00
    &&& bytes[2] == 0x20
    &&& bytes[3] == 0x32
}

pub fn is_behringer_packet(bytes: &[u8]) -> (r: bool)
    ensures
        r == spec_is_behringer(bytes@),
{
    bytes.len() >= 5 && bytes[0] == 0xf0 && bytes[bytes.len() - 1] == 0xf7 && bytes[1] == 0x00
        && bytes[2] == 0x20 && bytes[3] == 0x32
}

/// The report line for a manufacturer packet: the device-kind byte, either
/// recognized as the Neutron or shown in hex, followed by the rest of the
/// packet in hex.
pub open spec fn spec_behringer_report(bytes: Seq<u8>) -> Seq<char> {
    "B[ "@ + (if bytes[4] == 0x28 {
        "N "@ + spec_hex(bytes.skip(5))
    } else {
        spec_hex(seq![bytes[4]]) + " "@ + spec_hex(bytes.skip(5))
    }) + " ]"@
}

pub fn format_behringer_packet(bytes: &[u8]) -> (r: String)
    requires
        bytes@.len() >= 5,
    ensures
        r@ == spec_behringer_report(bytes@),
{
    let device = bytes[4];
    let mut buffer = String::from_str("B[ ");
    let rest = hex_encode(slice_subrange(bytes, 5, bytes.len()));
    proof {
        assert(bytes@.subrange(5, bytes@.len() as int) =~= bytes@.skip(5));
    }
    if device == NEUTRON_DEVICE {
        buffer.append("N ");
        buffer.append(rest.as_str());
    } else {
        let device_hex = hex_encode(slice_subrange(bytes, 4, 5));
        proof {
            assert(bytes@.subrange(4, 5) =~= seq![bytes@[4]]);
        }
        buffer.append(device_hex.as_str());
        buffer.append(" ");
        buffer.append(rest.as_str());
    }
    buffer.append(" ]");
    proof {
        assert(buffer@ =~= spec_behringer_report(bytes@));
    }
    buffer
}

/// The frame a command payload is wrapped in: the header, the multicast
/// address and the set-parameter opcode in front, the terminator behind.
pub open spec fn spec_wrapped(payload: Seq<u8>) -> Seq<u8> {
    seq![0xf0u8, 0x00u8, 0x20u8, 0x32u8, 0x28u8, 0x7fu8, 0x0au8] + payload + seq![0xf7u8]
}

/// Wrap a set-parameter payload as a complete multicast frame.
pub fn wrap_message(message: Vec<u8>) -> (r: Vec<u8>)
    ensures
        r@ == spec_wrapped(message@),
{
    let mut wrapped_message: Vec<u8> = Vec::new();
    wrapped_message.push(SYSEX_MESSAGE_START);
    wrapped_message.push(BEHRINGER_MANUFACTURER_0);
    wrapped_message.push(BEHRINGER_MANUFACTURER_1);
    wrapped_message.push(BEHRINGER_MANUFACTURER_2);
    wrapped_message.push(NEUTRON_DEVICE);
    wrapped_message.push(MULTICAST_DEVICE_ID);
    wrapped_message.push(0x0a);
    wrapped_message.extend_from_slice(message.as_slice());
    wrapped_message.push(SYSEX_EOX);
    proof {
        assert(wrapped_message@ =~= spec_wrapped(message@));
    }
    wrapped_message
}

} // verus!
