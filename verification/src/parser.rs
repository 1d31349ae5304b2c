//! Decoding of raw SysEx buffers into protocol values: the byte-level value
//! codecs, the global-setting catalogue dispatch and the message envelope.
//!
//! Each exec decoder is proved equal to a spec-level description of the wire
//! format, so the contracts pin down the accepted language exactly: a buffer
//! decodes successfully if and only if the specification says so, and every
//! rejected buffer carries the error class the specification assigns to it.

use crate::protocol::AssignOutOption;
use crate::protocol::AutoglideSemitones;
use crate::protocol::BlendMode;
use crate::protocol::Channel;
use crate::protocol::DeviceId;
use crate::protocol::GlobalSetting;
use crate::protocol::KeyTrackMode;
use crate::protocol::LfoIndex;
use crate::protocol::LfoPhaseOffset;
use crate::protocol::LfoShape;
use crate::protocol::MessageModel;
use crate::protocol::ModSource;
use crate::protocol::NeutronMessage;
use crate::protocol::OscRange;
use crate::protocol::Percent;
use crate::protocol::RetriggerMode;
use crate::protocol::ToggleOption;
use vstd::prelude::*;
use vstd::slice::slice_subrange;

verus! {

/// Why a buffer failed to decode.
#[derive(Copy, Clone, Debug, PartialEq, Eq)]
pub enum DecodeError {
    /// A fixed literal byte (start marker, manufacturer id, device kind,
    /// terminator) does not match.
    StructuralMismatch,
    /// The message-kind or parameter opcode is not in the dispatch table.
    UnknownOpcode,
    /// A byte inside a known field lies outside that field's valid range.
    InvalidEnumValue,
    /// The buffer ends before a required field was read.
    TruncatedInput,
    /// The payload is complete but bytes remain before or after the
    /// terminator.
    TrailingBytes,
}

/// What an on/off payload byte decodes to.
pub open spec fn spec_toggle_option(b: u8) -> Option<ToggleOption> {
    if b == 0x00 {
        Some(ToggleOption::Off)
    } else if b == 0x01 {
        Some(ToggleOption::On)
    } else {
        None
    }
}

pub fn toggle_option(b: u8) -> (r: Option<ToggleOption>)
    ensures
        r == spec_toggle_option(b),
{
    if b == 0x00 {
        Some(ToggleOption::Off)
    } else if b == 0x01 {
        Some(ToggleOption::On)
    } else {
        None
    }
}

pub open spec fn spec_blend_mode(b: u8) -> Option<BlendMode> {
    if b == 0x00 {
        Some(BlendMode::Blend)
    } else if b == 0x01 {
        Some(BlendMode::Switch)
    } else {
        None
    }
}

pub fn blend_mode(b: u8) -> (r: Option<BlendMode>)
    ensures
        r == spec_blend_mode(b),
{
    if b == 0x00 {
        Some(BlendMode::Blend)
    } else if b == 0x01 {
        Some(BlendMode::Switch)
    } else {
        None
    }
}

pub open spec fn spec_retrigger_mode(b: u8) -> Option<RetriggerMode> {
    if b == 0x00 {
        Some(RetriggerMode::Staccato)
    } else if b == 0x01 {
        Some(RetriggerMode::Legato)
    } else {
        None
    }
}

pub fn retrigger_mode(b: u8) -> (r: Option<RetriggerMode>)
    ensures
        r == spec_retrigger_mode(b),
{
    if b == 0x00 {
        Some(RetriggerMode::Staccato)
    } else if b == 0x01 {
        Some(RetriggerMode::Legato)
    } else {
        None
    }
}

pub open spec fn spec_osc_range(b: u8) -> Option<OscRange> {
    if b == 0x00 {
        Some(OscRange::ThirtyTwo)
    } else if b == 0x01 {
        Some(OscRange::Sixteen)
    } else if b == 0x02 {
        Some(OscRange::Eight)
    } else if b == 0x03 {
        Some(OscRange::PlusMinusTen)
    } else {
        None
    }
}

pub fn osc_range(b: u8) -> (r: Option<OscRange>)
    ensures
        r == spec_osc_range(b),
{
    if b == 0x00 {
        Some(OscRange::ThirtyTwo)
    } else if b == 0x01 {
        Some(OscRange::Sixteen)
    } else if b == 0x02 {
        Some(OscRange::Eight)
    } else if b == 0x03 {
        Some(OscRange::PlusMinusTen)
    } else {
        None
    }
}

pub open spec fn spec_key_track_mode(b: u8) -> Option<KeyTrackMode> {
    if b == 0x00 {
        Some(KeyTrackMode::Track)
    } else if b == 0x01 {
        Some(KeyTrackMode::Hold)
    } else {
        None
    }
}

pub fn key_track_mode(b: u8) -> (r: Option<KeyTrackMode>)
    ensures
        r == spec_key_track_mode(b),
{
    if b == 0x00 {
        Some(KeyTrackMode::Track)
    } else if b == 0x01 {
        Some(KeyTrackMode::Hold)
    } else {
        None
    }
}

pub open spec fn spec_autoglide_semitones(b: u8) -> Option<AutoglideSemitones> {
    if b == 0x00 {
        Some(AutoglideSemitones::MinusTwelve)
    } else if b == 0x01 {
        Some(AutoglideSemitones::MinusEleven)
    } else if b == 0x02 {
        Some(AutoglideSemitones::MinusTen)
    } else if b == 0x03 {
        Some(AutoglideSemitones::MinusNine)
    } else if b == 0x04 {
        Some(AutoglideSemitones::MinusEight)
    } else if b == 0x05 {
        Some(AutoglideSemitones::MinusSeven)
    } else if b == 0x06 {
        Some(AutoglideSemitones::MinusSix)
    } else if b == 0x07 {
        Some(AutoglideSemitones::MinusFive)
    } else if b == 0x08 {
        Some(AutoglideSemitones::MinusFour)
    } else if b == 0x09 {
        Some(AutoglideSemitones::MinusThree)
    } else if b == 0x0a {
        Some(AutoglideSemitones::MinusTwo)
    } else if b == 0x0b {
        Some(AutoglideSemitones::MinusOne)
    } else if b == 0x0c {
        Some(AutoglideSemitones::Zero)
    } else if b == 0x0d {
        Some(AutoglideSemitones::PlusOne)
    } else if b == 0x0e {
        Some(AutoglideSemitones::PlusTwo)
    } else if b == 0x0f {
        Some(AutoglideSemitones::PlusThree)
    } else if b == 0x10 {
        Some(AutoglideSemitones::PlusFour)
    } else if b == 0x11 {
        Some(AutoglideSemitones::PlusFive)
    } else if b == 0x12 {
        Some(AutoglideSemitones::PlusSix)
    } else if b == 0x13 {
        Some(AutoglideSemitones::PlusSeven)
    } else if b == 0x14 {
        Some(AutoglideSemitones::PlusEight)
    } else if b == 0x15 {
        Some(AutoglideSemitones::PlusNine)
    } else if b == 0x16 {
        Some(AutoglideSemitones::PlusTen)
    } else if b == 0x17 {
        Some(AutoglideSemitones::PlusEleven)
    } else if b == 0x18 {
        Some(AutoglideSemitones::PlusTwelve)
    } else {
        None
    }
}

pub fn autoglide_semitones(b: u8) -> (r: Option<AutoglideSemitones>)
    ensures
        r == spec_autoglide_semitones(b),
{
    if b == 0x00 {
        Some(AutoglideSemitones::MinusTwelve)
    } else if b == 0x01 {
        Some(AutoglideSemitones::MinusEleven)
    } else if b == 0x02 {
        Some(AutoglideSemitones::MinusTen)
    } else if b == 0x03 {
        Some(AutoglideSemitones::MinusNine)
    } else if b == 0x04 {
        Some(AutoglideSemitones::MinusEight)
    } else if b == 0x05 {
        Some(AutoglideSemitones::MinusSeven)
    } else if b == 0x06 {
        Some(AutoglideSemitones::MinusSix)
    } else if b == 0x07 {
        Some(AutoglideSemitones::MinusFive)
    } else if b == 0x08 {
        Some(AutoglideSemitones::MinusFour)
    } else if b == 0x09 {
        Some(AutoglideSemitones::MinusThree)
    } else if b == 0x0a {
        Some(AutoglideSemitones::MinusTwo)
    } else if b == 0x0b {
        Some(AutoglideSemitones::MinusOne)
    } else if b == 0x0c {
        Some(AutoglideSemitones::Zero)
    } else if b == 0x0d {
        Some(AutoglideSemitones::PlusOne)
    } else if b == 0x0e {
        Some(AutoglideSemitones::PlusTwo)
    } else if b == 0x0f {
        Some(AutoglideSemitones::PlusThree)
    } else if b == 0x10 {
        Some(AutoglideSemitones::PlusFour)
    } else if b == 0x11 {
        Some(AutoglideSemitones::PlusFive)
    } else if b == 0x12 {
        Some(AutoglideSemitones::PlusSix)
    } else if b == 0x13 {
        Some(AutoglideSemitones::PlusSeven)
    } else if b == 0x14 {
        Some(AutoglideSemitones::PlusEight)
    } else if b == 0x15 {
        Some(AutoglideSemitones::PlusNine)
    } else if b == 0x16 {
        Some(AutoglideSemitones::PlusTen)
    } else if b == 0x17 {
        Some(AutoglideSemitones::PlusEleven)
    } else if b == 0x18 {
        Some(AutoglideSemitones::PlusTwelve)
    } else {
        None
    }
}

pub open spec fn spec_lfo_index(b: u8) -> Option<LfoIndex> {
    if b == 0x00 {
        Some(LfoIndex::One)
    } else if b == 0x01 {
        Some(LfoIndex::Two)
    } else if b == 0x02 {
        Some(LfoIndex::Three)
    } else if b == 0x03 {
        Some(LfoIndex::Four)
    } else if b == 0x04 {
        Some(LfoIndex::Five)
    } else {
        None
    }
}

pub fn lfo_index(b: u8) -> (r: Option<LfoIndex>)
    ensures
        r == spec_lfo_index(b),
{
    if b == 0x00 {
        Some(LfoIndex::One)
    } else if b == 0x01 {
        Some(LfoIndex::Two)
    } else if b == 0x02 {
        Some(LfoIndex::Three)
    } else if b == 0x03 {
        Some(LfoIndex::Four)
    } else if b == 0x04 {
        Some(LfoIndex::Five)
    } else {
        None
    }
}

pub open spec fn spec_lfo_shape(b: u8) -> Option<LfoShape> {
    if b == 0x00 {
        Some(LfoShape::Sine)
    } else if b == 0x01 {
        Some(LfoShape::Triangle)
    } else if b == 0x02 {
        Some(LfoShape::FallingSaw)
    } else if b == 0x03 {
        Some(LfoShape::Square)
    } else if b == 0x04 {
        Some(LfoShape::RisingSaw)
    } else {
        None
    }
}

pub fn lfo_shape(b: u8) -> (r: Option<LfoShape>)
    ensures
        r == spec_lfo_shape(b),
{
    if b == 0x00 {
        Some(LfoShape::Sine)
    } else if b == 0x01 {
        Some(LfoShape::Triangle)
    } else if b == 0x02 {
        Some(LfoShape::FallingSaw)
    } else if b == 0x03 {
        Some(LfoShape::Square)
    } else if b == 0x04 {
        Some(LfoShape::RisingSaw)
    } else {
        None
    }
}

pub open spec fn spec_lfo_phase_offset(b: u8) -> Option<LfoPhaseOffset> {
    if b == 0x00 {
        Some(LfoPhaseOffset::Zero)
    } else if b == 0x01 {
        Some(LfoPhaseOffset::FourtyFive)
    } else if b == 0x02 {
        Some(LfoPhaseOffset::Ninety)
    } else if b == 0x03 {
        Some(LfoPhaseOffset::HundredThirtyFive)
    } else if b == 0x04 {
        Some(LfoPhaseOffset::HundredEighty)
    } else if b == 0x05 {
        Some(LfoPhaseOffset::TwoHundredTwentyFive)
    } else if b == 0x06 {
        Some(LfoPhaseOffset::TwoHundredSeventy)
    } else if b == 0x07 {
        Some(LfoPhaseOffset::ThreeHundredFifteen)
    } else {
        None
    }
}

pub fn lfo_phase_offset(b: u8) -> (r: Option<LfoPhaseOffset>)
    ensures
        r == spec_lfo_phase_offset(b),
{
    if b == 0x00 {
        Some(LfoPhaseOffset::Zero)
    } else if b == 0x01 {
        Some(LfoPhaseOffset::FourtyFive)
    } else if b == 0x02 {
        Some(LfoPhaseOffset::Ninety)
    } else if b == 0x03 {
        Some(LfoPhaseOffset::HundredThirtyFive)
    } else if b == 0x04 {
        Some(LfoPhaseOffset::HundredEighty)
    } else if b == 0x05 {
        Some(LfoPhaseOffset::TwoHundredTwentyFive)
    } else if b == 0x06 {
        Some(LfoPhaseOffset::TwoHundredSeventy)
    } else if b == 0x07 {
        Some(LfoPhaseOffset::ThreeHundredFifteen)
    } else {
        None
    }
}

pub open spec fn spec_mod_source(b: u8) -> Option<ModSource> {
    if b == 0x00 {
        Some(ModSource::Off)
    } else if b == 0x01 {
        Some(ModSource::AfterTouch)
    } else if b == 0x02 {
        Some(ModSource::ModWheel)
    } else if b == 0x03 {
        Some(ModSource::Velocity)
    } else {
        None
    }
}

pub fn mod_source(b: u8) -> (r: Option<ModSource>)
    ensures
        r == spec_mod_source(b),
{
    if b == 0x00 {
        Some(ModSource::Off)
    } else if b == 0x01 {
        Some(ModSource::AfterTouch)
    } else if b == 0x02 {
        Some(ModSource::ModWheel)
    } else if b == 0x03 {
        Some(ModSource::Velocity)
    } else {
        None
    }
}

pub open spec fn spec_assign_out_option(b: u8) -> Option<AssignOutOption> {
    if b == 0x00 {
        Some(AssignOutOption::Osc1)
    } else if b == 0x01 {
        Some(AssignOutOption::Osc2)
    } else if b == 0x02 {
        Some(AssignOutOption::Velocity)
    } else if b == 0x03 {
        Some(AssignOutOption::ModWheel)
    } else if b == 0x04 {
        Some(AssignOutOption::AfterTouch)
    } else {
        None
    }
}

pub fn assign_out_option(b: u8) -> (r: Option<AssignOutOption>)
    ensures
        r == spec_assign_out_option(b),
{
    if b == 0x00 {
        Some(AssignOutOption::Osc1)
    } else if b == 0x01 {
        Some(AssignOutOption::Osc2)
    } else if b == 0x02 {
        Some(AssignOutOption::Velocity)
    } else if b == 0x03 {
        Some(AssignOutOption::ModWheel)
    } else if b == 0x04 {
        Some(AssignOutOption::AfterTouch)
    } else {
        None
    }
}

/// A percentage payload byte must itself be one of the 64 levels; a byte
/// above 0x3f is outside the field's documented range and is rejected
/// rather than capped.
pub open spec fn spec_percent(b: u8) -> Option<Percent> {
    if b <= 0x3f {
        Some(Percent::spec_from_byte(b))
    } else {
        None
    }
}

pub fn percent(b: u8) -> (r: Option<Percent>)
    ensures
        r == spec_percent(b),
{
    if b <= 0x3f {
        Some(Percent::from_byte(b))
    } else {
        None
    }
}

pub open spec fn spec_channel(b: u8) -> Option<Channel> {
    if b == 0x00 {
        Some(Channel::One)
    } else if b == 0x01 {
        Some(Channel::Two)
    } else if b == 0x02 {
        Some(Channel::Three)
    } else if b == 0x03 {
        Some(Channel::Four)
    } else if b == 0x04 {
        Some(Channel::Five)
    } else if b == 0x05 {
        Some(Channel::Six)
    } else if b == 0x06 {
        Some(Channel::Seven)
    } else if b == 0x07 {
        Some(Channel::Eight)
    } else if b == 0x08 {
        Some(Channel::Nine)
    } else if b == 0x09 {
        Some(Channel::Ten)
    } else if b == 0x0a {
        Some(Channel::Eleven)
    } else if b == 0x0b {
        Some(Channel::Twelve)
    } else if b == 0x0c {
        Some(Channel::Thirteen)
    } else if b == 0x0d {
        Some(Channel::Fourteen)
    } else if b == 0x0e {
        Some(Channel::Fifteen)
    } else if b == 0x0f {
        Some(Channel::Sixteen)
    } else {
        None
    }
}

pub fn channel(b: u8) -> (r: Option<Channel>)
    ensures
        r == spec_channel(b),
{
    if b == 0x00 {
        Some(Channel::One)
    } else if b == 0x01 {
        Some(Channel::Two)
    } else if b == 0x02 {
        Some(Channel::Three)
    } else if b == 0x03 {
        Some(Channel::Four)
    } else if b == 0x04 {
        Some(Channel::Five)
    } else if b == 0x05 {
        Some(Channel::Six)
    } else if b == 0x06 {
        Some(Channel::Seven)
    } else if b == 0x07 {
        Some(Channel::Eight)
    } else if b == 0x08 {
        Some(Channel::Nine)
    } else if b == 0x09 {
        Some(Channel::Ten)
    } else if b == 0x0a {
        Some(Channel::Eleven)
    } else if b == 0x0b {
        Some(Channel::Twelve)
    } else if b == 0x0c {
        Some(Channel::Thirteen)
    } else if b == 0x0d {
        Some(Channel::Fourteen)
    } else if b == 0x0e {
        Some(Channel::Fifteen)
    } else if b == 0x0f {
        Some(Channel::Sixteen)
    } else {
        None
    }
}

/// The device-address byte: a zero-based channel (0x00-0x0f) or the
/// multicast marker 0x7f. Everything else, in particular 0x10-0x7e, is
/// invalid.
pub open spec fn spec_device_id(b: u8) -> Option<DeviceId> {
    if b == 0x7f {
        Some(DeviceId::Multicast)
    } else {
        match spec_channel(b) {
            Some(c) => Some(DeviceId::Channel(c)),
            None => None,
        }
    }
}

pub fn device_id(b: u8) -> (r: Option<DeviceId>)
    ensures
        r == spec_device_id(b),
{
    if b == 0x7f {
        Some(DeviceId::Multicast)
    } else {
        match channel(b) {
            Some(c) => Some(DeviceId::Channel(c)),
            None => None,
        }
    }
}

/// Parameter opcodes whose payload is a single codec byte.
pub open spec fn spec_is_single_payload_opcode(op: u8) -> bool {
    ||| op == 0x00
    ||| op == 0x04
    ||| op == 0x05
    ||| op == 0x08
    ||| op == 0x0a
    ||| op == 0x0b
    ||| op == 0x0e
    ||| op == 0x0f
    ||| op == 0x11
    ||| op == 0x12
    ||| op == 0x14
    ||| op == 0x20
    ||| op == 0x21
    ||| op == 0x22
    ||| op == 0x23
    ||| op == 0x24
    ||| op == 0x25
    ||| op == 0x26
    ||| op == 0x27
    ||| op == 0x2a
    ||| op == 0x30
    ||| op == 0x31
    ||| op == 0x34
    ||| op == 0x35
    ||| op == 0x37
    ||| op == 0x3b
}

fn is_single_payload_opcode(op: u8) -> (r: bool)
    ensures
        r == spec_is_single_payload_opcode(op),
{
    op == 0x00 || op == 0x04 || op == 0x05 || op == 0x08 || op == 0x0a || op == 0x0b || op == 0x0e
        || op == 0x0f || op == 0x11 || op == 0x12 || op == 0x14 || op == 0x20 || op == 0x21
        || op == 0x22 || op == 0x23 || op == 0x24 || op == 0x25 || op == 0x26 || op == 0x27
        || op == 0x2a || op == 0x30 || op == 0x31 || op == 0x34 || op == 0x35 || op == 0x37
        || op == 0x3b
}

/// What a single-payload parameter decodes to, given its opcode and its
/// payload byte.
#[verifier::opaque]
pub open spec fn spec_single_payload(op: u8, b: u8) -> Option<GlobalSetting> {
    if op == 0x0f {
        match spec_toggle_option(b) {
            Some(t) => Some(GlobalSetting::ParaphonicMode(t)),
            None => None,
        }
    } else if op == 0x0e {
        match spec_toggle_option(b) {
            Some(t) => Some(GlobalSetting::OscSync(t)),
            None => None,
        }
    } else if op == 0x20 {
        match spec_blend_mode(b) {
            Some(m) => Some(GlobalSetting::Osc1BlendMode(m)),
            None => None,
        }
    } else if op == 0x21 {
        match spec_blend_mode(b) {
            Some(m) => Some(GlobalSetting::Osc2BlendMode(m)),
            None => None,
        }
    } else if op == 0x22 {
        match spec_toggle_option(b) {
            Some(t) => Some(GlobalSetting::Osc1TunePotBypass(t)),
            None => None,
        }
    } else if op == 0x23 {
        match spec_toggle_option(b) {
            Some(t) => Some(GlobalSetting::Osc2TunePotBypass(t)),
            None => None,
        }
    } else if op == 0x26 {
        match spec_osc_range(b) {
            Some(r) => Some(GlobalSetting::Osc1Range(r)),
            None => None,
        }
    } else if op == 0x27 {
        match spec_osc_range(b) {
            Some(r) => Some(GlobalSetting::Osc2Range(r)),
            None => None,
        }
    } else if op == 0x2a {
        match spec_key_track_mode(b) {
            Some(k) => Some(GlobalSetting::Osc2KeyTrack(k)),
            None => None,
        }
    } else if op == 0x24 {
        match spec_autoglide_semitones(b) {
            Some(s) => Some(GlobalSetting::Osc1Autoglide(s)),
            None => None,
        }
    } else if op == 0x25 {
        match spec_autoglide_semitones(b) {
            Some(s) => Some(GlobalSetting::Osc2Autoglide(s)),
            None => None,
        }
    } else if op == 0x30 {
        match spec_blend_mode(b) {
            Some(m) => Some(GlobalSetting::LfoBlendMode(m)),
            None => None,
        }
    } else if op == 0x37 {
        match spec_toggle_option(b) {
            Some(t) => Some(GlobalSetting::LfoKeySync(t)),
            None => None,
        }
    } else if op == 0x31 {
        match spec_toggle_option(b) {
            Some(t) => Some(GlobalSetting::LfoOneShot(t)),
            None => None,
        }
    } else if op == 0x3b {
        match spec_toggle_option(b) {
            Some(t) => Some(GlobalSetting::LfoRetrigger(t)),
            None => None,
        }
    } else if op == 0x35 {
        match spec_toggle_option(b) {
            Some(t) => Some(GlobalSetting::LfoMidiSync(t)),
            None => None,
        }
    } else if op == 0x34 {
        match spec_percent(b) {
            Some(p) => Some(GlobalSetting::LfoDepth(p)),
            None => None,
        }
    } else if op == 0x11 {
        match spec_toggle_option(b) {
            Some(t) => Some(GlobalSetting::VcfKeyTracking(t)),
            None => None,
        }
    } else if op == 0x14 {
        match spec_percent(b) {
            Some(p) => Some(GlobalSetting::VcfModDepth(p)),
            None => None,
        }
    } else if op == 0x12 {
        match spec_mod_source(b) {
            Some(m) => Some(GlobalSetting::VcfModSource(m)),
            None => None,
        }
    } else if op == 0x00 {
        match spec_channel(b) {
            Some(c) => Some(GlobalSetting::MidiChannel(c)),
            None => None,
        }
    } else if op == 0x0a {
        match spec_toggle_option(b) {
            Some(t) => Some(GlobalSetting::DisableMidiDips(t)),
            None => None,
        }
    } else if op == 0x08 {
        match spec_toggle_option(b) {
            Some(t) => Some(GlobalSetting::PolyChainMode(t)),
            None => None,
        }
    } else if op == 0x0b {
        match spec_toggle_option(b) {
            Some(t) => Some(GlobalSetting::KeyRangeMute(t)),
            None => None,
        }
    } else if op == 0x04 {
        match spec_assign_out_option(b) {
            Some(o) => Some(GlobalSetting::AssignOut(o)),
            None => None,
        }
    } else if op == 0x05 {
        match spec_retrigger_mode(b) {
            Some(m) => Some(GlobalSetting::EnvRetriggerMode(m)),
            None => None,
        }
    } else {
        None
    }
}

fn single_payload(op: u8, b: u8) -> (r: Option<GlobalSetting>)
    ensures
        r == spec_single_payload(op, b),
        r matches Some(s) ==> s.wf(),
{
    proof {
        reveal(spec_single_payload);
    }
    if op == 0x0f {
        match toggle_option(b) {
            Some(t) => Some(GlobalSetting::ParaphonicMode(t)),
            None => None,
        }
    } else if op == 0x0e {
        match toggle_option(b) {
            Some(t) => Some(GlobalSetting::OscSync(t)),
            None => None,
        }
    } else if op == 0x20 {
        match blend_mode(b) {
            Some(m) => Some(GlobalSetting::Osc1BlendMode(m)),
            None => None,
        }
    } else if op == 0x21 {
        match blend_mode(b) {
            Some(m) => Some(GlobalSetting::Osc2BlendMode(m)),
            None => None,
        }
    } else if op == 0x22 {
        match toggle_option(b) {
            Some(t) => Some(GlobalSetting::Osc1TunePotBypass(t)),
            None => None,
        }
    } else if op == 0x23 {
        match toggle_option(b) {
            Some(t) => Some(GlobalSetting::Osc2TunePotBypass(t)),
            None => None,
        }
    } else if op == 0x26 {
        match osc_range(b) {
            Some(r) => Some(GlobalSetting::Osc1Range(r)),
            None => None,
        }
    } else if op == 0x27 {
        match osc_range(b) {
            Some(r) => Some(GlobalSetting::Osc2Range(r)),
            None => None,
        }
    } else if op == 0x2a {
        match key_track_mode(b) {
            Some(k) => Some(GlobalSetting::Osc2KeyTrack(k)),
            None => None,
        }
    } else if op == 0x24 {
        match autoglide_semitones(b) {
            Some(s) => Some(GlobalSetting::Osc1Autoglide(s)),
            None => None,
        }
    } else if op == 0x25 {
        match autoglide_semitones(b) {
            Some(s) => Some(GlobalSetting::Osc2Autoglide(s)),
            None => None,
        }
    } else if op == 0x30 {
        match blend_mode(b) {
            Some(m) => Some(GlobalSetting::LfoBlendMode(m)),
            None => None,
        }
    } else if op == 0x37 {
        match toggle_option(b) {
            Some(t) => Some(GlobalSetting::LfoKeySync(t)),
            None => None,
        }
    } else if op == 0x31 {
        match toggle_option(b) {
            Some(t) => Some(GlobalSetting::LfoOneShot(t)),
            None => None,
        }
    } else if op == 0x3b {
        match toggle_option(b) {
            Some(t) => Some(GlobalSetting::LfoRetrigger(t)),
            None => None,
        }
    } else if op == 0x35 {
        match toggle_option(b) {
            Some(t) => Some(GlobalSetting::LfoMidiSync(t)),
            None => None,
        }
    } else if op == 0x34 {
        match percent(b) {
            Some(p) => Some(GlobalSetting::LfoDepth(p)),
            None => None,
        }
    } else if op == 0x11 {
        match toggle_option(b) {
            Some(t) => Some(GlobalSetting::VcfKeyTracking(t)),
            None => None,
        }
    } else if op == 0x14 {
        match percent(b) {
            Some(p) => Some(GlobalSetting::VcfModDepth(p)),
            None => None,
        }
    } else if op == 0x12 {
        match mod_source(b) {
            Some(m) => Some(GlobalSetting::VcfModSource(m)),
            None => None,
        }
    } else if op == 0x00 {
        match channel(b) {
            Some(c) => Some(GlobalSetting::MidiChannel(c)),
            None => None,
        }
    } else if op == 0x0a {
        match toggle_option(b) {
            Some(t) => Some(GlobalSetting::DisableMidiDips(t)),
            None => None,
        }
    } else if op == 0x08 {
        match toggle_option(b) {
            Some(t) => Some(GlobalSetting::PolyChainMode(t)),
            None => None,
        }
    } else if op == 0x0b {
        match toggle_option(b) {
            Some(t) => Some(GlobalSetting::KeyRangeMute(t)),
            None => None,
        }
    } else if op == 0x04 {
        match assign_out_option(b) {
            Some(o) => Some(GlobalSetting::AssignOut(o)),
            None => None,
        }
    } else if op == 0x05 {
        match retrigger_mode(b) {
            Some(m) => Some(GlobalSetting::EnvRetriggerMode(m)),
            None => None,
        }
    } else {
        None
    }
}

/// What a byte sequence beginning at a parameter opcode decodes to: the
/// setting and the number of bytes it occupies. The unit opcodes 0x39 and
/// 0x06 consume one placeholder byte whose value is not inspected; the
/// two-field opcodes 0x38 and 0x3a read a slot index and then a value;
/// every other known opcode reads one codec byte.
pub open spec fn spec_global_setting(bytes: Seq<u8>) -> Result<(GlobalSetting, usize), DecodeError> {
    if bytes.len() < 1 {
        Err(DecodeError::TruncatedInput)
    } else {
        let op = bytes[0];
        if op == 0x39 {
            if bytes.len() < 2 {
                Err(DecodeError::TruncatedInput)
            } else {
                Ok((GlobalSetting::LfoResetOrder, 2usize))
            }
        } else if op == 0x06 {
            if bytes.len() < 2 {
                Err(DecodeError::TruncatedInput)
            } else {
                Ok((GlobalSetting::KeyRangeReset, 2usize))
            }
        } else if op == 0x38 {
            if bytes.len() < 2 {
                Err(DecodeError::TruncatedInput)
            } else {
                match spec_lfo_index(bytes[1]) {
                    None => Err(DecodeError::InvalidEnumValue),
                    Some(i) => if bytes.len() < 3 {
                        Err(DecodeError::TruncatedInput)
                    } else {
                        match spec_lfo_shape(bytes[2]) {
                            None => Err(DecodeError::InvalidEnumValue),
                            Some(s) => Ok((GlobalSetting::LfoShapeOrder(i, s), 3usize)),
                        }
                    },
                }
            }
        } else if op == 0x3a {
            if bytes.len() < 2 {
                Err(DecodeError::TruncatedInput)
            } else {
                match spec_lfo_index(bytes[1]) {
                    None => Err(DecodeError::InvalidEnumValue),
                    Some(i) => if bytes.len() < 3 {
                        Err(DecodeError::TruncatedInput)
                    } else {
                        match spec_lfo_phase_offset(bytes[2]) {
                            None => Err(DecodeError::InvalidEnumValue),
                            Some(o) => Ok((GlobalSetting::LfoShapePhase(i, o), 3usize)),
                        }
                    },
                }
            }
        } else if spec_is_single_payload_opcode(op) {
            if bytes.len() < 2 {
                Err(DecodeError::TruncatedInput)
            } else {
                match spec_single_payload(op, bytes[1]) {
                    Some(s) => Ok((s, 2usize)),
                    None => Err(DecodeError::InvalidEnumValue),
                }
            }
        } else {
            Err(DecodeError::UnknownOpcode)
        }
    }
}

/// Decode one catalogue entry from the front of `input`; on success also
/// return how many bytes it occupied.
pub fn global_setting(input: &[u8]) -> (r: Result<(GlobalSetting, usize), DecodeError>)
    ensures
        r == spec_global_setting(input@),
        r matches Ok(p) ==> 2 <= p.1 <= 3 && p.1 <= input@.len() && p.0.wf(),
{
    if input.len() < 1 {
        return Err(DecodeError::TruncatedInput);
    }
    let op = input[0];
    if op == 0x39 {
        if input.len() < 2 {
            Err(DecodeError::TruncatedInput)
        } else {
            Ok((GlobalSetting::LfoResetOrder, 2))
        }
    } else if op == 0x06 {
        if input.len() < 2 {
            Err(DecodeError::TruncatedInput)
        } else {
            Ok((GlobalSetting::KeyRangeReset, 2))
        }
    } else if op == 0x38 {
        if input.len() < 2 {
            return Err(DecodeError::TruncatedInput);
        }
        match lfo_index(input[1]) {
            None => Err(DecodeError::InvalidEnumValue),
            Some(i) => {
                if input.len() < 3 {
                    return Err(DecodeError::TruncatedInput);
                }
                match lfo_shape(input[2]) {
                    None => Err(DecodeError::InvalidEnumValue),
                    Some(s) => Ok((GlobalSetting::LfoShapeOrder(i, s), 3)),
                }
            },
        }
    } else if op == 0x3a {
        if input.len() < 2 {
            return Err(DecodeError::TruncatedInput);
        }
        match lfo_index(input[1]) {
            None => Err(DecodeError::InvalidEnumValue),
            Some(i) => {
                if input.len() < 3 {
                    return Err(DecodeError::TruncatedInput);
                }
                match lfo_phase_offset(input[2]) {
                    None => Err(DecodeError::InvalidEnumValue),
                    Some(o) => Ok((GlobalSetting::LfoShapePhase(i, o), 3)),
                }
            },
        }
    } else if is_single_payload_opcode(op) {
        if input.len() < 2 {
            return Err(DecodeError::TruncatedInput);
        }
        match single_payload(op, input[1]) {
            Some(s) => Ok((s, 2)),
            None => Err(DecodeError::InvalidEnumValue),
        }
    } else {
        Err(DecodeError::UnknownOpcode)
    }
}

/// Errors of the five fixed header positions, checked left to right: a
/// present byte that differs from the expected literal is a structural
/// mismatch; a header cut short is a truncation.
pub open spec fn spec_header_check(bytes: Seq<u8>) -> Option<DecodeError> {
    if bytes.len() >= 1 && bytes[0] != 0xf0 {
        Some(DecodeError::StructuralMismatch)
    } else if bytes.len() >= 2 && bytes[1] != 0x00 {
        Some(DecodeError::StructuralMismatch)
    } else if bytes.len() >= 3 && bytes[2] != 0x20 {
        Some(DecodeError::StructuralMismatch)
    } else if bytes.len() >= 4 && bytes[3] != 0x32 {
        Some(DecodeError::StructuralMismatch)
    } else if bytes.len() >= 5 && bytes[4] != 0x28 {
        Some(DecodeError::StructuralMismatch)
    } else if bytes.len() < 5 {
        Some(DecodeError::TruncatedInput)
    } else {
        None
    }
}

/// After a complete payload, the frame must close with the terminator as
/// its very last byte: anything else before or after it is trailing data.
pub open spec fn spec_terminator_check(bytes: Seq<u8>, pos: int) -> Option<DecodeError> {
    if bytes.len() <= pos {
        Some(DecodeError::TruncatedInput)
    } else if bytes[pos] != 0xf7 {
        Some(DecodeError::TrailingBytes)
    } else if bytes.len() != pos + 1 {
        Some(DecodeError::TrailingBytes)
    } else {
        None
    }
}

/// Scan a version payload from `i`: stop at the terminator, reject a data
/// byte outside the 7-bit range, fail if the buffer ends first. Returns the
/// terminator's position.
pub open spec fn spec_version_run(bytes: Seq<u8>, i: int) -> Result<int, DecodeError>
    decreases bytes.len() - i,
{
    if i < 0 || i >= bytes.len() {
        Err(DecodeError::TruncatedInput)
    } else if bytes[i] == 0xf7 {
        Ok(i)
    } else if bytes[i] >= 0x80 {
        Err(DecodeError::InvalidEnumValue)
    } else {
        spec_version_run(bytes, i + 1)
    }
}

/// The characters a version payload carries.
pub open spec fn spec_version_chars(bytes: Seq<u8>) -> Seq<char> {
    bytes.map_values(|b: u8| b as char)
}

/// What a whole buffer decodes to. The header literals are matched
/// exactly; the device-address byte and the message-kind byte then select
/// the payload: a catalogue entry for set (0x0a) and update (0x5a), nothing
/// for restore (0x0b) and version request (0x73), and a version byte plus a
/// non-empty ASCII text for a version report (0x74). Update and report
/// additionally carry the protocol-version byte, which must be 0x01. The
/// terminator must be the last byte of the buffer.
pub open spec fn spec_neutron_message(bytes: Seq<u8>) -> Result<MessageModel, DecodeError> {
    match spec_header_check(bytes) {
        Some(e) => Err(e),
        None => if bytes.len() < 6 {
            Err(DecodeError::TruncatedInput)
        } else {
            match spec_device_id(bytes[5]) {
                None => Err(DecodeError::InvalidEnumValue),
                Some(dev) => if bytes.len() < 7 {
                    Err(DecodeError::TruncatedInput)
                } else {
                    let kind = bytes[6];
                    if kind == 0x0a {
                        match spec_global_setting(bytes.skip(7)) {
                            Err(e) => Err(e),
                            Ok((s, used)) => match spec_terminator_check(bytes, 7 + used) {
                                Some(e) => Err(e),
                                None => Ok(MessageModel::SetGlobalSetting(dev, s)),
                            },
                        }
                    } else if kind == 0x0b {
                        match spec_terminator_check(bytes, 7) {
                            Some(e) => Err(e),
                            None => Ok(MessageModel::RestoreGlobalSetting(dev)),
                        }
                    } else if kind == 0x73 {
                        match spec_terminator_check(bytes, 7) {
                            Some(e) => Err(e),
                            None => Ok(MessageModel::SoftwareVersionRequest(dev)),
                        }
                    } else if kind == 0x74 {
                        if bytes.len() < 8 {
                            Err(DecodeError::TruncatedInput)
                        } else if bytes[7] != 0x01 {
                            Err(DecodeError::InvalidEnumValue)
                        } else {
                            match spec_version_run(bytes, 8) {
                                Err(e) => Err(e),
                                Ok(end) => if end == 8 {
                                    Err(DecodeError::TruncatedInput)
                                } else if end != bytes.len() - 1 {
                                    Err(DecodeError::TrailingBytes)
                                } else {
                                    Ok(
                                        MessageModel::SoftwareVersionResponse(
                                            dev,
                                            spec_version_chars(bytes.subrange(8, end)),
                                        ),
                                    )
                                },
                            }
                        }
                    } else if kind == 0x5a {
                        if bytes.len() < 8 {
                            Err(DecodeError::TruncatedInput)
                        } else if bytes[7] != 0x01 {
                            Err(DecodeError::InvalidEnumValue)
                        } else {
                            match spec_global_setting(bytes.skip(8)) {
                                Err(e) => Err(e),
                                Ok((s, used)) => match spec_terminator_check(bytes, 8 + used) {
                                    Some(e) => Err(e),
                                    None => Ok(MessageModel::GlobalSettingUpdate(dev, s)),
                                },
                            }
                        }
                    } else {
                        Err(DecodeError::UnknownOpcode)
                    }
                },
            }
        },
    }
}

/// Relies on String::push: appends exactly one character to the string.
#[verifier::external_body]
fn push_char(s: &mut String, c: char)
    ensures
        final(s)@ == old(s)@.push(c),
{
    s.push(c);
}

/// Decode a whole SysEx buffer into a message.
///
/// On success the result is a well-formed message whose mathematical view
/// is exactly what [`spec_neutron_message`] assigns to the buffer; on
/// failure the returned error is exactly the one the specification
/// assigns. Together with the encoder's contract this makes decode a left
/// inverse of encode on well-formed messages.
#[verifier::loop_isolation(false)]
pub fn neutron_message(input: &[u8]) -> (r: Result<NeutronMessage, DecodeError>)
    ensures
        r matches Ok(m) ==> m.wf() && spec_neutron_message(input@) == Ok::<
            MessageModel,
            DecodeError,
        >(m@),
        r matches Err(e) ==> spec_neutron_message(input@) == Err::<
            MessageModel,
            DecodeError,
        >(e),
{
    let n = input.len();
    if n >= 1 && input[0] != 0xf0 {
        return Err(DecodeError::StructuralMismatch);
    }
    if n >= 2 && input[1] != 0x00 {
        return Err(DecodeError::StructuralMismatch);
    }
    if n >= 3 && input[2] != 0x20 {
        return Err(DecodeError::StructuralMismatch);
    }
    if n >= 4 && input[3] != 0x32 {
        return Err(DecodeError::StructuralMismatch);
    }
    if n >= 5 && input[4] != 0x28 {
        return Err(DecodeError::StructuralMismatch);
    }
    if n < 6 {
        return Err(DecodeError::TruncatedInput);
    }
    let dev = match device_id(input[5]) {
        None => {
            return Err(DecodeError::InvalidEnumValue);
        },
        Some(d) => d,
    };
    if n < 7 {
        return Err(DecodeError::TruncatedInput);
    }
    let kind = input[6];
    if kind == 0x0a {
        match global_setting(slice_subrange(input, 7, n)) {
            Err(e) => Err(e),
            Ok((s, used)) => {
                let pos = 7 + used;
                if n <= pos {
                    Err(DecodeError::TruncatedInput)
                } else if input[pos] != 0xf7 {
                    Err(DecodeError::TrailingBytes)
                } else if n != pos + 1 {
                    Err(DecodeError::TrailingBytes)
                } else {
                    Ok(NeutronMessage::SetGlobalSetting(dev, s))
                }
            },
        }
    } else if kind == 0x0b {
        if n <= 7 {
            Err(DecodeError::TruncatedInput)
        } else if input[7] != 0xf7 {
            Err(DecodeError::TrailingBytes)
        } else if n != 8 {
            Err(DecodeError::TrailingBytes)
        } else {
            Ok(NeutronMessage::RestoreGlobalSetting(dev))
        }
    } else if kind == 0x73 {
        if n <= 7 {
            Err(DecodeError::TruncatedInput)
        } else if input[7] != 0xf7 {
            Err(DecodeError::TrailingBytes)
        } else if n != 8 {
            Err(DecodeError::TrailingBytes)
        } else {
            Ok(NeutronMessage::SoftwareVersionRequest(dev))
        }
    } else if kind == 0x74 {
        if n < 8 {
            return Err(DecodeError::TruncatedInput);
        }
        if input[7] != 0x01 {
            return Err(DecodeError::InvalidEnumValue);
        }
        let mut i: usize = 8;
        let mut text = String::new();
        loop
            invariant
                8 <= i <= n,
                n == input@.len(),
                forall|j: int| 8 <= j < i ==> input@[j] != 0xf7 && input@[j] < 0x80,
                spec_version_run(input@, 8) == spec_version_run(input@, i as int),
                text@ == spec_version_chars(input@.subrange(8, i as int)),
            decreases n - i,
        {
            if i >= n {
                return Err(DecodeError::TruncatedInput);
            }
            let b = input[i];
            if b == 0xf7 {
                if i == 8 {
                    return Err(DecodeError::TruncatedInput);
                }
                if i + 1 != n {
                    return Err(DecodeError::TrailingBytes);
                }
                return Ok(NeutronMessage::SoftwareVersionResponse(dev, text));
            }
            if b >= 0x80 {
                return Err(DecodeError::InvalidEnumValue);
            }
            push_char(&mut text, b as char);
            proof {
                assert(input@.subrange(8, i + 1) =~= input@.subrange(8, i as int).push(
                    input@[i as int],
                ));
                assert(text@ =~= spec_version_chars(input@.subrange(8, i + 1)));
            }
            i = i + 1;
        }
    } else if kind == 0x5a {
        if n < 8 {
            return Err(DecodeError::TruncatedInput);
        }
        if input[7] != 0x01 {
            return Err(DecodeError::InvalidEnumValue);
        }
        match global_setting(slice_subrange(input, 8, n)) {
            Err(e) => Err(e),
            Ok((s, used)) => {
                let pos = 8 + used;
                if n <= pos {
                    Err(DecodeError::TruncatedInput)
                } else if input[pos] != 0xf7 {
                    Err(DecodeError::TrailingBytes)
                } else if n != pos + 1 {
                    Err(DecodeError::TrailingBytes)
                } else {
                    Ok(NeutronMessage::GlobalSettingUpdate(dev, s))
                }
            },
        }
    } else {
        Err(DecodeError::UnknownOpcode)
    }
}

} // verus!
