//! The algebraic laws of the codec: round trips between encode and decode,
//! exclusivity of the opcode tables, and total rejection of invalid
//! address and opcode bytes.

use crate::parser::spec_device_id;
use crate::parser::spec_global_setting;
use crate::parser::spec_neutron_message;
use crate::parser::spec_single_payload;
use crate::parser::spec_version_chars;
use crate::parser::spec_version_run;
use crate::parser::DecodeError;
use crate::protocol::AssignOutOption;
use crate::protocol::AutoglideSemitones;
use crate::protocol::BlendMode;
use crate::protocol::Channel;
use crate::protocol::DeviceId;
use crate::protocol::GlobalSetting;
use crate::protocol::KeyTrackMode;
use crate::protocol::LfoIndex;
use crate::protocol::LfoPhaseOffset;
use crate::protocol::LfoShape;
use crate::protocol::MessageModel;
use crate::protocol::ModSource;
use crate::protocol::OscRange;
use crate::protocol::Percent;
use crate::protocol::RetriggerMode;
use crate::protocol::ToggleOption;
use vstd::prelude::*;

verus! {

/// The dispatch bytes of the thirty catalogue variants, in ascending
/// order.
pub open spec fn spec_catalogue_opcodes() -> Seq<u8> {
    seq![
        0x00u8,
        0x04u8,
        0x05u8,
        0x06u8,
        0x08u8,
        0x0au8,
        0x0bu8,
        0x0eu8,
        0x0fu8,
        0x11u8,
        0x12u8,
        0x14u8,
        0x20u8,
        0x21u8,
        0x22u8,
        0x23u8,
        0x24u8,
        0x25u8,
        0x26u8,
        0x27u8,
        0x2au8,
        0x30u8,
        0x31u8,
        0x34u8,
        0x35u8,
        0x37u8,
        0x38u8,
        0x39u8,
        0x3au8,
        0x3bu8,
    ]
}

/// The dispatch bytes of the five message kinds.
pub open spec fn spec_message_kind_opcodes() -> Seq<u8> {
    seq![0x0au8, 0x0bu8, 0x73u8, 0x74u8, 0x5au8]
}

/// Decoding a device-address byte inverts encoding it.
pub proof fn lemma_device_id_round_trip(id: DeviceId)
    ensures
        spec_device_id(id.spec_byte()) == Some(id),
{
}

/// Total rejection of invalid address bytes: every byte in the gap between
/// the channel range and the multicast marker is refused, and an address
/// byte is accepted exactly when it is a channel byte or the multicast
/// marker.
pub proof fn lemma_device_id_range(b: u8)
    ensures
        0x10 <= b <= 0x7e ==> spec_device_id(b) is None,
        spec_device_id(b) is Some <==> (b <= 0x0f || b == 0x7f),
{
}

/// Round-trip fixed point of the lossy percentage codec: reading a byte
/// back from an encoded percentage level and encoding it again changes
/// nothing, even though the first read may have capped the byte.
pub proof fn lemma_percent_fixed_point(b: u8)
    ensures
        Percent::spec_from_byte(Percent::spec_from_byte(b).spec_byte()) == Percent::spec_from_byte(
            b,
        ),
        Percent::spec_from_byte(b).wf(),
{
}

/// Round-trip identity for the catalogue: decoding the canonical bytes of
/// a well-formed setting, with anything at all behind them, yields exactly
/// that setting and consumes exactly its bytes.
#[verifier::rlimit(100)]
proof fn lemma_round_trip_toggle_settings(s: GlobalSetting, rest: Seq<u8>)
    requires
        s.wf(),
        s matches GlobalSetting::ParaphonicMode(_) || s matches GlobalSetting::OscSync(_)
            || s matches GlobalSetting::Osc1TunePotBypass(_) || s matches
            GlobalSetting::Osc2TunePotBypass(_) || s matches GlobalSetting::LfoKeySync(_)
            || s matches GlobalSetting::LfoOneShot(_) || s matches GlobalSetting::LfoRetrigger(_)
            || s matches GlobalSetting::LfoMidiSync(_) || s matches GlobalSetting::VcfKeyTracking(
            _,
        ) || s matches GlobalSetting::DisableMidiDips(_) || s matches GlobalSetting::PolyChainMode(
            _,
        ) || s matches GlobalSetting::KeyRangeMute(_),
    ensures
        spec_global_setting(s.spec_bytes() + rest) == Ok::<(GlobalSetting, usize), DecodeError>(
            (s, s.spec_bytes().len() as usize),
        ),
{
    reveal(spec_single_payload);
    let bytes = s.spec_bytes() + rest;
    assert(bytes[0] == s.spec_bytes()[0]);
    assert(bytes[1] == s.spec_bytes()[1]);
}

#[verifier::rlimit(100)]
proof fn lemma_round_trip_enum_settings(s: GlobalSetting, rest: Seq<u8>)
    requires
        s.wf(),
        s matches GlobalSetting::Osc1BlendMode(_) || s matches GlobalSetting::Osc2BlendMode(_)
            || s matches GlobalSetting::LfoBlendMode(_) || s matches GlobalSetting::Osc1Range(_)
            || s matches GlobalSetting::Osc2Range(_) || s matches GlobalSetting::Osc2KeyTrack(_)
            || s matches GlobalSetting::VcfModSource(_) || s matches GlobalSetting::AssignOut(_)
            || s matches GlobalSetting::EnvRetriggerMode(_) || s matches
            GlobalSetting::MidiChannel(_),
    ensures
        spec_global_setting(s.spec_bytes() + rest) == Ok::<(GlobalSetting, usize), DecodeError>(
            (s, s.spec_bytes().len() as usize),
        ),
{
    reveal(spec_single_payload);
    let bytes = s.spec_bytes() + rest;
    assert(bytes[0] == s.spec_bytes()[0]);
    assert(bytes[1] == s.spec_bytes()[1]);
}

#[verifier::rlimit(100)]
proof fn lemma_round_trip_scale_settings(s: GlobalSetting, rest: Seq<u8>)
    requires
        s.wf(),
        s matches GlobalSetting::Osc1Autoglide(_) || s matches GlobalSetting::Osc2Autoglide(_)
            || s matches GlobalSetting::LfoDepth(_) || s matches GlobalSetting::VcfModDepth(_),
    ensures
        spec_global_setting(s.spec_bytes() + rest) == Ok::<(GlobalSetting, usize), DecodeError>(
            (s, s.spec_bytes().len() as usize),
        ),
{
    reveal(spec_single_payload);
    let bytes = s.spec_bytes() + rest;
    assert(bytes[0] == s.spec_bytes()[0]);
    assert(bytes[1] == s.spec_bytes()[1]);
}

#[verifier::rlimit(100)]
proof fn lemma_round_trip_slot_and_unit_settings(s: GlobalSetting, rest: Seq<u8>)
    requires
        s.wf(),
        s matches GlobalSetting::LfoShapeOrder(_, _) || s matches GlobalSetting::LfoShapePhase(
            _,
            _,
        ) || s matches GlobalSetting::LfoResetOrder || s matches GlobalSetting::KeyRangeReset,
    ensures
        spec_global_setting(s.spec_bytes() + rest) == Ok::<(GlobalSetting, usize), DecodeError>(
            (s, s.spec_bytes().len() as usize),
        ),
{
    reveal(spec_single_payload);
    let bytes = s.spec_bytes() + rest;
    assert(bytes[0] == s.spec_bytes()[0]);
    assert(bytes[1] == s.spec_bytes()[1]);
    if s.spec_bytes().len() == 3 {
        assert(bytes[2] == s.spec_bytes()[2]);
    }
}

/// Round-trip identity for the catalogue: decoding the canonical bytes of
/// a well-formed setting, with anything at all behind them, yields exactly
/// that setting and consumes exactly its bytes.
pub proof fn lemma_global_setting_round_trip(s: GlobalSetting, rest: Seq<u8>)
    requires
        s.wf(),
    ensures
        spec_global_setting(s.spec_bytes() + rest) == Ok::<(GlobalSetting, usize), DecodeError>(
            (s, s.spec_bytes().len() as usize),
        ),
{
    match s {
        GlobalSetting::ParaphonicMode(_) => lemma_round_trip_toggle_settings(s, rest),
        GlobalSetting::OscSync(_) => lemma_round_trip_toggle_settings(s, rest),
        GlobalSetting::Osc1TunePotBypass(_) => lemma_round_trip_toggle_settings(s, rest),
        GlobalSetting::Osc2TunePotBypass(_) => lemma_round_trip_toggle_settings(s, rest),
        GlobalSetting::LfoKeySync(_) => lemma_round_trip_toggle_settings(s, rest),
        GlobalSetting::LfoOneShot(_) => lemma_round_trip_toggle_settings(s, rest),
        GlobalSetting::LfoRetrigger(_) => lemma_round_trip_toggle_settings(s, rest),
        GlobalSetting::LfoMidiSync(_) => lemma_round_trip_toggle_settings(s, rest),
        GlobalSetting::VcfKeyTracking(_) => lemma_round_trip_toggle_settings(s, rest),
        GlobalSetting::DisableMidiDips(_) => lemma_round_trip_toggle_settings(s, rest),
        GlobalSetting::PolyChainMode(_) => lemma_round_trip_toggle_settings(s, rest),
        GlobalSetting::KeyRangeMute(_) => lemma_round_trip_toggle_settings(s, rest),
        GlobalSetting::Osc1BlendMode(_) => lemma_round_trip_enum_settings(s, rest),
        GlobalSetting::Osc2BlendMode(_) => lemma_round_trip_enum_settings(s, rest),
        GlobalSetting::LfoBlendMode(_) => lemma_round_trip_enum_settings(s, rest),
        GlobalSetting::Osc1Range(_) => lemma_round_trip_enum_settings(s, rest),
        GlobalSetting::Osc2Range(_) => lemma_round_trip_enum_settings(s, rest),
        GlobalSetting::Osc2KeyTrack(_) => lemma_round_trip_enum_settings(s, rest),
        GlobalSetting::VcfModSource(_) => lemma_round_trip_enum_settings(s, rest),
        GlobalSetting::AssignOut(_) => lemma_round_trip_enum_settings(s, rest),
        GlobalSetting::EnvRetriggerMode(_) => lemma_round_trip_enum_settings(s, rest),
        GlobalSetting::MidiChannel(_) => lemma_round_trip_enum_settings(s, rest),
        GlobalSetting::Osc1Autoglide(_) => lemma_round_trip_scale_settings(s, rest),
        GlobalSetting::Osc2Autoglide(_) => lemma_round_trip_scale_settings(s, rest),
        GlobalSetting::LfoDepth(_) => lemma_round_trip_scale_settings(s, rest),
        GlobalSetting::VcfModDepth(_) => lemma_round_trip_scale_settings(s, rest),
        GlobalSetting::LfoShapeOrder(_, _) => lemma_round_trip_slot_and_unit_settings(s, rest),
        GlobalSetting::LfoShapePhase(_, _) => lemma_round_trip_slot_and_unit_settings(s, rest),
        GlobalSetting::LfoResetOrder => lemma_round_trip_slot_and_unit_settings(s, rest),
        GlobalSetting::KeyRangeReset => lemma_round_trip_slot_and_unit_settings(s, rest),
    }
}

/// Encoding is injective on well-formed settings: distinct settings never
/// share a byte sequence.
pub proof fn lemma_setting_encoding_injective(s1: GlobalSetting, s2: GlobalSetting)
    requires
        s1.wf(),
        s2.wf(),
        s1.spec_bytes() == s2.spec_bytes(),
    ensures
        s1 == s2,
{
    lemma_global_setting_round_trip(s1, Seq::empty());
    lemma_global_setting_round_trip(s2, Seq::empty());
    assert(s1.spec_bytes() + Seq::<u8>::empty() =~= s1.spec_bytes());
    assert(s2.spec_bytes() + Seq::<u8>::empty() =~= s2.spec_bytes());
}

/// Opcode exclusivity: the catalogue table holds no duplicate byte, the
/// message-kind table holds no duplicate byte, the catalogue table holds
/// exactly the dispatch bytes of the catalogue variants, and the only
/// bytes the two tables share are 0x0a and 0x0b, which the wire
/// disambiguates by position.
#[verifier::rlimit(100)]
pub proof fn lemma_opcode_exclusivity()
    ensures
        spec_catalogue_opcodes().no_duplicates(),
        spec_message_kind_opcodes().no_duplicates(),
        forall|s: GlobalSetting| spec_catalogue_opcodes().contains(#[trigger] s.spec_opcode()),
        forall|b: u8|
            spec_catalogue_opcodes().contains(b) ==> exists|s: GlobalSetting|
                (#[trigger] s.spec_opcode()) == b,
        forall|b: u8|
            spec_catalogue_opcodes().contains(b) && spec_message_kind_opcodes().contains(b) <==> (
            b == 0x0a || b == 0x0b),
{
    let cat = spec_catalogue_opcodes();
    let kinds = spec_message_kind_opcodes();
    assert forall|b: u8| cat.contains(b) implies exists|s: GlobalSetting|
        (#[trigger] s.spec_opcode()) == b by {
        if b == 0x00 {
            assert(GlobalSetting::MidiChannel(Channel::One).spec_opcode() == b);
        } else if b == 0x04 {
            assert(GlobalSetting::AssignOut(AssignOutOption::Osc1).spec_opcode() == b);
        } else if b == 0x05 {
            assert(GlobalSetting::EnvRetriggerMode(RetriggerMode::Staccato).spec_opcode() == b);
        } else if b == 0x06 {
            assert(GlobalSetting::KeyRangeReset.spec_opcode() == b);
        } else if b == 0x08 {
            assert(GlobalSetting::PolyChainMode(ToggleOption::On).spec_opcode() == b);
        } else if b == 0x0a {
            assert(GlobalSetting::DisableMidiDips(ToggleOption::On).spec_opcode() == b);
        } else if b == 0x0b {
            assert(GlobalSetting::KeyRangeMute(ToggleOption::On).spec_opcode() == b);
        } else if b == 0x0e {
            assert(GlobalSetting::OscSync(ToggleOption::On).spec_opcode() == b);
        } else if b == 0x0f {
            assert(GlobalSetting::ParaphonicMode(ToggleOption::On).spec_opcode() == b);
        } else if b == 0x11 {
            assert(GlobalSetting::VcfKeyTracking(ToggleOption::On).spec_opcode() == b);
        } else if b == 0x12 {
            assert(GlobalSetting::VcfModSource(ModSource::Off).spec_opcode() == b);
        } else if b == 0x14 {
            assert(GlobalSetting::VcfModDepth(Percent::spec_from_byte(0)).spec_opcode() == b);
        } else if b == 0x20 {
            assert(GlobalSetting::Osc1BlendMode(BlendMode::Blend).spec_opcode() == b);
        } else if b == 0x21 {
            assert(GlobalSetting::Osc2BlendMode(BlendMode::Blend).spec_opcode() == b);
        } else if b == 0x22 {
            assert(GlobalSetting::Osc1TunePotBypass(ToggleOption::On).spec_opcode() == b);
        } else if b == 0x23 {
            assert(GlobalSetting::Osc2TunePotBypass(ToggleOption::On).spec_opcode() == b);
        } else if b == 0x24 {
            assert(GlobalSetting::Osc1Autoglide(AutoglideSemitones::Zero).spec_opcode() == b);
        } else if b == 0x25 {
            assert(GlobalSetting::Osc2Autoglide(AutoglideSemitones::Zero).spec_opcode() == b);
        } else if b == 0x26 {
            assert(GlobalSetting::Osc1Range(OscRange::ThirtyTwo).spec_opcode() == b);
        } else if b == 0x27 {
            assert(GlobalSetting::Osc2Range(OscRange::ThirtyTwo).spec_opcode() == b);
        } else if b == 0x2a {
            assert(GlobalSetting::Osc2KeyTrack(KeyTrackMode::Track).spec_opcode() == b);
        } else if b == 0x30 {
            assert(GlobalSetting::LfoBlendMode(BlendMode::Blend).spec_opcode() == b);
        } else if b == 0x31 {
            assert(GlobalSetting::LfoOneShot(ToggleOption::On).spec_opcode() == b);
        } else if b == 0x34 {
            assert(GlobalSetting::LfoDepth(Percent::spec_from_byte(0)).spec_opcode() == b);
        } else if b == 0x35 {
            assert(GlobalSetting::LfoMidiSync(ToggleOption::On).spec_opcode() == b);
        } else if b == 0x37 {
            assert(GlobalSetting::LfoKeySync(ToggleOption::On).spec_opcode() == b);
        } else if b == 0x38 {
            assert(GlobalSetting::LfoShapeOrder(LfoIndex::One, LfoShape::Sine).spec_opcode()
                == b);
        } else if b == 0x39 {
            assert(GlobalSetting::LfoResetOrder.spec_opcode() == b);
        } else if b == 0x3a {
            assert(GlobalSetting::LfoShapePhase(LfoIndex::One, LfoPhaseOffset::Zero).spec_opcode()
                == b);
        } else {
            assert(b == 0x3b);
            assert(GlobalSetting::LfoRetrigger(ToggleOption::On).spec_opcode() == b);
        }
    }
    assert forall|s: GlobalSetting| cat.contains(#[trigger] s.spec_opcode()) by {
        let op = s.spec_opcode();
        if op == 0x00 {
            assert(cat[0] == op);
        } else if op == 0x04 {
            assert(cat[1] == op);
        } else if op == 0x05 {
            assert(cat[2] == op);
        } else if op == 0x06 {
            assert(cat[3] == op);
        } else if op == 0x08 {
            assert(cat[4] == op);
        } else if op == 0x0a {
            assert(cat[5] == op);
        } else if op == 0x0b {
            assert(cat[6] == op);
        } else if op == 0x0e {
            assert(cat[7] == op);
        } else if op == 0x0f {
            assert(cat[8] == op);
        } else if op == 0x11 {
            assert(cat[9] == op);
        } else if op == 0x12 {
            assert(cat[10] == op);
        } else if op == 0x14 {
            assert(cat[11] == op);
        } else if op == 0x20 {
            assert(cat[12] == op);
        } else if op == 0x21 {
            assert(cat[13] == op);
        } else if op == 0x22 {
            assert(cat[14] == op);
        } else if op == 0x23 {
            assert(cat[15] == op);
        } else if op == 0x24 {
            assert(cat[16] == op);
        } else if op == 0x25 {
            assert(cat[17] == op);
        } else if op == 0x26 {
            assert(cat[18] == op);
        } else if op == 0x27 {
            assert(cat[19] == op);
        } else if op == 0x2a {
            assert(cat[20] == op);
        } else if op == 0x30 {
            assert(cat[21] == op);
        } else if op == 0x31 {
            assert(cat[22] == op);
        } else if op == 0x34 {
            assert(cat[23] == op);
        } else if op == 0x35 {
            assert(cat[24] == op);
        } else if op == 0x37 {
            assert(cat[25] == op);
        } else if op == 0x38 {
            assert(cat[26] == op);
        } else if op == 0x39 {
            assert(cat[27] == op);
        } else if op == 0x3a {
            assert(cat[28] == op);
        } else {
            assert(op == 0x3b);
            assert(cat[29] == op);
        }
    }
    assert forall|b: u8|
        cat.contains(b) && kinds.contains(b) <==> (b == 0x0a || b == 0x0b) by {
        if b == 0x0a {
            assert(cat[5] == b);
            assert(kinds[0] == b);
        } else if b == 0x0b {
            assert(cat[6] == b);
            assert(kinds[1] == b);
        } else {
            if cat.contains(b) && kinds.contains(b) {
                let i = choose|i: int| 0 <= i < kinds.len() && kinds[i] == b;
                let j = choose|j: int| 0 <= j < cat.len() && cat[j] == b;
                assert(false);
            }
        }
    }
}

/// Unknown-opcode rejection: a parameter buffer whose first byte is not in
/// the catalogue table fails with exactly the unknown-opcode error.
pub proof fn lemma_unknown_opcode_rejected(bytes: Seq<u8>)
    requires
        bytes.len() >= 1,
        !spec_catalogue_opcodes().contains(bytes[0]),
    ensures
        spec_global_setting(bytes) == Err::<(GlobalSetting, usize), DecodeError>(
            DecodeError::UnknownOpcode,
        ),
{
    let cat = spec_catalogue_opcodes();
    let op = bytes[0];
    assert(cat[0] == 0x00);
    assert(cat[1] == 0x04);
    assert(cat[2] == 0x05);
    assert(cat[3] == 0x06);
    assert(cat[4] == 0x08);
    assert(cat[5] == 0x0a);
    assert(cat[6] == 0x0b);
    assert(cat[7] == 0x0e);
    assert(cat[8] == 0x0f);
    assert(cat[9] == 0x11);
    assert(cat[10] == 0x12);
    assert(cat[11] == 0x14);
    assert(cat[12] == 0x20);
    assert(cat[13] == 0x21);
    assert(cat[14] == 0x22);
    assert(cat[15] == 0x23);
    assert(cat[16] == 0x24);
    assert(cat[17] == 0x25);
    assert(cat[18] == 0x26);
    assert(cat[19] == 0x27);
    assert(cat[20] == 0x2a);
    assert(cat[21] == 0x30);
    assert(cat[22] == 0x31);
    assert(cat[23] == 0x34);
    assert(cat[24] == 0x35);
    assert(cat[25] == 0x37);
    assert(cat[26] == 0x38);
    assert(cat[27] == 0x39);
    assert(cat[28] == 0x3a);
    assert(cat[29] == 0x3b);
}

/// A version payload whose bytes are all ordinary data bytes scans through
/// to its terminator.
proof fn lemma_version_run_reaches(bytes: Seq<u8>, i: int, end: int)
    requires
        0 <= i <= end < bytes.len(),
        bytes[end] == 0xf7,
        forall|j: int| i <= j < end ==> bytes[j] != 0xf7 && bytes[j] < 0x80,
    ensures
        spec_version_run(bytes, i) == Ok::<int, DecodeError>(end),
    decreases end - i,
{
    if i < end {
        lemma_version_run_reaches(bytes, i + 1, end);
    }
}

#[verifier::rlimit(100)]
proof fn lemma_round_trip_set_message(m: MessageModel)
    requires
        m.wf(),
        m matches MessageModel::SetGlobalSetting(_, _),
    ensures
        spec_neutron_message(m.spec_bytes()) == Ok::<MessageModel, DecodeError>(m),
{
    let bytes = m.spec_bytes();
    match m {
        MessageModel::SetGlobalSetting(id, s) => {
            lemma_device_id_round_trip(id);
            lemma_global_setting_round_trip(s, seq![0xf7u8]);
            let used = s.spec_bytes().len() as int;
            assert(bytes.skip(7) =~= s.spec_bytes() + seq![0xf7u8]);
            assert(bytes[7 + used] == 0xf7);
            assert(bytes.len() == 7 + used + 1);
        },
        _ => {},
    }
}

#[verifier::rlimit(100)]
proof fn lemma_round_trip_update_message(m: MessageModel)
    requires
        m.wf(),
        m matches MessageModel::GlobalSettingUpdate(_, _),
    ensures
        spec_neutron_message(m.spec_bytes()) == Ok::<MessageModel, DecodeError>(m),
{
    let bytes = m.spec_bytes();
    match m {
        MessageModel::GlobalSettingUpdate(id, s) => {
            lemma_device_id_round_trip(id);
            lemma_global_setting_round_trip(s, seq![0xf7u8]);
            let used = s.spec_bytes().len() as int;
            assert(bytes.skip(8) =~= s.spec_bytes() + seq![0xf7u8]);
            assert(bytes[8 + used] == 0xf7);
            assert(bytes.len() == 8 + used + 1);
        },
        _ => {},
    }
}

#[verifier::rlimit(100)]
proof fn lemma_round_trip_version_response_message(m: MessageModel)
    requires
        m.wf(),
        m matches MessageModel::SoftwareVersionResponse(_, _),
    ensures
        spec_neutron_message(m.spec_bytes()) == Ok::<MessageModel, DecodeError>(m),
{
    let bytes = m.spec_bytes();
    match m {
        MessageModel::SoftwareVersionResponse(id, v) => {
            lemma_device_id_round_trip(id);
            let payload = v.map_values(|c: char| c as u8);
            let end = 8 + v.len() as int;
            assert(bytes.len() == end + 1);
            assert(bytes[end] == 0xf7);
            assert forall|j: int| 8 <= j < end implies bytes[j] != 0xf7 && bytes[j] < 0x80 by {
                assert(bytes[j] == payload[j - 8]);
                assert('\0' <= v[j - 8] <= '\u{7f}');
            }
            lemma_version_run_reaches(bytes, 8, end);
            assert(spec_version_chars(bytes.subrange(8, end)) =~= v);
        },
        _ => {},
    }
}

/// Round-trip identity for whole messages: decoding the canonical frame of
/// a well-formed message yields exactly that message.
#[verifier::rlimit(100)]
pub proof fn lemma_neutron_message_round_trip(m: MessageModel)
    requires
        m.wf(),
    ensures
        spec_neutron_message(m.spec_bytes()) == Ok::<MessageModel, DecodeError>(m),
{
    match m {
        MessageModel::SetGlobalSetting(_, _) => lemma_round_trip_set_message(m),
        MessageModel::RestoreGlobalSetting(id) => {
            lemma_device_id_round_trip(id);
        },
        MessageModel::SoftwareVersionRequest(id) => {
            lemma_device_id_round_trip(id);
        },
        MessageModel::SoftwareVersionResponse(_, _) => lemma_round_trip_version_response_message(
            m,
        ),
        MessageModel::GlobalSettingUpdate(_, _) => lemma_round_trip_update_message(m),
    }
}

/// Encoding is injective on well-formed messages: distinct messages never
/// share a frame.
pub proof fn lemma_message_encoding_injective(m1: MessageModel, m2: MessageModel)
    requires
        m1.wf(),
        m2.wf(),
        m1.spec_bytes() == m2.spec_bytes(),
    ensures
        m1 == m2,
{
    lemma_neutron_message_round_trip(m1);
    lemma_neutron_message_round_trip(m2);
}

} // verus!
