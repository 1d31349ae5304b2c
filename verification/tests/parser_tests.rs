use rustron_lib::parser::blend_mode;
use rustron_lib::parser::device_id;
use rustron_lib::parser::global_setting;
use rustron_lib::parser::key_track_mode;
use rustron_lib::parser::neutron_message;
use rustron_lib::parser::osc_range;
use rustron_lib::parser::toggle_option;
use rustron_lib::protocol::AssignOutOption;
use rustron_lib::protocol::AutoglideSemitones;
use rustron_lib::protocol::BlendMode;
use rustron_lib::protocol::BlendMode::Blend;
use rustron_lib::protocol::BlendMode::Switch;
use rustron_lib::protocol::ByteBuilder;
use rustron_lib::protocol::Channel;
use rustron_lib::protocol::DeviceId;
use rustron_lib::protocol::GlobalSetting;
use rustron_lib::protocol::GlobalSetting::AssignOut;
use rustron_lib::protocol::GlobalSetting::DisableMidiDips;
use rustron_lib::protocol::GlobalSetting::EnvRetriggerMode;
use rustron_lib::protocol::GlobalSetting::KeyRangeMute;
use rustron_lib::protocol::GlobalSetting::KeyRangeReset;
use rustron_lib::protocol::GlobalSetting::LfoBlendMode;
use rustron_lib::protocol::GlobalSetting::LfoDepth;
use rustron_lib::protocol::GlobalSetting::LfoKeySync;
use rustron_lib::protocol::GlobalSetting::LfoMidiSync;
use rustron_lib::protocol::GlobalSetting::LfoOneShot;
use rustron_lib::protocol::GlobalSetting::LfoResetOrder;
use rustron_lib::protocol::GlobalSetting::LfoRetrigger;
use rustron_lib::protocol::GlobalSetting::LfoShapeOrder;
use rustron_lib::protocol::GlobalSetting::LfoShapePhase;
use rustron_lib::protocol::GlobalSetting::MidiChannel;
use rustron_lib::protocol::GlobalSetting::Osc1Autoglide;
use rustron_lib::protocol::GlobalSetting::Osc1BlendMode;
use rustron_lib::protocol::GlobalSetting::Osc1Range;
use rustron_lib::protocol::GlobalSetting::Osc1TunePotBypass;
use rustron_lib::protocol::GlobalSetting::Osc2Autoglide;
use rustron_lib::protocol::GlobalSetting::Osc2BlendMode;
use rustron_lib::protocol::GlobalSetting::Osc2KeyTrack;
use rustron_lib::protocol::GlobalSetting::Osc2Range;
use rustron_lib::protocol::GlobalSetting::Osc2TunePotBypass;
use rustron_lib::protocol::GlobalSetting::OscSync;
use rustron_lib::protocol::GlobalSetting::ParaphonicMode;
use rustron_lib::protocol::GlobalSetting::PolyChainMode;
use rustron_lib::protocol::GlobalSetting::VcfKeyTracking;
use rustron_lib::protocol::GlobalSetting::VcfModDepth;
use rustron_lib::protocol::GlobalSetting::VcfModSource;
use rustron_lib::protocol::KeyTrackMode;
use rustron_lib::protocol::KeyTrackMode::Track;
use rustron_lib::protocol::LfoIndex;
use rustron_lib::protocol::LfoPhaseOffset;
use rustron_lib::protocol::LfoShape;
use rustron_lib::protocol::ModSource;
use rustron_lib::protocol::NeutronMessage::GlobalSettingUpdate;
use rustron_lib::protocol::NeutronMessage::RestoreGlobalSetting;
use rustron_lib::protocol::NeutronMessage::SetGlobalSetting;
use rustron_lib::protocol::NeutronMessage::SoftwareVersionRequest;
use rustron_lib::protocol::NeutronMessage::SoftwareVersionResponse;
use rustron_lib::protocol::OscRange;
use rustron_lib::protocol::OscRange::PlusMinusTen;
use rustron_lib::protocol::OscRange::ThirtyTwo;
use rustron_lib::protocol::Percent;
use rustron_lib::protocol::RetriggerMode;
use rustron_lib::protocol::ToggleOption;
use rustron_lib::protocol::ToggleOption::Off;
use rustron_lib::protocol::ToggleOption::On;
use rustron_lib::protocol::BEHRINGER_MANUFACTURER_0;
use rustron_lib::protocol::BEHRINGER_MANUFACTURER_1;
use rustron_lib::protocol::BEHRINGER_MANUFACTURER_2;
use rustron_lib::protocol::NEUTRON_DEVICE;
use rustron_lib::protocol::SYSEX_EOX;
use rustron_lib::protocol::SYSEX_MESSAGE_START;

#[test]
fn parser_test_toggle_option() {
    assert_eq!(toggle_option(ToggleOption::On.as_byte()), Some(ToggleOption::On));
    assert_eq!(toggle_option(ToggleOption::Off.as_byte()), Some(ToggleOption::Off));
}

#[test]
fn parser_test_blend_mode() {
    assert_eq!(blend_mode(BlendMode::Switch.as_byte()), Some(BlendMode::Switch));
    assert_eq!(blend_mode(BlendMode::Blend.as_byte()), Some(BlendMode::Blend));
}

#[test]
fn parser_test_osc_range() {
    assert_eq!(osc_range(OscRange::ThirtyTwo.as_byte()), Some(OscRange::ThirtyTwo));
    assert_eq!(osc_range(OscRange::Sixteen.as_byte()), Some(OscRange::Sixteen));
    assert_eq!(osc_range(OscRange::Eight.as_byte()), Some(OscRange::Eight));
    assert_eq!(osc_range(OscRange::PlusMinusTen.as_byte()), Some(OscRange::PlusMinusTen));
}

#[test]
fn parser_test_key_track_mode() {
    assert_eq!(key_track_mode(KeyTrackMode::Hold.as_byte()), Some(KeyTrackMode::Hold));
    assert_eq!(key_track_mode(KeyTrackMode::Track.as_byte()), Some(KeyTrackMode::Track));
}

// Test helper
fn to_vec(gs: GlobalSetting) -> Vec<u8> {
    let mut buf = Vec::new();
    gs.append_to(&mut buf);
    buf
}

fn verify_global_setting(gs: GlobalSetting) {
    let bytes = to_vec(gs);
    assert_eq!(global_setting(bytes.as_slice()), Ok((gs, bytes.len())));
}

fn all_autoglide_semitones() -> Vec<AutoglideSemitones> {
    vec![
        AutoglideSemitones::MinusTwelve,
        AutoglideSemitones::MinusEleven,
        AutoglideSemitones::MinusTen,
        AutoglideSemitones::MinusNine,
        AutoglideSemitones::MinusEight,
        AutoglideSemitones::MinusSeven,
        AutoglideSemitones::MinusSix,
        AutoglideSemitones::MinusFive,
        AutoglideSemitones::MinusFour,
        AutoglideSemitones::MinusThree,
        AutoglideSemitones::MinusTwo,
        AutoglideSemitones::MinusOne,
        AutoglideSemitones::Zero,
        AutoglideSemitones::PlusOne,
        AutoglideSemitones::PlusTwo,
        AutoglideSemitones::PlusThree,
        AutoglideSemitones::PlusFour,
        AutoglideSemitones::PlusFive,
        AutoglideSemitones::PlusSix,
        AutoglideSemitones::PlusSeven,
        AutoglideSemitones::PlusEight,
        AutoglideSemitones::PlusNine,
        AutoglideSemitones::PlusTen,
        AutoglideSemitones::PlusEleven,
        AutoglideSemitones::PlusTwelve,
    ]
}

fn all_mod_sources() -> Vec<ModSource> {
    vec![ModSource::Off, ModSource::AfterTouch, ModSource::ModWheel, ModSource::Velocity]
}

fn all_channels() -> Vec<Channel> {
    vec![
        Channel::One,
        Channel::Two,
        Channel::Three,
        Channel::Four,
        Channel::Five,
        Channel::Six,
        Channel::Seven,
        Channel::Eight,
        Channel::Nine,
        Channel::Ten,
        Channel::Eleven,
        Channel::Twelve,
        Channel::Thirteen,
        Channel::Fourteen,
        Channel::Fifteen,
        Channel::Sixteen,
    ]
}

fn all_assign_out_options() -> Vec<AssignOutOption> {
    vec![
        AssignOutOption::Osc1,
        AssignOutOption::Osc2,
        AssignOutOption::Velocity,
        AssignOutOption::ModWheel,
        AssignOutOption::AfterTouch,
    ]
}

fn all_lfo_shapes() -> Vec<LfoShape> {
    vec![
        LfoShape::Sine,
        LfoShape::Triangle,
        LfoShape::FallingSaw,
        LfoShape::Square,
        LfoShape::RisingSaw,
    ]
}

fn all_lfo_phase_offsets() -> Vec<LfoPhaseOffset> {
    vec![
        LfoPhaseOffset::Zero,
        LfoPhaseOffset::FourtyFive,
        LfoPhaseOffset::Ninety,
        LfoPhaseOffset::HundredThirtyFive,
        LfoPhaseOffset::HundredEighty,
        LfoPhaseOffset::TwoHundredTwentyFive,
        LfoPhaseOffset::TwoHundredSeventy,
        LfoPhaseOffset::ThreeHundredFifteen,
    ]
}

#[test]
fn parser_test_global_setting() {
    verify_global_setting(ParaphonicMode(On));
    verify_global_setting(OscSync(Off));
    verify_global_setting(Osc1BlendMode(Blend));
    verify_global_setting(Osc2BlendMode(Switch));
    verify_global_setting(Osc1TunePotBypass(On));
    verify_global_setting(Osc2TunePotBypass(On));
    verify_global_setting(Osc1Range(ThirtyTwo));
    verify_global_setting(Osc1Range(PlusMinusTen));
    verify_global_setting(Osc2KeyTrack(Track));
    for x in all_autoglide_semitones() {
        verify_global_setting(Osc1Autoglide(x));
    }
    for x in all_autoglide_semitones() {
        verify_global_setting(Osc2Autoglide(x));
    }
    verify_global_setting(LfoBlendMode(Blend));
    verify_global_setting(LfoKeySync(On));
    verify_global_setting(LfoOneShot(On));
    verify_global_setting(LfoRetrigger(On));
    verify_global_setting(LfoMidiSync(On));
    verify_global_setting(LfoResetOrder);
    verify_global_setting(VcfKeyTracking(On));
    for x in all_mod_sources() {
        verify_global_setting(VcfModSource(x));
    }
    for x in all_channels() {
        verify_global_setting(MidiChannel(x));
    }
    verify_global_setting(DisableMidiDips(On));
    verify_global_setting(PolyChainMode(On));
    verify_global_setting(KeyRangeMute(On));
    verify_global_setting(KeyRangeReset);
    for x in all_assign_out_options() {
        verify_global_setting(AssignOut(x));
    }
    verify_global_setting(EnvRetriggerMode(RetriggerMode::Legato));
    assert_eq!(
        global_setting(to_vec(LfoDepth(Percent::from_percentage(50))).as_slice()),
        Ok((LfoDepth(Percent::from_byte(31)), 2))
    );
    assert_eq!(
        global_setting(to_vec(VcfModDepth(Percent::from_percentage(50))).as_slice()),
        Ok((VcfModDepth(Percent::from_byte(31)), 2))
    );
    for shape in all_lfo_shapes() {
        verify_global_setting(LfoShapeOrder(LfoIndex::Two, shape));
    }
    for phase in all_lfo_phase_offsets() {
        verify_global_setting(LfoShapePhase(LfoIndex::Three, phase));
    }
}

#[test]
fn parser_test_device_id() {
    assert_eq!(device_id(0x00), Some(DeviceId::Channel(Channel::One)));
    assert_eq!(device_id(0x0f), Some(DeviceId::Channel(Channel::Sixteen)));
    assert_eq!(device_id(0x7f), Some(DeviceId::Multicast));
    match device_id(0x10) {
        Some(_) => panic!("Invalid DeviceId should fail"),
        _ => (),
    }
}

#[test]
fn parser_test_neutron_message() {
    assert_eq!(
        neutron_message(
            SetGlobalSetting(DeviceId::Multicast, ParaphonicMode(On)).as_bytes().as_slice()
        ),
        Ok(SetGlobalSetting(DeviceId::Multicast, ParaphonicMode(On)))
    );
    assert_eq!(
        neutron_message(
            RestoreGlobalSetting(DeviceId::Channel(Channel::One)).as_bytes().as_slice()
        ),
        Ok(RestoreGlobalSetting(DeviceId::Channel(Channel::One)))
    );
    assert_eq!(
        neutron_message(SoftwareVersionRequest(DeviceId::Multicast).as_bytes().as_slice()),
        Ok(SoftwareVersionRequest(DeviceId::Multicast))
    );
    assert_eq!(
        neutron_message(
            SoftwareVersionResponse(DeviceId::Multicast, String::from("1.2.3"))
                .as_bytes()
                .as_slice()
        ),
        Ok(SoftwareVersionResponse(DeviceId::Multicast, String::from("1.2.3")))
    );
    assert_eq!(
        neutron_message(
            GlobalSettingUpdate(DeviceId::Multicast, ParaphonicMode(On)).as_bytes().as_slice()
        ),
        Ok(GlobalSettingUpdate(DeviceId::Multicast, ParaphonicMode(On)))
    );
}

#[test]
fn parser_test_command() {
    let turn_on_paraphonic_raw: [u8; 10] = [
        SYSEX_MESSAGE_START,
        BEHRINGER_MANUFACTURER_0,
        BEHRINGER_MANUFACTURER_1,
        BEHRINGER_MANUFACTURER_2,
        NEUTRON_DEVICE,
        0x7f,
        0x0a,
        0x0f, // paraphonic mode
        0x01, // value
        SYSEX_EOX,
    ];
    let msg_turn_on_paraphonic =
        SetGlobalSetting(DeviceId::Multicast, ParaphonicMode(On)).as_bytes();
    assert_eq!(turn_on_paraphonic_raw, msg_turn_on_paraphonic.as_slice());

    let ack_turn_on_paraphonic_raw: [u8; 11] = [
        SYSEX_MESSAGE_START,
        BEHRINGER_MANUFACTURER_0,
        BEHRINGER_MANUFACTURER_1,
        BEHRINGER_MANUFACTURER_2,
        NEUTRON_DEVICE,
        0x00,
        0x5a,
        0x01,
        0x0f, // paraphonic mode
        0x01, // value
        SYSEX_EOX,
    ];
    let ack_turn_on_paraphonic =
        GlobalSettingUpdate(DeviceId::Channel(Channel::One), ParaphonicMode(On)).as_bytes();
    assert_eq!(ack_turn_on_paraphonic_raw, ack_turn_on_paraphonic.as_slice())
}
