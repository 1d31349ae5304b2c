use rustron_lib::commands::restore_default_settings;
use rustron_lib::commands::toggle_paraphonic_mode;
use rustron_lib::commands::Toggle;
use rustron_lib::parser::device_id;
use rustron_lib::parser::global_setting;
use rustron_lib::parser::neutron_message;
use rustron_lib::parser::percent;
use rustron_lib::parser::DecodeError;
use rustron_lib::protocol::fallback_hex;
use rustron_lib::protocol::format_behringer_packet;
use rustron_lib::protocol::is_behringer_packet;
use rustron_lib::protocol::wrap_message;
use rustron_lib::protocol::Channel;
use rustron_lib::protocol::DeviceId;
use rustron_lib::protocol::GlobalSetting;
use rustron_lib::protocol::NeutronMessage;
use rustron_lib::protocol::Percent;
use rustron_lib::protocol::AssignOutOption;
use rustron_lib::protocol::AutoglideSemitones;
use rustron_lib::protocol::BlendMode;
use rustron_lib::protocol::KeyTrackMode;
use rustron_lib::protocol::LfoIndex;
use rustron_lib::protocol::LfoPhaseOffset;
use rustron_lib::protocol::LfoShape;
use rustron_lib::protocol::ModSource;
use rustron_lib::protocol::OscRange;
use rustron_lib::protocol::RetriggerMode;
use rustron_lib::protocol::ToggleOption;

// Scenario: a set-parameter command has exactly one frame, and that frame
// decodes back to the command.
#[test]
fn scenario_set_command_round_trip() {
    let msg = NeutronMessage::SetGlobalSetting(
        DeviceId::Multicast,
        GlobalSetting::ParaphonicMode(ToggleOption::On),
    );
    let bytes = msg.as_bytes();
    assert_eq!(
        bytes.as_slice(),
        &[0xf0, 0x00, 0x20, 0x32, 0x28, 0x7f, 0x0a, 0x0f, 0x01, 0xf7]
    );
    assert_eq!(neutron_message(bytes.as_slice()), Ok(msg));
}

// Scenario: an update notification carries the protocol-version byte
// between its kind opcode and the parameter bytes.
#[test]
fn scenario_update_acknowledgement_frame() {
    let msg = NeutronMessage::GlobalSettingUpdate(
        DeviceId::Channel(Channel::One),
        GlobalSetting::ParaphonicMode(ToggleOption::On),
    );
    let bytes = msg.as_bytes();
    assert_eq!(
        bytes.as_slice(),
        &[0xf0, 0x00, 0x20, 0x32, 0x28, 0x00, 0x5a, 0x01, 0x0f, 0x01, 0xf7]
    );
    assert_eq!(neutron_message(bytes.as_slice()), Ok(msg));
}

// Scenario: a version report carries its text as plain ASCII bytes and
// decodes back to the same text.
#[test]
fn scenario_version_response_round_trip() {
    let msg = NeutronMessage::SoftwareVersionResponse(DeviceId::Multicast, String::from("1.2.3"));
    let bytes = msg.as_bytes();
    assert_eq!(
        bytes.as_slice(),
        &[0xf0, 0x00, 0x20, 0x32, 0x28, 0x7f, 0x74, 0x01, 0x31, 0x2e, 0x32, 0x2e, 0x33, 0xf7]
    );
    assert_eq!(
        neutron_message(bytes.as_slice()),
        Ok(NeutronMessage::SoftwareVersionResponse(DeviceId::Multicast, String::from("1.2.3")))
    );
}

// Scenario: a buffer that does not match the header fails to decode, and
// the hex fallback renders it without failing.
#[test]
fn scenario_malformed_input_falls_back_to_hex() {
    let garbage: [u8; 5] = [0x01, 0xab, 0xcd, 0xef, 0x99];
    assert!(neutron_message(&garbage).is_err());
    assert_eq!(fallback_hex(&garbage), "01abcdef99");
    assert_eq!(fallback_hex(&[]), "");
}

// The quantization formula: level = floor(min(p, 100) / 100 * 63).
#[test]
fn percent_quantization_exact_values() {
    assert_eq!(Percent::from_percentage(0).as_byte(), 0);
    assert_eq!(Percent::from_percentage(25).as_byte(), 15);
    assert_eq!(Percent::from_percentage(50).as_byte(), 31);
    assert_eq!(Percent::from_percentage(99).as_byte(), 62);
    assert_eq!(Percent::from_percentage(100).as_byte(), 63);
    assert_eq!(Percent::from_percentage(255).as_byte(), 63);
    assert_eq!(Percent::from_byte(255).as_byte(), 63);
    assert_eq!(Percent::from_byte(63).as_byte(), 63);
    assert_eq!(Percent::from_byte(12).as_byte(), 12);
}

// One byte-level round trip through the percentage codec is a fixed
// point: a second round trip changes nothing.
#[test]
fn percent_round_trip_fixed_point() {
    for p in 0u16..=255 {
        let once = Percent::from_byte(Percent::from_byte(p as u8).as_byte());
        let twice = Percent::from_byte(once.as_byte());
        assert_eq!(once, twice);
        assert_eq!(once, Percent::from_byte(p as u8));
    }
}

// A percentage payload byte above the top level is rejected by the
// decoder, never capped.
#[test]
fn percent_payload_byte_out_of_range_is_rejected() {
    assert_eq!(percent(0x3f), Some(Percent::from_byte(0x3f)));
    assert_eq!(percent(0x40), None);
    assert_eq!(
        global_setting(&[0x34, 0x40]),
        Err(DecodeError::InvalidEnumValue)
    );
}

// Every device-address byte between the channel range and the multicast
// marker is rejected.
#[test]
fn invalid_channel_bytes_rejected() {
    for b in 0x10u16..=0x7e {
        assert_eq!(device_id(b as u8), None);
    }
    for b in 0x80u16..=0xff {
        assert_eq!(device_id(b as u8), None);
    }
    let bad_address = [0xf0, 0x00, 0x20, 0x32, 0x28, 0x10, 0x0a, 0x0f, 0x01, 0xf7];
    assert_eq!(
        neutron_message(&bad_address),
        Err(DecodeError::InvalidEnumValue)
    );
}

// The sixteen channels map to the sixteen distinct wire bytes 0x00-0x0f,
// and each maps back to its channel.
#[test]
fn channel_table_is_distinct_and_round_trips() {
    let channels = [
        Channel::One,
        Channel::Two,
        Channel::Three,
        Channel::Four,
        Channel::Five,
        Channel::Six,
        Channel::Seven,
        Channel::Eight,
        Channel::Nine,
        Channel::Ten,
        Channel::Eleven,
        Channel::Twelve,
        Channel::Thirteen,
        Channel::Fourteen,
        Channel::Fifteen,
        Channel::Sixteen,
    ];
    for (i, c) in channels.iter().enumerate() {
        let setting = GlobalSetting::MidiChannel(*c);
        let msg = NeutronMessage::SetGlobalSetting(DeviceId::Multicast, setting);
        let bytes = msg.as_bytes();
        assert_eq!(bytes[8], i as u8);
        assert_eq!(neutron_message(bytes.as_slice()), Ok(msg));
    }
}

// A parameter opcode outside the table fails with the unknown-opcode
// error, both alone and inside a frame.
#[test]
fn unknown_parameter_opcode_rejected() {
    assert_eq!(global_setting(&[0x3c, 0x00]), Err(DecodeError::UnknownOpcode));
    assert_eq!(global_setting(&[0x07, 0x00]), Err(DecodeError::UnknownOpcode));
    let frame = [0xf0, 0x00, 0x20, 0x32, 0x28, 0x7f, 0x0a, 0x3c, 0x00, 0xf7];
    assert_eq!(neutron_message(&frame), Err(DecodeError::UnknownOpcode));
}

// An unknown message-kind byte fails with the unknown-opcode error.
#[test]
fn unknown_message_kind_rejected() {
    let frame = [0xf0, 0x00, 0x20, 0x32, 0x28, 0x7f, 0x42, 0xf7];
    assert_eq!(neutron_message(&frame), Err(DecodeError::UnknownOpcode));
}

// A wrong literal byte in the header is a structural mismatch.
#[test]
fn structural_mismatch_on_header_literals() {
    assert_eq!(
        neutron_message(&[0xf1, 0x00, 0x20, 0x32, 0x28, 0x7f, 0x0b, 0xf7]),
        Err(DecodeError::StructuralMismatch)
    );
    assert_eq!(
        neutron_message(&[0xf0, 0x00, 0x21, 0x32, 0x28, 0x7f, 0x0b, 0xf7]),
        Err(DecodeError::StructuralMismatch)
    );
    assert_eq!(
        neutron_message(&[0xf0, 0x00, 0x20, 0x32, 0x29, 0x7f, 0x0b, 0xf7]),
        Err(DecodeError::StructuralMismatch)
    );
}

// A buffer that ends before a required field is truncated input.
#[test]
fn truncated_input_rejected() {
    assert_eq!(neutron_message(&[]), Err(DecodeError::TruncatedInput));
    assert_eq!(neutron_message(&[0xf0, 0x00, 0x20]), Err(DecodeError::TruncatedInput));
    assert_eq!(
        neutron_message(&[0xf0, 0x00, 0x20, 0x32, 0x28]),
        Err(DecodeError::TruncatedInput)
    );
    assert_eq!(
        neutron_message(&[0xf0, 0x00, 0x20, 0x32, 0x28, 0x7f]),
        Err(DecodeError::TruncatedInput)
    );
    assert_eq!(
        neutron_message(&[0xf0, 0x00, 0x20, 0x32, 0x28, 0x7f, 0x0a, 0x0f]),
        Err(DecodeError::TruncatedInput)
    );
    assert_eq!(global_setting(&[]), Err(DecodeError::TruncatedInput));
    assert_eq!(global_setting(&[0x0f]), Err(DecodeError::TruncatedInput));
    assert_eq!(global_setting(&[0x38, 0x01]), Err(DecodeError::TruncatedInput));
}

// Bytes between the payload and the terminator, or after the terminator,
// are trailing bytes.
#[test]
fn trailing_bytes_rejected() {
    assert_eq!(
        neutron_message(&[0xf0, 0x00, 0x20, 0x32, 0x28, 0x7f, 0x0b, 0x00, 0xf7]),
        Err(DecodeError::TrailingBytes)
    );
    assert_eq!(
        neutron_message(&[0xf0, 0x00, 0x20, 0x32, 0x28, 0x7f, 0x0b, 0xf7, 0x00]),
        Err(DecodeError::TrailingBytes)
    );
    assert_eq!(
        neutron_message(&[0xf0, 0x00, 0x20, 0x32, 0x28, 0x7f, 0x0a, 0x0f, 0x01, 0x00, 0xf7]),
        Err(DecodeError::TrailingBytes)
    );
}

// An invalid payload byte inside a known field is an invalid enum value.
#[test]
fn invalid_enum_value_rejected() {
    assert_eq!(global_setting(&[0x0f, 0x02]), Err(DecodeError::InvalidEnumValue));
    assert_eq!(global_setting(&[0x26, 0x04]), Err(DecodeError::InvalidEnumValue));
    assert_eq!(global_setting(&[0x38, 0x05, 0x00]), Err(DecodeError::InvalidEnumValue));
    assert_eq!(global_setting(&[0x38, 0x01, 0x05]), Err(DecodeError::InvalidEnumValue));
    let frame = [0xf0, 0x00, 0x20, 0x32, 0x28, 0x7f, 0x0a, 0x0f, 0x02, 0xf7];
    assert_eq!(neutron_message(&frame), Err(DecodeError::InvalidEnumValue));
}

// The placeholder byte of a unit-payload parameter is consumed without
// being validated.
#[test]
fn unit_payload_placeholder_byte_is_ignored() {
    assert_eq!(
        global_setting(&[0x39, 0x05]),
        Ok((GlobalSetting::LfoResetOrder, 2))
    );
    assert_eq!(
        global_setting(&[0x06, 0x7f]),
        Ok((GlobalSetting::KeyRangeReset, 2))
    );
    let frame = [0xf0, 0x00, 0x20, 0x32, 0x28, 0x7f, 0x0a, 0x39, 0x05, 0xf7];
    assert_eq!(
        neutron_message(&frame),
        Ok(NeutronMessage::SetGlobalSetting(DeviceId::Multicast, GlobalSetting::LfoResetOrder))
    );
}

// The protocol-version byte of update and report messages must be the one
// accepted constant.
#[test]
fn wrong_protocol_version_rejected() {
    let report = [0xf0, 0x00, 0x20, 0x32, 0x28, 0x7f, 0x74, 0x02, 0x31, 0xf7];
    assert_eq!(neutron_message(&report), Err(DecodeError::InvalidEnumValue));
    let update = [0xf0, 0x00, 0x20, 0x32, 0x28, 0x7f, 0x5a, 0x02, 0x0f, 0x01, 0xf7];
    assert_eq!(neutron_message(&update), Err(DecodeError::InvalidEnumValue));
}

// A version report with no text before the terminator is rejected.
#[test]
fn empty_version_text_rejected() {
    let report = [0xf0, 0x00, 0x20, 0x32, 0x28, 0x7f, 0x74, 0x01, 0xf7];
    assert_eq!(neutron_message(&report), Err(DecodeError::TruncatedInput));
}

// A version report with a data byte outside the 7-bit range is rejected.
#[test]
fn non_ascii_version_byte_rejected() {
    let report = [0xf0, 0x00, 0x20, 0x32, 0x28, 0x7f, 0x74, 0x01, 0x31, 0x80, 0xf7];
    assert_eq!(neutron_message(&report), Err(DecodeError::InvalidEnumValue));
}

// The manufacturer-packet report: the device-kind byte is recognized or
// rendered in hex, the rest always in hex.
#[test]
fn behringer_packet_formatting() {
    let neutron_packet = [0xf0, 0x00, 0x20, 0x32, 0x28, 0x7f, 0x0a, 0x0f, 0x01, 0xf7];
    assert!(is_behringer_packet(&neutron_packet));
    assert_eq!(format_behringer_packet(&neutron_packet), "B[ N 7f0a0f01f7 ]");
    let other_device = [0xf0, 0x00, 0x20, 0x32, 0x29, 0x7f, 0xf7];
    assert!(is_behringer_packet(&other_device));
    assert_eq!(format_behringer_packet(&other_device), "B[ 29 7ff7 ]");
    let not_behringer = [0xf0, 0x00, 0x20, 0x33, 0x28, 0x7f, 0xf7];
    assert!(!is_behringer_packet(&not_behringer));
    assert!(!is_behringer_packet(&[0xf0, 0x00]));
}

// Command builders produce complete multicast frames.
#[test]
fn command_builders_produce_frames() {
    assert_eq!(
        toggle_paraphonic_mode(Toggle::On),
        vec![0xf0, 0x00, 0x20, 0x32, 0x28, 0x7f, 0x0a, 0x0f, 0x01, 0xf7]
    );
    assert_eq!(
        toggle_paraphonic_mode(Toggle::Off),
        vec![0xf0, 0x00, 0x20, 0x32, 0x28, 0x7f, 0x0a, 0x0f, 0x00, 0xf7]
    );
    assert_eq!(
        restore_default_settings(),
        vec![0xf0, 0x00, 0x20, 0x32, 0x28, 0x7f, 0x0b, 0xf7]
    );
    assert_eq!(
        wrap_message(vec![0x26, 0x02]),
        vec![0xf0, 0x00, 0x20, 0x32, 0x28, 0x7f, 0x0a, 0x26, 0x02, 0xf7]
    );
    let built = toggle_paraphonic_mode(Toggle::On);
    assert_eq!(
        neutron_message(built.as_slice()),
        Ok(NeutronMessage::SetGlobalSetting(
            DeviceId::Multicast,
            GlobalSetting::ParaphonicMode(ToggleOption::On)
        ))
    );
}

// Every catalogue variant round trips through a whole frame, both as a
// command and as an update notification.
#[test]
fn every_catalogue_variant_round_trips() {
    let settings = vec![
        GlobalSetting::ParaphonicMode(ToggleOption::On),
        GlobalSetting::OscSync(ToggleOption::Off),
        GlobalSetting::Osc1BlendMode(BlendMode::Switch),
        GlobalSetting::Osc2BlendMode(BlendMode::Blend),
        GlobalSetting::Osc1TunePotBypass(ToggleOption::On),
        GlobalSetting::Osc2TunePotBypass(ToggleOption::Off),
        GlobalSetting::Osc1Range(OscRange::Sixteen),
        GlobalSetting::Osc2Range(OscRange::Eight),
        GlobalSetting::Osc2KeyTrack(KeyTrackMode::Hold),
        GlobalSetting::Osc1Autoglide(AutoglideSemitones::MinusTwelve),
        GlobalSetting::Osc2Autoglide(AutoglideSemitones::PlusTwelve),
        GlobalSetting::LfoBlendMode(BlendMode::Switch),
        GlobalSetting::LfoKeySync(ToggleOption::On),
        GlobalSetting::LfoOneShot(ToggleOption::Off),
        GlobalSetting::LfoRetrigger(ToggleOption::On),
        GlobalSetting::LfoMidiSync(ToggleOption::Off),
        GlobalSetting::LfoDepth(Percent::from_byte(63)),
        GlobalSetting::LfoShapeOrder(LfoIndex::Five, LfoShape::RisingSaw),
        GlobalSetting::LfoShapePhase(LfoIndex::One, LfoPhaseOffset::ThreeHundredFifteen),
        GlobalSetting::LfoResetOrder,
        GlobalSetting::VcfKeyTracking(ToggleOption::On),
        GlobalSetting::VcfModDepth(Percent::from_byte(0)),
        GlobalSetting::VcfModSource(ModSource::Velocity),
        GlobalSetting::MidiChannel(Channel::Fifteen),
        GlobalSetting::DisableMidiDips(ToggleOption::Off),
        GlobalSetting::PolyChainMode(ToggleOption::On),
        GlobalSetting::KeyRangeMute(ToggleOption::Off),
        GlobalSetting::KeyRangeReset,
        GlobalSetting::AssignOut(AssignOutOption::AfterTouch),
        GlobalSetting::EnvRetriggerMode(RetriggerMode::Legato),
    ];
    for setting in settings {
        let command = NeutronMessage::SetGlobalSetting(DeviceId::Multicast, setting);
        let bytes = command.as_bytes();
        assert_eq!(neutron_message(bytes.as_slice()), Ok(command));
        let update = NeutronMessage::GlobalSettingUpdate(
            DeviceId::Channel(Channel::Three),
            setting,
        );
        let bytes = update.as_bytes();
        assert_eq!(neutron_message(bytes.as_slice()), Ok(update));
    }
}

// A restore command and a version request round trip through the codec.
#[test]
fn restore_and_version_request_round_trip() {
    for msg in [
        NeutronMessage::RestoreGlobalSetting(DeviceId::Channel(Channel::Sixteen)),
        NeutronMessage::SoftwareVersionRequest(DeviceId::Multicast),
    ] {
        let bytes = msg.as_bytes();
        assert_eq!(neutron_message(bytes.as_slice()), Ok(msg));
    }
}
