//! Ready-made multicast command frames, one builder per panel action.
//!
//! These are the first-generation command API: each builder returns the
//! complete frame for one set-parameter command, addressed to every unit.
//! Builders for parameters whose payload encoding is not confirmed fix the
//! payload at a default byte.

use crate::protocol::spec_wrapped;
use crate::protocol::wrap_message;
use crate::protocol::BEHRINGER_MANUFACTURER_0;
use crate::protocol::BEHRINGER_MANUFACTURER_1;
use crate::protocol::BEHRINGER_MANUFACTURER_2;
use crate::protocol::MULTICAST_DEVICE_ID;
use crate::protocol::NEUTRON_DEVICE;
use crate::protocol::SYSEX_EOX;
use crate::protocol::SYSEX_MESSAGE_START;
use vstd::prelude::*;

verus! {

/// An on/off choice for the toggle builders.
pub enum Toggle {
    On,
    Off,
}

pub open spec fn spec_toggle_value(t: Toggle) -> u8 {
    match t {
        Toggle::On => 0x01,
        Toggle::Off => 0x00,
    }
}

fn toggle_value(t: Toggle) -> (b: u8)
    ensures
        b == spec_toggle_value(t),
{
    match t {
        Toggle::On => 0x01,
        Toggle::Off => 0x00,
    }
}

/// A frame that carries a bare message-kind byte after the multicast
/// address, with no set-parameter opcode and no payload.
pub open spec fn spec_plain_frame(kind: u8) -> Seq<u8> {
    seq![0xf0u8, 0x00u8, 0x20u8, 0x32u8, 0x28u8, 0x7fu8, kind, 0xf7u8]
}

fn wrapped_pair(opcode: u8, value: u8) -> (r: Vec<u8>)
    ensures
        r@ == spec_wrapped(seq![opcode, value]),
{
    let mut payload: Vec<u8> = Vec::new();
    payload.push(opcode);
    payload.push(value);
    proof {
        assert(payload@ =~= seq![opcode, value]);
    }
    wrap_message(payload)
}

fn wrapped_triple(opcode: u8, first: u8, second: u8) -> (r: Vec<u8>)
    ensures
        r@ == spec_wrapped(seq![opcode, first, second]),
{
    let mut payload: Vec<u8> = Vec::new();
    payload.push(opcode);
    payload.push(first);
    payload.push(second);
    proof {
        assert(payload@ =~= seq![opcode, first, second]);
    }
    wrap_message(payload)
}

fn plain_frame(kind: u8) -> (r: Vec<u8>)
    ensures
        r@ == spec_plain_frame(kind),
{
    let mut frame: Vec<u8> = Vec::new();
    frame.push(SYSEX_MESSAGE_START);
    frame.push(BEHRINGER_MANUFACTURER_0);
    frame.push(BEHRINGER_MANUFACTURER_1);
    frame.push(BEHRINGER_MANUFACTURER_2);
    frame.push(NEUTRON_DEVICE);
    frame.push(MULTICAST_DEVICE_ID);
    frame.push(kind);
    frame.push(SYSEX_EOX);
    proof {
        assert(frame@ =~= spec_plain_frame(kind));
    }
    frame
}

pub fn toggle_paraphonic_mode(t: Toggle) -> (r: Vec<u8>)
    ensures
        r@ == spec_wrapped(seq![0x0fu8, spec_toggle_value(t)]),
{
    wrapped_pair(0x0f, toggle_value(t))
}

pub fn toggle_osc_sync(t: Toggle) -> (r: Vec<u8>)
    ensures
        r@ == spec_wrapped(seq![0x0eu8, spec_toggle_value(t)]),
{
    wrapped_pair(0x0e, toggle_value(t))
}

pub fn toggle_osc_1_blend_mode(t: Toggle) -> (r: Vec<u8>)
    ensures
        r@ == spec_wrapped(seq![0x20u8, spec_toggle_value(t)]),
{
    wrapped_pair(0x20, toggle_value(t))
}

pub fn osc_1_range_32() -> (r: Vec<u8>)
    ensures
        r@ == spec_wrapped(seq![0x26u8, 0x00u8]),
{
    wrapped_pair(0x26, 0x00)
}

pub fn osc_1_range_16() -> (r: Vec<u8>)
    ensures
        r@ == spec_wrapped(seq![0x26u8, 0x01u8]),
{
    wrapped_pair(0x26, 0x01)
}

pub fn osc_1_range_8() -> (r: Vec<u8>)
    ensures
        r@ == spec_wrapped(seq![0x26u8, 0x02u8]),
{
    wrapped_pair(0x26, 0x02)
}

pub fn osc_1_range_pm_10_oct() -> (r: Vec<u8>)
    ensures
        r@ == spec_wrapped(seq![0x26u8, 0x03u8]),
{
    wrapped_pair(0x26, 0x03)
}

pub fn toggle_osc_2_blend_mode(t: Toggle) -> (r: Vec<u8>)
    ensures
        r@ == spec_wrapped(seq![0x21u8, spec_toggle_value(t)]),
{
    wrapped_pair(0x21, toggle_value(t))
}

pub fn osc_2_range_32() -> (r: Vec<u8>)
    ensures
        r@ == spec_wrapped(seq![0x27u8, 0x00u8]),
{
    wrapped_pair(0x27, 0x00)
}

pub fn osc_2_range_16() -> (r: Vec<u8>)
    ensures
        r@ == spec_wrapped(seq![0x27u8, 0x01u8]),
{
    wrapped_pair(0x27, 0x01)
}

pub fn osc_2_range_8() -> (r: Vec<u8>)
    ensures
        r@ == spec_wrapped(seq![0x27u8, 0x02u8]),
{
    wrapped_pair(0x27, 0x02)
}

pub fn osc_2_range_pm_10_oct() -> (r: Vec<u8>)
    ensures
        r@ == spec_wrapped(seq![0x27u8, 0x03u8]),
{
    wrapped_pair(0x27, 0x03)
}

pub fn toggle_lfo_blend_mode(t: Toggle) -> (r: Vec<u8>)
    ensures
        r@ == spec_wrapped(seq![0x30u8, spec_toggle_value(t)]),
{
    wrapped_pair(0x30, toggle_value(t))
}

pub fn toggle_lfo_key_sync(t: Toggle) -> (r: Vec<u8>)
    ensures
        r@ == spec_wrapped(seq![0x37u8, spec_toggle_value(t)]),
{
    wrapped_pair(0x37, toggle_value(t))
}

pub fn toggle_lfo_one_shot(t: Toggle) -> (r: Vec<u8>)
    ensures
        r@ == spec_wrapped(seq![0x31u8, spec_toggle_value(t)]),
{
    wrapped_pair(0x31, toggle_value(t))
}

pub fn toggle_vcf_key_tracking(t: Toggle) -> (r: Vec<u8>)
    ensures
        r@ == spec_wrapped(seq![0x11u8, spec_toggle_value(t)]),
{
    wrapped_pair(0x11, toggle_value(t))
}

/// Key-split point command; the payload encoding is unconfirmed, so the
/// split stays at its disabled default.
pub fn osc_key_split() -> (r: Vec<u8>)
    ensures
        r@ == spec_wrapped(seq![0x28u8, 0x00u8]),
{
    wrapped_pair(0x28, 0x00)
}

pub fn toggle_osc_1_tune_pot(t: Toggle) -> (r: Vec<u8>)
    ensures
        r@ == spec_wrapped(seq![0x22u8, spec_toggle_value(t)]),
{
    wrapped_pair(0x22, toggle_value(t))
}

pub fn osc_1_autoglide() -> (r: Vec<u8>)
    ensures
        r@ == spec_wrapped(seq![0x24u8, 0x00u8]),
{
    wrapped_pair(0x24, 0x00)
}

pub fn toggle_osc_2_tune_pot(t: Toggle) -> (r: Vec<u8>)
    ensures
        r@ == spec_wrapped(seq![0x23u8, spec_toggle_value(t)]),
{
    wrapped_pair(0x23, toggle_value(t))
}

pub fn osc_2_autoglide() -> (r: Vec<u8>)
    ensures
        r@ == spec_wrapped(seq![0x25u8, 0x00u8]),
{
    wrapped_pair(0x25, 0x00)
}

pub fn toggle_osc_2_key_track_hold(t: Toggle) -> (r: Vec<u8>)
    ensures
        r@ == spec_wrapped(seq![0x2au8, spec_toggle_value(t)]),
{
    wrapped_pair(0x2a, toggle_value(t))
}

pub fn toggle_lfo_retrigger(t: Toggle) -> (r: Vec<u8>)
    ensures
        r@ == spec_wrapped(seq![0x3bu8, spec_toggle_value(t)]),
{
    wrapped_pair(0x3b, toggle_value(t))
}

pub fn toggle_lfo_midi_sync(t: Toggle) -> (r: Vec<u8>)
    ensures
        r@ == spec_wrapped(seq![0x35u8, spec_toggle_value(t)]),
{
    wrapped_pair(0x35, toggle_value(t))
}

pub fn lfo_key_tracking() -> (r: Vec<u8>)
    ensures
        r@ == spec_wrapped(seq![0x32u8, 0x00u8]),
{
    wrapped_pair(0x32, 0x00)
}

pub fn lfo_depth() -> (r: Vec<u8>)
    ensures
        r@ == spec_wrapped(seq![0x34u8, 0x00u8]),
{
    wrapped_pair(0x34, 0x00)
}

pub fn lfo_reset_order() -> (r: Vec<u8>)
    ensures
        r@ == spec_wrapped(seq![0x39u8, 0x00u8]),
{
    wrapped_pair(0x39, 0x00)
}

pub fn lfo_shape_order() -> (r: Vec<u8>)
    ensures
        r@ == spec_wrapped(seq![0x38u8, 0x00u8, 0x00u8]),
{
    wrapped_triple(0x38, 0x00, 0x00)
}

pub fn lfo_phase_offset() -> (r: Vec<u8>)
    ensures
        r@ == spec_wrapped(seq![0x38u8, 0x00u8, 0x00u8]),
{
    wrapped_triple(0x38, 0x00, 0x00)
}

pub fn vcf_mod_depth() -> (r: Vec<u8>)
    ensures
        r@ == spec_wrapped(seq![0x14u8, 0x00u8]),
{
    wrapped_pair(0x14, 0x00)
}

pub fn vcf_mod_source() -> (r: Vec<u8>)
    ensures
        r@ == spec_wrapped(seq![0x12u8, 0x00u8]),
{
    wrapped_pair(0x12, 0x00)
}

pub fn vcf_mode() -> (r: Vec<u8>)
    ensures
        r@ == spec_wrapped(seq![0x10u8, 0x00u8]),
{
    wrapped_pair(0x10, 0x00)
}

pub fn midi_channel() -> (r: Vec<u8>)
    ensures
        r@ == spec_wrapped(seq![0x00u8, 0x00u8]),
{
    wrapped_pair(0x00, 0x00)
}

pub fn disable_midi_dips() -> (r: Vec<u8>)
    ensures
        r@ == spec_wrapped(seq![0x0au8, 0x01u8]),
{
    wrapped_pair(0x0a, 0x01)
}

pub fn enable_midi_dips() -> (r: Vec<u8>)
    ensures
        r@ == spec_wrapped(seq![0x0au8, 0x00u8]),
{
    wrapped_pair(0x0a, 0x00)
}

pub fn env_retrigger_staccato() -> (r: Vec<u8>)
    ensures
        r@ == spec_wrapped(seq![0x05u8, 0x00u8]),
{
    wrapped_pair(0x05, 0x00)
}

pub fn env_retrigger_legato() -> (r: Vec<u8>)
    ensures
        r@ == spec_wrapped(seq![0x05u8, 0x01u8]),
{
    wrapped_pair(0x05, 0x01)
}

pub fn note_priority() -> (r: Vec<u8>)
    ensures
        r@ == spec_wrapped(seq![0x01u8, 0x00u8]),
{
    wrapped_pair(0x01, 0x00)
}

pub fn pitch_bend_range() -> (r: Vec<u8>)
    ensures
        r@ == spec_wrapped(seq![0x03u8, 0x00u8]),
{
    wrapped_pair(0x03, 0x00)
}

pub fn assignable_out() -> (r: Vec<u8>)
    ensures
        r@ == spec_wrapped(seq![0x04u8, 0x00u8]),
{
    wrapped_pair(0x04, 0x00)
}

pub fn poly_chain_mode_on() -> (r: Vec<u8>)
    ensures
        r@ == spec_wrapped(seq![0x08u8, 0x01u8]),
{
    wrapped_pair(0x08, 0x01)
}

pub fn poly_chain_mode_off() -> (r: Vec<u8>)
    ensures
        r@ == spec_wrapped(seq![0x08u8, 0x00u8]),
{
    wrapped_pair(0x08, 0x00)
}

pub fn key_range_mute() -> (r: Vec<u8>)
    ensures
        r@ == spec_wrapped(seq![0x0bu8, 0x01u8]),
{
    wrapped_pair(0x0b, 0x01)
}

pub fn key_range_unmute() -> (r: Vec<u8>)
    ensures
        r@ == spec_wrapped(seq![0x0bu8, 0x00u8]),
{
    wrapped_pair(0x0b, 0x00)
}

pub fn key_range_min() -> (r: Vec<u8>)
    ensures
        r@ == spec_wrapped(seq![0x0cu8, 0x18u8]),
{
    wrapped_pair(0x0c, 0x18)
}

pub fn key_range_max() -> (r: Vec<u8>)
    ensures
        r@ == spec_wrapped(seq![0x0du8, 0x60u8]),
{
    wrapped_pair(0x0d, 0x60)
}

pub fn key_range_reset() -> (r: Vec<u8>)
    ensures
        r@ == spec_wrapped(seq![0x06u8, 0x00u8]),
{
    wrapped_pair(0x06, 0x00)
}

/// Restore every setting to its device default; this frame carries the
/// restore opcode with no set-parameter opcode in front of it.
pub fn restore_default_settings() -> (r: Vec<u8>)
    ensures
        r@ == spec_plain_frame(0x0bu8),
{
    plain_frame(0x0b)
}

/// The periodic state poll the vendor application sends.
pub fn maybe_request_state() -> (r: Vec<u8>)
    ensures
        r@ == spec_plain_frame(0x05u8),
{
    plain_frame(0x05)
}

/// The version request the vendor application sends on connect.
pub fn maybe_request_state2() -> (r: Vec<u8>)
    ensures
        r@ == spec_plain_frame(0x73u8),
{
    plain_frame(0x73)
}

} // verus!
