//! Pure state kept by a frontend: the mirror of the unit's settings, a
//! selectable list and a tab strip.

use crate::protocol::GlobalSetting;
use crate::protocol::MessageModel;
use crate::protocol::NeutronMessage;
use crate::protocol::ToggleOption;
use vstd::prelude::*;

verus! {

/// The slice of the unit's global settings a frontend mirrors.
pub struct GlobalSettingsState {
    pub device_id: u8,
    pub paraphonic_mode: bool,
    pub osc_sync: bool,
}

/// Tracked state of the connected unit, fed by the messages that pass by.
pub struct NeutronState {
    pub global_settings: GlobalSettingsState,
}

/// The paraphonic flag after one setting is applied: a paraphonic-mode
/// setting overwrites it, every other setting leaves it alone.
pub open spec fn spec_paraphonic_after(current: bool, setting: GlobalSetting) -> bool {
    match setting {
        GlobalSetting::ParaphonicMode(t) => t == ToggleOption::On,
        _ => current,
    }
}

/// The paraphonic flag after one message passes by: set-parameter commands
/// and update notifications apply their setting, every other message kind
/// leaves the state alone.
pub open spec fn spec_paraphonic_after_message(current: bool, message: MessageModel) -> bool {
    match message {
        MessageModel::SetGlobalSetting(_, s) => spec_paraphonic_after(current, s),
        MessageModel::GlobalSettingUpdate(_, s) => spec_paraphonic_after(current, s),
        _ => current,
    }
}

impl NeutronState {
    pub fn new() -> (r: NeutronState)
        ensures
            r.global_settings.device_id == 0,
            !r.global_settings.paraphonic_mode,
            !r.global_settings.osc_sync,
    {
        NeutronState {
            global_settings: GlobalSettingsState {
                device_id: 0,
                paraphonic_mode: false,
                osc_sync: false,
            },
        }
    }

    pub fn global_setting_update(&mut self, global_setting: GlobalSetting)
        ensures
            final(self).global_settings.paraphonic_mode == spec_paraphonic_after(
                old(self).global_settings.paraphonic_mode,
                global_setting,
            ),
            final(self).global_settings.osc_sync == old(self).global_settings.osc_sync,
            final(self).global_settings.device_id == old(self).global_settings.device_id,
    {
        match global_setting {
            GlobalSetting::ParaphonicMode(t) => {
                self.global_settings.paraphonic_mode = match t {
                    ToggleOption::On => true,
                    ToggleOption::Off => false,
                };
            },
            GlobalSetting::OscSync(_) => {},
            GlobalSetting::Osc1BlendMode(_) => {},
            GlobalSetting::Osc2BlendMode(_) => {},
            GlobalSetting::Osc1TunePotBypass(_) => {},
            GlobalSetting::Osc2TunePotBypass(_) => {},
            GlobalSetting::Osc1Range(_) => {},
            GlobalSetting::Osc2Range(_) => {},
            GlobalSetting::Osc2KeyTrack(_) => {},
            GlobalSetting::Osc1Autoglide(_) => {},
            GlobalSetting::Osc2Autoglide(_) => {},
            GlobalSetting::LfoBlendMode(_) => {},
            GlobalSetting::LfoKeySync(_) => {},
            GlobalSetting::LfoOneShot(_) => {},
            GlobalSetting::LfoRetrigger(_) => {},
            GlobalSetting::LfoMidiSync(_) => {},
            GlobalSetting::LfoDepth(_) => {},
            GlobalSetting::LfoShapeOrder(_, _) => {},
            GlobalSetting::LfoShapePhase(_, _) => {},
            GlobalSetting::LfoResetOrder => {},
            GlobalSetting::VcfKeyTracking(_) => {},
            GlobalSetting::VcfModDepth(_) => {},
            GlobalSetting::VcfModSource(_) => {},
            GlobalSetting::MidiChannel(_) => {},
            GlobalSetting::DisableMidiDips(_) => {},
            GlobalSetting::PolyChainMode(_) => {},
            GlobalSetting::KeyRangeMute(_) => {},
            GlobalSetting::KeyRangeReset => {},
            GlobalSetting::AssignOut(_) => {},
            GlobalSetting::EnvRetriggerMode(_) => {},
        }
    }

    pub fn update(&mut self, message: NeutronMessage)
        ensures
            final(self).global_settings.paraphonic_mode == spec_paraphonic_after_message(
                old(self).global_settings.paraphonic_mode,
                message@,
            ),
            final(self).global_settings.osc_sync == old(self).global_settings.osc_sync,
            final(self).global_settings.device_id == old(self).global_settings.device_id,
    {
        match message {
            NeutronMessage::SetGlobalSetting(_, global_setting) => {
                self.global_setting_update(global_setting)
            },
            NeutronMessage::GlobalSettingUpdate(_, global_setting) => {
                self.global_setting_update(global_setting)
            },
            NeutronMessage::RestoreGlobalSetting(_) => {},
            NeutronMessage::SoftwareVersionRequest(_) => {},
            NeutronMessage::SoftwareVersionResponse(_, _) => {},
        }
    }
}

/// A list of items with one selected, the selection wrapping at both ends.
pub struct ListState<T> {
    pub items: Vec<T>,
    pub selection: usize,
}

impl<T> ListState<T> {
    pub fn new(items: Vec<T>) -> (r: ListState<T>)
        ensures
            r.items@ == items@,
            r.selection == 0,
    {
        ListState { items, selection: 0 }
    }

    pub fn select_next(&mut self)
        requires
            old(self).items@.len() > 0,
        ensures
            final(self).items@ == old(self).items@,
            final(self).selection as int == (old(self).selection as int + 1) % (
            old(self).items@.len() as int),
    {
        let ghost s0 = self.selection as int;
        let ghost n = self.items@.len() as int;
        self.selection = (self.selection % self.items.len() + 1) % self.items.len();
        proof {
            assert((s0 % n + 1) % n == (s0 + 1) % n) by (nonlinear_arith)
                requires
                    n > 0,
            ;
        }
    }

    pub fn select_previous(&mut self)
        requires
            old(self).items@.len() > 0,
        ensures
            final(self).items@ == old(self).items@,
            final(self).selection as int == if old(self).selection == 0 {
                old(self).items@.len() - 1
            } else {
                old(self).selection - 1
            },
    {
        if self.selection == 0 {
            self.selection = self.items.len() - 1;
        } else {
            self.selection = self.selection - 1;
        }
    }
}

/// The last `max_size` elements of a slice, or the whole slice when it is
/// shorter; frontends use it to show only the lines that fit.
pub fn bottom_slice<T>(array: &[T], max_size: usize) -> (r: &[T])
    ensures
        r@ == array@.skip(
            if array@.len() < max_size {
                0
            } else {
                array@.len() - max_size
            },
        ),
{
    let array_size = array.len();
    let start_index = if array_size < max_size {
        0
    } else {
        array_size - max_size
    };
    let r = vstd::slice::slice_subrange(array, start_index, array_size);
    proof {
        assert(r@ =~= array@.skip(start_index as int));
    }
    r
}

/// Titles of a tab strip and the index of the active tab.
pub struct TabsState<'a> {
    pub titles: Vec<&'a str>,
    pub index: usize,
}

impl<'a> TabsState<'a> {
    pub fn new(titles: Vec<&'a str>) -> (r: TabsState<'a>)
        ensures
            r.titles@ == titles@,
            r.index == 0,
    {
        TabsState { titles, index: 0 }
    }

    pub fn next(&mut self)
        requires
            old(self).titles@.len() > 0,
        ensures
            final(self).titles@ == old(self).titles@,
            final(self).index as int == (old(self).index as int + 1) % (
            old(self).titles@.len() as int),
    {
        let ghost s0 = self.index as int;
        let ghost n = self.titles@.len() as int;
        self.index = (self.index % self.titles.len() + 1) % self.titles.len();
        proof {
            assert((s0 % n + 1) % n == (s0 + 1) % n) by (nonlinear_arith)
                requires
                    n > 0,
            ;
        }
    }

    pub fn previous(&mut self)
        requires
            old(self).titles@.len() > 0,
        ensures
            final(self).titles@ == old(self).titles@,
            final(self).index as int == if old(self).index == 0 {
                old(self).titles@.len() - 1
            } else {
                old(self).index - 1
            },
    {
        if self.index > 0 {
            self.index = self.index - 1;
        } else {
            self.index = self.titles.len() - 1;
        }
    }
}

} // verus!
