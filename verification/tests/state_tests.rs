use rustron_lib::protocol::Channel::One;
use rustron_lib::protocol::DeviceId::Channel;
use rustron_lib::protocol::GlobalSetting::ParaphonicMode;
use rustron_lib::protocol::NeutronMessage::GlobalSettingUpdate;
use rustron_lib::protocol::NeutronMessage::SetGlobalSetting;
use rustron_lib::protocol::ToggleOption::Off;
use rustron_lib::protocol::ToggleOption::On;
use rustron_lib::state::bottom_slice;
use rustron_lib::state::ListState;
use rustron_lib::state::NeutronState;
use rustron_lib::state::TabsState;

#[test]
fn paraphonic_mode_is_updated() {
    let mut ns = NeutronState::new();
    assert!(!ns.global_settings.paraphonic_mode);
    ns.update(SetGlobalSetting(Channel(One), ParaphonicMode(On)));
    assert!(ns.global_settings.paraphonic_mode);
    ns.update(GlobalSettingUpdate(Channel(One), ParaphonicMode(Off)));
    assert!(!ns.global_settings.paraphonic_mode);
}

#[test]
fn bottom_slice_keeps_the_tail() {
    let values = [1, 2, 3, 4, 5];
    assert_eq!(bottom_slice(&values, 2), &[4, 5]);
    assert_eq!(bottom_slice(&values, 5), &[1, 2, 3, 4, 5]);
    assert_eq!(bottom_slice(&values, 9), &[1, 2, 3, 4, 5]);
    assert_eq!(bottom_slice(&values, 0), &[] as &[i32]);
}

#[test]
fn list_selection_wraps_both_ways() {
    let mut list = ListState::new(vec!["a", "b", "c"]);
    assert_eq!(list.selection, 0);
    list.select_next();
    assert_eq!(list.selection, 1);
    list.select_next();
    assert_eq!(list.selection, 2);
    list.select_next();
    assert_eq!(list.selection, 0);
    list.select_previous();
    assert_eq!(list.selection, 2);
    list.select_previous();
    assert_eq!(list.selection, 1);
}

#[test]
fn tabs_wrap_both_ways() {
    let mut tabs = TabsState::new(vec!["app", "logs"]);
    assert_eq!(tabs.index, 0);
    tabs.next();
    assert_eq!(tabs.index, 1);
    tabs.next();
    assert_eq!(tabs.index, 0);
    tabs.previous();
    assert_eq!(tabs.index, 1);
    tabs.previous();
    assert_eq!(tabs.index, 0);
}
