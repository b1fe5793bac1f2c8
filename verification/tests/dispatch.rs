use mic_mute_indicator::device::{Device, DeviceId};
use mic_mute_indicator::dispatch::{
    command_event, low_word, menu_position, notification_event, startup_steps, steps,
    Dispatcher, Event, Indicator, Notification, Phase, Step, COMMAND_EXIT, COMMAND_NO_DEVICES,
    COMMAND_OPEN_SETTINGS, COMMAND_SEPARATOR, COMMAND_SET_MAX_VOLUME,
};
use mic_mute_indicator::menu::Edit;
use mic_mute_indicator::session::{Acquisition, Level, Reading};
use mic_mute_indicator::status::IconSelector;

fn device(name: &str) -> Device {
    let units: Vec<u16> = name.encode_utf16().collect();
    Device { id: DeviceId::from_wide(&units), name: name.to_string() }
}

#[test]
fn steps_of_each_event() {
    assert_eq!(
        steps(Event::EndpointChanged, false, 0),
        vec![Step::Rebind, Step::RefreshStatus, Step::RefreshMenu]
    );
    assert_eq!(steps(Event::VolumeChanged, false, 0), vec![Step::RefreshStatus]);
    assert_eq!(
        steps(Event::VolumeChanged, true, 0),
        vec![Step::RefreshStatus, Step::SetVolumeToMax]
    );
    assert_eq!(steps(Event::UserToggleMute, true, 3), vec![Step::ToggleMute]);
    assert_eq!(steps(Event::UserSetVolumeToMax, false, 3), vec![Step::SetVolumeToMax]);
    assert_eq!(steps(Event::UserOpenSettings, false, 3), vec![Step::OpenSettings]);
    assert_eq!(steps(Event::UserExit, false, 3), vec![Step::Shutdown]);
    assert_eq!(
        steps(Event::ThemeOrDpiChanged { reload_icons: false }, false, 3),
        vec![Step::RefreshStatus]
    );
    assert_eq!(
        steps(Event::ThemeOrDpiChanged { reload_icons: true }, false, 3),
        vec![Step::ReloadIcons, Step::RefreshStatus]
    );
}

#[test]
fn selecting_a_device_needs_its_row() {
    assert_eq!(steps(Event::UserSelectDevice(2), false, 3), vec![Step::SelectDevice { index: 2 }]);
    assert_eq!(steps(Event::UserSelectDevice(0), false, 1), vec![Step::SelectDevice { index: 0 }]);
    assert!(steps(Event::UserSelectDevice(3), false, 3).is_empty());
    assert!(steps(Event::UserSelectDevice(0), false, 0).is_empty());
}

#[test]
fn menu_commands_stand_for_events() {
    assert_eq!(command_event(COMMAND_EXIT), Event::UserExit);
    assert_eq!(command_event(COMMAND_OPEN_SETTINGS), Event::UserOpenSettings);
    assert_eq!(command_event(COMMAND_SET_MAX_VOLUME), Event::UserSetVolumeToMax);
    assert_eq!(command_event(0), Event::UserSelectDevice(0));
    assert_eq!(command_event(17), Event::UserSelectDevice(17));
    assert_eq!(command_event(COMMAND_SEPARATOR), Event::UserSelectDevice(0xFFFC));
    assert_eq!(command_event(COMMAND_NO_DEVICES), Event::UserSelectDevice(0xFFFB));
    assert_eq!(COMMAND_EXIT, 0u16.wrapping_sub(1));
    assert_eq!(COMMAND_NO_DEVICES, 0u16.wrapping_sub(5));
}

#[test]
fn placeholder_and_separator_select_nothing() {
    let rows = 40;
    assert!(steps(command_event(COMMAND_SEPARATOR), false, rows).is_empty());
    assert!(steps(command_event(COMMAND_NO_DEVICES), false, rows).is_empty());
}

#[test]
fn words_of_a_message_parameter() {
    assert_eq!(low_word(0), 0);
    assert_eq!(low_word(0x1234_FFFE), 0xFFFE);
    assert_eq!(low_word(0x0001_0000), 0);
    assert_eq!(menu_position(0), (0, 0));
    assert_eq!(menu_position(0x0064_00C8), (200, 100));
    assert_eq!(menu_position(0xFFFF_FFFF), (-1, -1));
    assert_eq!(menu_position(0x8000_7FFF), (32767, -32768));
    assert_eq!(menu_position(0x0005_FFF6), (-10, 5));
}

#[test]
fn startup_actions_come_in_a_fixed_order() {
    assert!(startup_steps(false, false, false, false).is_empty());
    assert_eq!(
        startup_steps(true, true, true, true),
        vec![Step::SetMute(true), Step::SetMute(false), Step::ToggleMute, Step::SetVolumeToMax]
    );
    assert_eq!(startup_steps(false, true, false, true), vec![
        Step::SetMute(false),
        Step::SetVolumeToMax
    ]);
    assert_eq!(startup_steps(false, false, true, false), vec![Step::ToggleMute]);
}

#[test]
fn event_at_rest_is_taken_up_at_once() {
    let mut dispatcher = Dispatcher::new(false);
    assert_eq!(dispatcher.phase(), Phase::Idle);
    assert!(!dispatcher.keeps_at_max());
    let now = dispatcher.on_event(Event::UserToggleMute, 0);
    assert_eq!(now, vec![Step::ToggleMute]);
    assert_eq!(dispatcher.phase(), Phase::Dispatching);
    assert_eq!(dispatcher.pending(), 0);
    assert!(dispatcher.complete(0).is_empty());
    assert_eq!(dispatcher.phase(), Phase::Idle);
}

#[test]
fn events_during_a_dispatch_wait_and_leave_in_arrival_order() {
    let mut dispatcher = Dispatcher::new(true);
    assert_eq!(dispatcher.on_event(Event::EndpointChanged, 2).len(), 3);
    assert!(dispatcher.on_event(Event::VolumeChanged, 2).is_empty());
    assert!(dispatcher.on_event(Event::UserSelectDevice(1), 2).is_empty());
    assert!(dispatcher.on_event(Event::UserOpenSettings, 2).is_empty());
    assert_eq!(dispatcher.pending(), 3);
    assert_eq!(dispatcher.complete(2), vec![Step::RefreshStatus, Step::SetVolumeToMax]);
    assert_eq!(dispatcher.phase(), Phase::Dispatching);
    assert_eq!(dispatcher.complete(2), vec![Step::SelectDevice { index: 1 }]);
    assert_eq!(dispatcher.complete(2), vec![Step::OpenSettings]);
    assert_eq!(dispatcher.pending(), 0);
    assert!(dispatcher.complete(2).is_empty());
    assert_eq!(dispatcher.phase(), Phase::Idle);
}

#[test]
fn completing_at_rest_changes_nothing() {
    let mut dispatcher = Dispatcher::new(false);
    assert!(dispatcher.complete(4).is_empty());
    assert_eq!(dispatcher.phase(), Phase::Idle);
    assert_eq!(dispatcher.pending(), 0);
}

#[test]
fn exit_starts_the_shutdown_and_nothing_follows() {
    let mut dispatcher = Dispatcher::new(false);
    assert_eq!(dispatcher.on_event(Event::UserExit, 0), vec![Step::Shutdown]);
    assert_eq!(dispatcher.phase(), Phase::ShuttingDown);
    assert!(dispatcher.on_event(Event::EndpointChanged, 0).is_empty());
    assert!(dispatcher.on_event(Event::UserExit, 0).is_empty());
    assert_eq!(dispatcher.pending(), 0);
    assert!(dispatcher.complete(0).is_empty());
    assert_eq!(dispatcher.phase(), Phase::ShuttingDown);
}

#[test]
fn exit_that_waited_drops_what_came_behind_it() {
    let mut dispatcher = Dispatcher::new(false);
    dispatcher.on_event(Event::VolumeChanged, 0);
    dispatcher.on_event(Event::UserToggleMute, 0);
    dispatcher.on_event(Event::UserExit, 0);
    dispatcher.on_event(Event::EndpointChanged, 0);
    assert_eq!(dispatcher.pending(), 3);
    assert_eq!(dispatcher.complete(0), vec![Step::ToggleMute]);
    assert_eq!(dispatcher.complete(0), vec![Step::Shutdown]);
    assert_eq!(dispatcher.phase(), Phase::ShuttingDown);
    assert_eq!(dispatcher.pending(), 0);
    assert!(dispatcher.complete(0).is_empty());
}

#[test]
fn indicator_starts_without_device() {
    let indicator = Indicator::new(true);
    assert_eq!(indicator.dispatcher.phase(), Phase::Idle);
    assert!(indicator.dispatcher.keeps_at_max());
    assert!(!indicator.session.has_device());
    assert_eq!(indicator.menu.len(), 0);
    let status = indicator.current_status();
    assert_eq!(status.text, "no default capture device");
    assert_eq!(status.icon, IconSelector::Muted);
    let rows = indicator.current_menu();
    assert_eq!(rows.len(), 1);
    assert!(!rows[0].enabled);
}

#[test]
fn indicator_runs_an_endpoint_change() {
    let mut indicator = Indicator::new(false);
    let todo = indicator.on_event(Event::EndpointChanged);
    assert_eq!(todo, vec![Step::Rebind, Step::RefreshStatus, Step::RefreshMenu]);
    // Rebind
    indicator.session.unbind();
    assert_eq!(indicator.session.bind_default_device(Ok(device("B"))), Ok(true));
    assert_eq!(indicator.session.bind_volume_control(Acquisition::Subscribed), Ok(true));
    // RefreshStatus
    let reading = Reading { muted: false, level: Level { percent: 80, below_max: true } };
    let status = indicator.refresh_status(reading, true);
    assert_eq!(status.text, "B: 80%");
    assert_eq!(status.icon, IconSelector::ActiveInverted);
    assert_eq!(indicator.current_status().text, "B: 80%");
    // RefreshMenu
    let edits = indicator.refresh_menu(&vec![device("A"), device("B")]);
    assert_eq!(edits.len(), 3);
    assert!(matches!(edits[0], Edit::HidePlaceholder));
    let rows = indicator.current_menu();
    assert_eq!(rows.len(), 2);
    assert!(!rows[0].selected);
    assert!(rows[1].selected);
    assert!(indicator.complete().is_empty());
    assert_eq!(indicator.dispatcher.phase(), Phase::Idle);
    // The rows are known to the next event.
    assert_eq!(
        indicator.on_event(Event::UserSelectDevice(1)),
        vec![Step::SelectDevice { index: 1 }]
    );
    assert!(indicator.on_event(Event::UserSelectDevice(2)).is_empty());
    assert_eq!(indicator.complete(), Vec::<Step>::new());
    assert_eq!(indicator.dispatcher.phase(), Phase::Dispatching);
    assert!(indicator.complete().is_empty());
    assert_eq!(indicator.dispatcher.phase(), Phase::Idle);
}

#[test]
fn notifications_are_posted_as_two_kinds_of_event() {
    for notification in [
        Notification::DeviceStateChanged,
        Notification::DeviceAdded,
        Notification::DeviceRemoved,
        Notification::DefaultDeviceChanged,
        Notification::PropertyValueChanged,
    ] {
        assert_eq!(notification_event(notification), Event::EndpointChanged);
    }
    assert_eq!(notification_event(Notification::VolumeChanged), Event::VolumeChanged);
}
