use mic_mute_indicator::device::{Device, DeviceId};
use mic_mute_indicator::session::{
    Acquisition, Level, PlatformError, Reading, Session, Teardown, NOT_FOUND, NO_INTERFACE,
};

fn device(name: &str) -> Device {
    let units: Vec<u16> = name.encode_utf16().collect();
    Device { id: DeviceId::from_wide(&units), name: name.to_string() }
}

fn nothing() -> Teardown {
    Teardown { unsubscribe: false, release_control: false, release_device: false }
}

fn fully_bound(name: &str) -> Session {
    let mut session = Session::new();
    assert_eq!(session.bind_default_device(Ok(device(name))), Ok(true));
    assert_eq!(session.bind_volume_control(Acquisition::Subscribed), Ok(true));
    session
}

#[test]
fn new_session_holds_nothing() {
    let session = Session::new();
    assert!(!session.has_device());
    assert!(!session.has_control());
    assert!(session.device_id().is_none());
    assert!(session.device_name().is_none());
}

#[test]
fn binding_a_device_and_its_control() {
    let session = fully_bound("A");
    assert!(session.has_device());
    assert!(session.has_control());
    assert_eq!(session.device_name().unwrap(), "A");
    assert_eq!(session.device_id().unwrap().units, vec![65u16]);
}

#[test]
fn missing_default_device_is_no_failure() {
    let mut session = Session::new();
    let result = session.bind_default_device(Err(PlatformError { code: NOT_FOUND }));
    assert_eq!(result, Ok(false));
    assert!(!session.has_device());
}

#[test]
fn failed_device_query_is_handed_on() {
    let mut session = Session::new();
    let error = PlatformError { code: 0x8000_4005 };
    assert_eq!(session.bind_default_device(Err(error)), Err(error));
    assert!(!session.has_device());
    assert!(!session.has_control());
}

#[test]
fn device_without_volume_control_is_no_failure() {
    let mut session = Session::new();
    assert_eq!(session.bind_default_device(Ok(device("B"))), Ok(true));
    let outcome = Acquisition::ActivationFailed(PlatformError { code: NO_INTERFACE });
    assert_eq!(session.bind_volume_control(outcome), Ok(false));
    assert!(session.has_device());
    assert!(!session.has_control());
}

#[test]
fn failed_activation_is_handed_on() {
    let mut session = Session::new();
    assert_eq!(session.bind_default_device(Ok(device("B"))), Ok(true));
    let error = PlatformError { code: 0x8007_0005 };
    assert_eq!(session.bind_volume_control(Acquisition::ActivationFailed(error)), Err(error));
    assert!(session.has_device());
    assert!(!session.has_control());
}

#[test]
fn failed_subscription_is_handed_on_even_with_the_code_of_absence() {
    let mut session = Session::new();
    assert_eq!(session.bind_default_device(Ok(device("B"))), Ok(true));
    let error = PlatformError { code: NO_INTERFACE };
    assert_eq!(session.bind_volume_control(Acquisition::SubscriptionFailed(error)), Err(error));
    assert!(!session.has_control());
}

#[test]
fn unbind_undoes_what_is_held_and_is_idempotent() {
    let mut session = fully_bound("A");
    assert_eq!(
        session.unbind(),
        Teardown { unsubscribe: true, release_control: true, release_device: true }
    );
    assert!(!session.has_device());
    assert!(!session.has_control());
    assert_eq!(session.unbind(), nothing());
    assert_eq!(Session::new().unbind(), nothing());
}

#[test]
fn unbind_of_a_device_without_control_releases_the_device_only() {
    let mut session = Session::new();
    assert_eq!(session.bind_default_device(Ok(device("A"))), Ok(true));
    assert_eq!(
        session.unbind(),
        Teardown { unsubscribe: false, release_control: false, release_device: true }
    );
}

#[test]
fn releasing_the_control_keeps_the_device() {
    let mut session = fully_bound("A");
    assert_eq!(
        session.release_volume_control(),
        Teardown { unsubscribe: true, release_control: true, release_device: false }
    );
    assert!(session.has_device());
    assert!(!session.has_control());
    assert_eq!(session.release_volume_control(), nothing());
}

#[test]
fn mute_is_set_only_where_a_control_is_held() {
    let bound = fully_bound("A");
    assert_eq!(bound.toggle_mute(false), Some(true));
    assert_eq!(bound.toggle_mute(true), Some(false));
    assert_eq!(bound.set_mute(true), Some(true));
    assert_eq!(bound.set_mute(false), Some(false));
    let empty = Session::new();
    assert_eq!(empty.toggle_mute(false), None);
    assert_eq!(empty.set_mute(true), None);
}

#[test]
fn volume_is_raised_only_from_below_the_maximum() {
    let bound = fully_bound("A");
    assert!(bound.set_volume_to_max(Some(Level { percent: 63, below_max: true })));
    assert!(bound.set_volume_to_max(Some(Level { percent: 100, below_max: true })));
    assert!(!bound.set_volume_to_max(Some(Level { percent: 100, below_max: false })));
    assert!(!bound.set_volume_to_max(None));
    let empty = Session::new();
    assert!(!empty.set_volume_to_max(Some(Level { percent: 10, below_max: true })));
}

#[test]
fn state_is_unknown_without_a_control() {
    let reading = Reading { muted: false, level: Level { percent: 40, below_max: true } };
    assert_eq!(fully_bound("A").read_state(reading), Some(reading));
    assert_eq!(Session::new().read_state(reading), None);
}

#[test]
fn rebinding_never_leaves_two_subscriptions() {
    let answers = [
        (Ok("A"), Acquisition::Subscribed),
        (Ok("B"), Acquisition::Subscribed),
        (Ok("C"), Acquisition::ActivationFailed(PlatformError { code: NO_INTERFACE })),
        (Ok("D"), Acquisition::Subscribed),
        (Err(PlatformError { code: NOT_FOUND }), Acquisition::Subscribed),
        (Ok("E"), Acquisition::SubscriptionFailed(PlatformError { code: 5 })),
        (Err(PlatformError { code: 6 }), Acquisition::Subscribed),
        (Ok("F"), Acquisition::Subscribed),
        (Ok("F"), Acquisition::Subscribed),
    ];
    let mut session = Session::new();
    let mut standing: i32 = 0;
    for (lookup, acquisition) in answers {
        let teardown = session.unbind();
        if teardown.unsubscribe {
            standing -= 1;
        }
        assert_eq!(standing, 0);
        let lookup = lookup.map(device);
        let wanted = lookup.is_ok();
        let bound = session.bind_default_device(lookup);
        assert_eq!(bound.unwrap_or(false), wanted);
        if wanted {
            if acquisition == Acquisition::Subscribed {
                standing += 1;
            }
            let _ = session.bind_volume_control(acquisition);
        }
        assert!(standing <= 1);
        assert_eq!(standing == 1, session.has_control());
    }
    assert_eq!(standing, 1);
}
