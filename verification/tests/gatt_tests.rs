use itag2mqttd::itag_swarm_manager::gatt::{
    get_button_notify_stream, stop_beeping, WalkAction, WalkEvent, WalkState,
    ALERT_LEVEL_CHARACTERISTIC, BUTTON_CHARACTERISTIC, BUTTON_SERVICE, IMMEDIATE_ALERT_SERVICE,
    NO_ALERT,
};

const BATTERY_SERVICE: u128 = 0x0000180f_0000_1000_8000_00805f9b34fb;
const BATTERY_LEVEL: u128 = 0x00002a19_0000_1000_8000_00805f9b34fb;

/// Walks a device given as its services with their characteristics, every read
/// succeeding, and returns the places subscribed or written to and the last
/// action.
fn drive(
    step: fn(WalkState, WalkEvent) -> (WalkState, WalkAction),
    device: &[(u128, Vec<u128>)],
) -> (Vec<(usize, usize)>, WalkAction) {
    let mut used = Vec::new();
    let (mut state, mut action) = step(WalkState::Start, WalkEvent::Begin);
    let mut next_service = 0;
    let mut next_characteristic = 0;
    for _ in 0..1000 {
        let event = match action {
            WalkAction::NextService => {
                next_service += 1;
                next_characteristic = 0;
                match device.get(next_service - 1) {
                    Some(service) => WalkEvent::Service(service.0),
                    None => WalkEvent::NoMoreServices,
                }
            }
            WalkAction::NextCharacteristic => {
                next_characteristic += 1;
                match device[next_service - 1].1.get(next_characteristic - 1) {
                    Some(uuid) => WalkEvent::Characteristic(*uuid),
                    None => WalkEvent::NoMoreCharacteristics,
                }
            }
            WalkAction::Write(level) => {
                assert_eq!(level, 0);
                used.push((next_service - 1, next_characteristic - 1));
                WalkEvent::Written
            }
            WalkAction::Subscribe => {
                used.push((next_service - 1, next_characteristic - 1));
                return (used, action);
            }
            WalkAction::Finish | WalkAction::GiveUp => return (used, action),
        };
        let next = step(state, event);
        state = next.0;
        action = next.1;
    }
    panic!("the walk does not end");
}

#[test]
fn the_identifiers_are_those_of_the_itag() {
    assert_eq!(BUTTON_SERVICE, 0x0000ffe0_0000_1000_8000_00805f9b34fb);
    assert_eq!(BUTTON_CHARACTERISTIC, 0x0000ffe1_0000_1000_8000_00805f9b34fb);
    assert_eq!(IMMEDIATE_ALERT_SERVICE, 0x00001802_0000_1000_8000_00805f9b34fb);
    assert_eq!(ALERT_LEVEL_CHARACTERISTIC, 0x00002a06_0000_1000_8000_00805f9b34fb);
    assert_eq!(NO_ALERT, 0);
}

#[test]
fn the_button_walk_subscribes_to_the_first_button_characteristic() {
    let device = vec![
        (BATTERY_SERVICE, vec![BATTERY_LEVEL]),
        (BUTTON_SERVICE, vec![BATTERY_LEVEL, BUTTON_CHARACTERISTIC, BUTTON_CHARACTERISTIC]),
        (BUTTON_SERVICE, vec![BUTTON_CHARACTERISTIC]),
    ];
    assert_eq!(drive(get_button_notify_stream, &device), (vec![(1, 1)], WalkAction::Subscribe));
}

#[test]
fn the_button_walk_goes_on_to_a_later_button_service() {
    let device = vec![
        (BUTTON_SERVICE, vec![BATTERY_LEVEL]),
        (IMMEDIATE_ALERT_SERVICE, vec![BUTTON_CHARACTERISTIC]),
        (BUTTON_SERVICE, vec![BUTTON_CHARACTERISTIC]),
    ];
    assert_eq!(drive(get_button_notify_stream, &device), (vec![(2, 0)], WalkAction::Subscribe));
}

#[test]
fn the_button_walk_gives_up_without_a_button() {
    let device = vec![
        (BATTERY_SERVICE, vec![BUTTON_CHARACTERISTIC]),
        (BUTTON_SERVICE, vec![ALERT_LEVEL_CHARACTERISTIC]),
    ];
    assert_eq!(drive(get_button_notify_stream, &device), (vec![], WalkAction::GiveUp));
    assert_eq!(drive(get_button_notify_stream, &[]), (vec![], WalkAction::GiveUp));
}

#[test]
fn the_alert_walk_writes_to_every_alert_level() {
    let device = vec![
        (IMMEDIATE_ALERT_SERVICE, vec![ALERT_LEVEL_CHARACTERISTIC, BATTERY_LEVEL, ALERT_LEVEL_CHARACTERISTIC]),
        (BUTTON_SERVICE, vec![ALERT_LEVEL_CHARACTERISTIC]),
        (IMMEDIATE_ALERT_SERVICE, vec![ALERT_LEVEL_CHARACTERISTIC]),
    ];
    assert_eq!(
        drive(stop_beeping, &device),
        (vec![(0, 0), (0, 2), (2, 0)], WalkAction::Finish)
    );
}

#[test]
fn the_alert_walk_finishes_without_an_alert_service() {
    let device = vec![(BUTTON_SERVICE, vec![BUTTON_CHARACTERISTIC])];
    assert_eq!(drive(stop_beeping, &device), (vec![], WalkAction::Finish));
}

#[test]
fn each_step_of_the_button_walk() {
    assert_eq!(get_button_notify_stream(WalkState::Start, WalkEvent::Begin), (WalkState::Services, WalkAction::NextService));
    assert_eq!(
        get_button_notify_stream(WalkState::Services, WalkEvent::Service(BUTTON_SERVICE)),
        (WalkState::Characteristics, WalkAction::NextCharacteristic)
    );
    assert_eq!(
        get_button_notify_stream(WalkState::Services, WalkEvent::Service(IMMEDIATE_ALERT_SERVICE)),
        (WalkState::Services, WalkAction::NextService)
    );
    assert_eq!(get_button_notify_stream(WalkState::Services, WalkEvent::NoMoreServices), (WalkState::Done, WalkAction::GiveUp));
    assert_eq!(
        get_button_notify_stream(WalkState::Characteristics, WalkEvent::Characteristic(BUTTON_CHARACTERISTIC)),
        (WalkState::Done, WalkAction::Subscribe)
    );
    assert_eq!(
        get_button_notify_stream(WalkState::Characteristics, WalkEvent::Characteristic(ALERT_LEVEL_CHARACTERISTIC)),
        (WalkState::Characteristics, WalkAction::NextCharacteristic)
    );
    assert_eq!(
        get_button_notify_stream(WalkState::Characteristics, WalkEvent::NoMoreCharacteristics),
        (WalkState::Services, WalkAction::NextService)
    );
}

#[test]
fn each_step_of_the_alert_walk() {
    assert_eq!(stop_beeping(WalkState::Start, WalkEvent::Begin), (WalkState::Services, WalkAction::NextService));
    assert_eq!(
        stop_beeping(WalkState::Services, WalkEvent::Service(IMMEDIATE_ALERT_SERVICE)),
        (WalkState::Characteristics, WalkAction::NextCharacteristic)
    );
    assert_eq!(stop_beeping(WalkState::Services, WalkEvent::Service(BUTTON_SERVICE)), (WalkState::Services, WalkAction::NextService));
    assert_eq!(stop_beeping(WalkState::Services, WalkEvent::NoMoreServices), (WalkState::Done, WalkAction::Finish));
    assert_eq!(
        stop_beeping(WalkState::Characteristics, WalkEvent::Characteristic(ALERT_LEVEL_CHARACTERISTIC)),
        (WalkState::Writing, WalkAction::Write(0))
    );
    assert_eq!(
        stop_beeping(WalkState::Characteristics, WalkEvent::Characteristic(BUTTON_CHARACTERISTIC)),
        (WalkState::Characteristics, WalkAction::NextCharacteristic)
    );
    assert_eq!(stop_beeping(WalkState::Writing, WalkEvent::Written), (WalkState::Characteristics, WalkAction::NextCharacteristic));
}

#[test]
fn a_failure_ends_either_walk() {
    for state in [WalkState::Services, WalkState::Characteristics, WalkState::Writing] {
        assert_eq!(
            get_button_notify_stream(state, WalkEvent::Failed),
            (WalkState::Done, WalkAction::GiveUp)
        );
        assert_eq!(stop_beeping(state, WalkEvent::Failed), (WalkState::Done, WalkAction::GiveUp));
    }
}

#[test]
fn an_event_that_is_not_awaited_ends_the_walk() {
    assert_eq!(
        get_button_notify_stream(WalkState::Start, WalkEvent::Service(BUTTON_SERVICE)),
        (WalkState::Done, WalkAction::GiveUp)
    );
    assert_eq!(
        stop_beeping(WalkState::Services, WalkEvent::Written),
        (WalkState::Done, WalkAction::GiveUp)
    );
    assert_eq!(
        get_button_notify_stream(WalkState::Done, WalkEvent::Begin),
        (WalkState::Done, WalkAction::GiveUp)
    );
    assert_eq!(
        get_button_notify_stream(WalkState::Characteristics, WalkEvent::Written),
        (WalkState::Done, WalkAction::GiveUp)
    );
}
