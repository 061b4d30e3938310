use itag2mqttd::itag_swarm_manager::device_actor::{
    get_best_adapter, ConnectedAdapter, DeviceActor, DeviceMessage, Notice, STABILIZATION_DELAY_MS,
};
use itag2mqttd::mqtt_client::PresenceRecord;

type Reading = Result<Option<i16>, String>;

const DEVICE: [u8; 6] = [0x1A, 0x02, 0xFF, 0x00, 0xB3, 0x0C];
const ADAPTER_A: [u8; 6] = [0, 0, 0, 0, 0, 0xA];
const ADAPTER_B: [u8; 6] = [0, 0, 0, 0, 0, 0xB];
const ADAPTER_C: [u8; 6] = [0xC, 0, 0, 0, 0, 0];

fn new_actor() -> DeviceActor<&'static str> {
    DeviceActor::new(&DEVICE).0
}

fn stabilized_actor() -> DeviceActor<&'static str> {
    let mut actor = new_actor();
    actor.handle_message(DeviceMessage::Stabilized);
    actor
}

fn strengths(values: &[i16]) -> Vec<Reading> {
    values.iter().map(|value| Ok(Some(*value))).collect()
}

#[test]
fn arbitration_selects_the_stronger_adapter() {
    let mut actor = stabilized_actor();
    actor.device_discovered(ADAPTER_A, "on a");
    let outcome = actor.device_discovered(ADAPTER_B, "on b");
    assert!(outcome.arbitrate);
    assert_eq!(actor.arbitrate(&strengths(&[-70, -50])), Some(ADAPTER_B));
    assert_eq!(actor.device_on(&ADAPTER_B), Some(&"on b"));
}

#[test]
fn arbitration_selects_the_stronger_adapter_whatever_the_order() {
    let mut actor = stabilized_actor();
    actor.device_discovered(ADAPTER_B, "on b");
    actor.device_discovered(ADAPTER_A, "on a");
    assert_eq!(actor.arbitrate(&strengths(&[-50, -70])), Some(ADAPTER_B));
}

#[test]
fn a_new_actor_publishes_retained_absence_and_starts_the_delay() {
    let (actor, startup) = DeviceActor::<u8>::new(&DEVICE);
    assert_eq!(
        startup.publish,
        PresenceRecord { retained: true, is_present: false, is_button_clicked: false }
    );
    assert_eq!(startup.stabilize_after_ms, 1000);
    assert_eq!(STABILIZATION_DELAY_MS, 1000);
    assert_eq!(actor.device_address(), DEVICE);
    assert!(!actor.is_stabilized());
    assert!(!actor.has_button_monitor());
    assert!(actor.visible_adapters().is_empty());
}

#[test]
fn no_session_before_the_device_has_stabilized() {
    let mut actor = new_actor();
    let first = actor.device_discovered(ADAPTER_A, "on a");
    assert!(!first.arbitrate);
    assert_eq!(actor.arbitrate(&strengths(&[-40])), None);
    let second = actor.device_discovered(ADAPTER_B, "on b");
    assert!(!second.arbitrate);
    assert_eq!(actor.arbitrate(&strengths(&[-40, -30])), None);
    assert!(!actor.has_button_monitor());
    let lost = actor.device_removed(ADAPTER_A);
    assert!(!lost.arbitrate);
    let exit = actor.handle_message(DeviceMessage::ButtonMonitorExit);
    assert!(!exit.arbitrate);
    assert_eq!(actor.arbitrate(&strengths(&[-30])), None);
}

#[test]
fn stabilizing_asks_for_arbitration_at_once() {
    let mut actor = new_actor();
    actor.device_discovered(ADAPTER_A, "on a");
    actor.device_discovered(ADAPTER_B, "on b");
    let outcome = actor.handle_message(DeviceMessage::Stabilized);
    assert!(outcome.arbitrate);
    assert_eq!(outcome.notice, Notice::Nothing);
    assert!(actor.is_stabilized());
    assert_eq!(actor.arbitrate(&strengths(&[-60, -61])), Some(ADAPTER_A));
    assert!(actor.has_button_monitor());
}

#[test]
fn stabilization_is_permanent() {
    let mut actor = stabilized_actor();
    actor.device_discovered(ADAPTER_A, "on a");
    actor.device_removed(ADAPTER_A);
    actor.handle_message(DeviceMessage::ButtonMonitorExit);
    actor.handle_message(DeviceMessage::Stabilized);
    assert!(actor.is_stabilized());
    let outcome = actor.device_discovered(ADAPTER_B, "on b");
    assert!(outcome.arbitrate);
}

#[test]
fn at_most_one_session_at_a_time() {
    let mut actor = stabilized_actor();
    actor.device_discovered(ADAPTER_A, "on a");
    assert_eq!(actor.arbitrate(&strengths(&[-70])), Some(ADAPTER_A));
    assert!(actor.has_button_monitor());
    let outcome = actor.device_discovered(ADAPTER_B, "on b");
    assert!(!outcome.arbitrate);
    assert_eq!(actor.arbitrate(&strengths(&[-70, -20])), None);
    assert!(actor.has_button_monitor());
    let outcome = actor.device_removed(ADAPTER_A);
    assert!(!outcome.arbitrate);
    assert_eq!(actor.arbitrate(&strengths(&[-20])), None);
}

#[test]
fn a_new_session_starts_after_the_old_one_has_exited() {
    let mut actor = stabilized_actor();
    actor.device_discovered(ADAPTER_A, "on a");
    actor.device_discovered(ADAPTER_B, "on b");
    assert_eq!(actor.arbitrate(&strengths(&[-70, -80])), Some(ADAPTER_A));
    let outcome = actor.handle_message(DeviceMessage::ButtonMonitorExit);
    assert!(outcome.arbitrate);
    assert!(!actor.has_button_monitor());
    assert_eq!(actor.arbitrate(&strengths(&[-90, -80])), Some(ADAPTER_B));
    assert!(actor.has_button_monitor());
}

#[test]
fn no_session_while_no_adapter_sees_the_device() {
    let mut actor = stabilized_actor();
    actor.device_discovered(ADAPTER_A, "on a");
    actor.device_discovered(ADAPTER_B, "on b");
    actor.device_removed(ADAPTER_A);
    let last = actor.device_removed(ADAPTER_B);
    assert_eq!(last.notice, Notice::NoLongerVisible);
    assert!(last.arbitrate);
    assert_eq!(actor.arbitrate(&strengths(&[-10, -10])), None);
    let again = actor.device_removed(ADAPTER_B);
    assert_eq!(again.notice, Notice::Nothing);
    assert_eq!(actor.arbitrate(&strengths(&[-10])), None);
    actor.handle_message(DeviceMessage::ButtonMonitorExit);
    assert_eq!(actor.arbitrate(&strengths(&[-10])), None);
    actor.handle_message(DeviceMessage::Stabilized);
    assert_eq!(actor.arbitrate(&strengths(&[-10])), None);
    assert!(!actor.has_button_monitor());
    actor.device_discovered(ADAPTER_C, "on c");
    assert_eq!(actor.arbitrate(&strengths(&[-10])), Some(ADAPTER_C));
}

#[test]
fn a_tie_goes_to_the_adapter_that_saw_the_device_first() {
    let mut actor = stabilized_actor();
    actor.device_discovered(ADAPTER_B, "on b");
    actor.device_discovered(ADAPTER_A, "on a");
    actor.device_discovered(ADAPTER_C, "on c");
    assert_eq!(actor.arbitrate(&strengths(&[-55, -55, -55])), Some(ADAPTER_B));
}

#[test]
fn adapters_without_a_reading_are_passed_over() {
    let mut actor = stabilized_actor();
    actor.device_discovered(ADAPTER_A, "on a");
    actor.device_discovered(ADAPTER_B, "on b");
    actor.device_discovered(ADAPTER_C, "on c");
    let readings: Vec<Reading> = vec![Err("gone".to_string()), Ok(None), Ok(Some(-99))];
    assert_eq!(actor.arbitrate(&readings), Some(ADAPTER_C));
}

#[test]
fn no_session_when_every_reading_fails() {
    let mut actor = stabilized_actor();
    actor.device_discovered(ADAPTER_A, "on a");
    actor.device_discovered(ADAPTER_B, "on b");
    let readings: Vec<Reading> = vec![Err("gone".to_string()), Ok(None)];
    assert_eq!(actor.arbitrate(&readings), None);
    assert!(!actor.has_button_monitor());
    let none: Vec<Reading> = Vec::new();
    assert_eq!(actor.arbitrate(&none), None);
    assert!(!actor.has_button_monitor());
}

#[test]
fn readings_beyond_the_visible_adapters_are_ignored() {
    let mut actor = stabilized_actor();
    actor.device_discovered(ADAPTER_A, "on a");
    assert_eq!(actor.arbitrate(&strengths(&[-80, -10, -5])), Some(ADAPTER_A));
}

#[test]
fn the_extremes_of_signal_strength_are_ordered() {
    let mut actor = stabilized_actor();
    actor.device_discovered(ADAPTER_A, "on a");
    actor.device_discovered(ADAPTER_B, "on b");
    actor.device_discovered(ADAPTER_C, "on c");
    assert_eq!(actor.arbitrate(&strengths(&[i16::MIN, i16::MAX, 0])), Some(ADAPTER_B));
}

#[test]
fn a_first_sighting_is_noticed_once_per_adapter() {
    let mut actor = new_actor();
    assert_eq!(actor.device_discovered(ADAPTER_A, "first").notice, Notice::FirstSighting);
    assert_eq!(actor.device_discovered(ADAPTER_A, "second").notice, Notice::Nothing);
    assert_eq!(actor.device_discovered(ADAPTER_B, "other").notice, Notice::FirstSighting);
    assert_eq!(actor.visible_adapters().len(), 2);
    assert_eq!(actor.device_removed(ADAPTER_A).notice, Notice::Nothing);
    assert_eq!(actor.device_discovered(ADAPTER_A, "third").notice, Notice::FirstSighting);
}

#[test]
fn a_sighting_replaces_the_handle_of_its_adapter() {
    let mut actor = new_actor();
    actor.device_discovered(ADAPTER_A, "first");
    actor.device_discovered(ADAPTER_B, "other");
    actor.device_discovered(ADAPTER_A, "second");
    assert_eq!(actor.device_on(&ADAPTER_A), Some(&"second"));
    assert_eq!(actor.device_on(&ADAPTER_B), Some(&"other"));
    assert_eq!(actor.device_on(&ADAPTER_C), None);
    let visible = actor.visible_adapters();
    assert_eq!(visible.len(), 2);
    assert_eq!(visible[0].adapter_address, ADAPTER_A);
    assert_eq!(visible[0].device, "second");
    assert_eq!(visible[1].adapter_address, ADAPTER_B);
}

#[test]
fn a_loss_removes_the_adapter_at_once_also_during_a_session() {
    let mut actor = stabilized_actor();
    actor.device_discovered(ADAPTER_A, "on a");
    actor.device_discovered(ADAPTER_B, "on b");
    assert_eq!(actor.arbitrate(&strengths(&[-1, -2])), Some(ADAPTER_A));
    assert_eq!(actor.device_removed(ADAPTER_A).notice, Notice::Nothing);
    assert_eq!(actor.device_on(&ADAPTER_A), None);
    assert_eq!(actor.visible_adapters().len(), 1);
    assert_eq!(actor.device_removed(ADAPTER_B).notice, Notice::NoLongerVisible);
    assert!(actor.visible_adapters().is_empty());
    assert!(actor.has_button_monitor());
}

#[test]
fn losing_an_unknown_adapter_changes_nothing() {
    let mut actor = new_actor();
    assert_eq!(actor.device_removed(ADAPTER_A).notice, Notice::Nothing);
    actor.device_discovered(ADAPTER_A, "on a");
    assert_eq!(actor.device_removed(ADAPTER_B).notice, Notice::Nothing);
    assert_eq!(actor.visible_adapters().len(), 1);
}

#[test]
fn addresses_that_differ_in_one_byte_are_different_adapters() {
    let mut actor = new_actor();
    for byte in 0..6 {
        let mut address = [0u8; 6];
        address[byte] = 1;
        assert_eq!(actor.device_discovered(address, "x").notice, Notice::FirstSighting);
    }
    assert_eq!(actor.visible_adapters().len(), 6);
    assert_eq!(actor.device_discovered([0u8; 6], "x").notice, Notice::FirstSighting);
}

#[test]
fn handle_message_takes_every_message() {
    let mut actor = new_actor();
    let discovered = actor.handle_message(DeviceMessage::DeviceDiscovered {
        adapter_address: ADAPTER_A,
        device: "on a",
    });
    assert_eq!(discovered.notice, Notice::FirstSighting);
    assert!(!discovered.arbitrate);
    assert!(actor.handle_message(DeviceMessage::Stabilized).arbitrate);
    let lost = actor.handle_message(DeviceMessage::DeviceLost { adapter_address: ADAPTER_A });
    assert_eq!(lost.notice, Notice::NoLongerVisible);
    assert!(lost.arbitrate);
    assert!(actor.handle_message(DeviceMessage::ButtonMonitorExit).arbitrate);
}

#[test]
fn best_adapter_of_a_list() {
    let adapters = vec![
        ConnectedAdapter { adapter_address: ADAPTER_A, device: 1u8 },
        ConnectedAdapter { adapter_address: ADAPTER_B, device: 2u8 },
        ConnectedAdapter { adapter_address: ADAPTER_C, device: 3u8 },
    ];
    let best = get_best_adapter(&adapters, &strengths(&[-70, -50, -60])).unwrap();
    assert_eq!(best.adapter_address, ADAPTER_B);
    assert_eq!(best.device, 2);
    let tie = get_best_adapter(&adapters, &strengths(&[-50, -50, -60])).unwrap();
    assert_eq!(tie.adapter_address, ADAPTER_A);
    let short = get_best_adapter(&adapters, &strengths(&[-50])).unwrap();
    assert_eq!(short.adapter_address, ADAPTER_A);
    let failed: Vec<Reading> = vec![Ok(None), Err("read failed".to_string()), Ok(None)];
    assert!(get_best_adapter(&adapters, &failed).is_none());
    let nobody: Vec<ConnectedAdapter<u8>> = Vec::new();
    assert!(get_best_adapter(&nobody, &strengths(&[-1])).is_none());
}
