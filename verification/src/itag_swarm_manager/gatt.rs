//! Finding the characteristics of an iTag among the services of a device.
//!
//! A device offers services, and each service offers characteristics; both are
//! told apart by their 128-bit identifiers. A walk goes through the services in
//! the order in which the device lists them, enters those with the wanted
//! identifier, and goes through their characteristics in the same way. The
//! caller reads from the device what a step asks for and hands it back as the
//! next event.

use vstd::prelude::*;

verus! {

/// The service of the vendor that holds the button.
pub const BUTTON_SERVICE: u128 = 0x0000ffe0_0000_1000_8000_00805f9b34fb;

/// The characteristic that notifies of button presses.
pub const BUTTON_CHARACTERISTIC: u128 = 0x0000ffe1_0000_1000_8000_00805f9b34fb;

/// The immediate alert service.
pub const IMMEDIATE_ALERT_SERVICE: u128 = 0x00001802_0000_1000_8000_00805f9b34fb;

/// The alert level characteristic.
pub const ALERT_LEVEL_CHARACTERISTIC: u128 = 0x00002a06_0000_1000_8000_00805f9b34fb;

/// The alert level at which the device is silent.
pub const NO_ALERT: u8 = 0;

/// What a walk is after.
#[derive(Clone, Copy, Debug, PartialEq, Eq, Structural)]
pub enum Goal {
    /// The first button characteristic, to subscribe to its notifications.
    ButtonNotifications,
    /// Every alert level characteristic, to write `NO_ALERT` to it.
    SilenceAlert,
}

/// Where a walk stands.
#[derive(Clone, Copy, Debug, PartialEq, Eq, Structural)]
pub enum WalkState {
    /// Nothing has been asked for yet.
    Start,
    /// Waiting for the next service.
    Services,
    /// Inside a wanted service, waiting for its next characteristic.
    Characteristics,
    /// Inside a wanted service, waiting for a write to end.
    Writing,
    Done,
}

/// What a walk is told.
#[derive(Clone, Copy, Debug, PartialEq, Eq, Structural)]
pub enum WalkEvent {
    Begin,
    /// The next service has this identifier.
    Service(u128),
    /// The device lists no further service.
    NoMoreServices,
    /// The next characteristic of the service has this identifier.
    Characteristic(u128),
    /// The service lists no further characteristic.
    NoMoreCharacteristics,
    /// The write has succeeded.
    Written,
    /// What was asked for could not be read or written.
    Failed,
}

/// What a walk asks its caller to do.
#[derive(Clone, Copy, Debug, PartialEq, Eq, Structural)]
pub enum WalkAction {
    /// Read the identifier of the next service; answer with `Service`,
    /// `NoMoreServices` or `Failed`.
    NextService,
    /// Read the identifier of the next characteristic of the service at hand;
    /// answer with `Characteristic`, `NoMoreCharacteristics` or `Failed`.
    NextCharacteristic,
    /// Subscribe to the characteristic at hand. The walk is over.
    Subscribe,
    /// Write the byte to the characteristic at hand; answer with `Written` or
    /// `Failed`.
    Write(u8),
    /// The walk is over: every wanted characteristic has been written to.
    Finish,
    /// The walk is over: nothing was found, or the device could not be read.
    GiveUp,
}

/// A walk after a step.
pub struct WalkStep {
    pub state: WalkState,
    pub action: WalkAction,
}

/// The identifier of the services that the walk enters.
pub open spec fn wanted_service(goal: Goal) -> u128 {
    match goal {
        Goal::ButtonNotifications => BUTTON_SERVICE,
        Goal::SilenceAlert => IMMEDIATE_ALERT_SERVICE,
    }
}

/// The identifier of the characteristics that the walk is after.
pub open spec fn wanted_characteristic(goal: Goal) -> u128 {
    match goal {
        Goal::ButtonNotifications => BUTTON_CHARACTERISTIC,
        Goal::SilenceAlert => ALERT_LEVEL_CHARACTERISTIC,
    }
}

/// What a walk does on an event. The walk for the button ends at the first
/// characteristic that it is after and gives up when the services run out. The
/// walk for the alert writes to each characteristic that it is after and
/// finishes when the services run out. A failure ends either walk, and so does
/// an event that the state does not wait for.
pub open spec fn walk_step(goal: Goal, state: WalkState, event: WalkEvent) -> WalkStep {
    match (state, event) {
        (WalkState::Start, WalkEvent::Begin) => WalkStep {
            state: WalkState::Services,
            action: WalkAction::NextService,
        },
        (WalkState::Services, WalkEvent::Service(uuid)) => if uuid == wanted_service(goal) {
            WalkStep { state: WalkState::Characteristics, action: WalkAction::NextCharacteristic }
        } else {
            WalkStep { state: WalkState::Services, action: WalkAction::NextService }
        },
        (WalkState::Services, WalkEvent::NoMoreServices) => WalkStep {
            state: WalkState::Done,
            action: match goal {
                Goal::ButtonNotifications => WalkAction::GiveUp,
                Goal::SilenceAlert => WalkAction::Finish,
            },
        },
        (WalkState::Characteristics, WalkEvent::Characteristic(uuid)) => if uuid
            == wanted_characteristic(goal) {
            match goal {
                Goal::ButtonNotifications => WalkStep {
                    state: WalkState::Done,
                    action: WalkAction::Subscribe,
                },
                Goal::SilenceAlert => WalkStep {
                    state: WalkState::Writing,
                    action: WalkAction::Write(NO_ALERT),
                },
            }
        } else {
            WalkStep { state: WalkState::Characteristics, action: WalkAction::NextCharacteristic }
        },
        (WalkState::Characteristics, WalkEvent::NoMoreCharacteristics) => WalkStep {
            state: WalkState::Services,
            action: WalkAction::NextService,
        },
        (WalkState::Writing, WalkEvent::Written) => WalkStep {
            state: WalkState::Characteristics,
            action: WalkAction::NextCharacteristic,
        },
        _ => WalkStep { state: WalkState::Done, action: WalkAction::GiveUp },
    }
}

fn walk(goal: Goal, state: WalkState, event: WalkEvent) -> (step: (WalkState, WalkAction))
    ensures
        step.0 == walk_step(goal, state, event).state,
        step.1 == walk_step(goal, state, event).action,
{
    let (service, characteristic) = match goal {
        Goal::ButtonNotifications => (BUTTON_SERVICE, BUTTON_CHARACTERISTIC),
        Goal::SilenceAlert => (IMMEDIATE_ALERT_SERVICE, ALERT_LEVEL_CHARACTERISTIC),
    };
    match (state, event) {
        (WalkState::Start, WalkEvent::Begin) => (WalkState::Services, WalkAction::NextService),
        (WalkState::Services, WalkEvent::Service(uuid)) => {
            if uuid == service {
                (WalkState::Characteristics, WalkAction::NextCharacteristic)
            } else {
                (WalkState::Services, WalkAction::NextService)
            }
        },
        (WalkState::Services, WalkEvent::NoMoreServices) => {
            match goal {
                Goal::ButtonNotifications => (WalkState::Done, WalkAction::GiveUp),
                Goal::SilenceAlert => (WalkState::Done, WalkAction::Finish),
            }
        },
        (WalkState::Characteristics, WalkEvent::Characteristic(uuid)) => {
            if uuid == characteristic {
                match goal {
                    Goal::ButtonNotifications => (WalkState::Done, WalkAction::Subscribe),
                    Goal::SilenceAlert => (WalkState::Writing, WalkAction::Write(NO_ALERT)),
                }
            } else {
                (WalkState::Characteristics, WalkAction::NextCharacteristic)
            }
        },
        (WalkState::Characteristics, WalkEvent::NoMoreCharacteristics) => (
            WalkState::Services,
            WalkAction::NextService,
        ),
        (WalkState::Writing, WalkEvent::Written) => (
            WalkState::Characteristics,
            WalkAction::NextCharacteristic,
        ),
        _ => (WalkState::Done, WalkAction::GiveUp),
    }
}

/// Takes the walk for the button's notifications one event further.
pub fn get_button_notify_stream(state: WalkState, event: WalkEvent) -> (step: (
    WalkState,
    WalkAction,
))
    ensures
        step.0 == walk_step(Goal::ButtonNotifications, state, event).state,
        step.1 == walk_step(Goal::ButtonNotifications, state, event).action,
{
    walk(Goal::ButtonNotifications, state, event)
}

/// Takes the walk that silences the device's alert one event further.
pub fn stop_beeping(state: WalkState, event: WalkEvent) -> (step: (WalkState, WalkAction))
    ensures
        step.0 == walk_step(Goal::SilenceAlert, state, event).state,
        step.1 == walk_step(Goal::SilenceAlert, state, event).action,
{
    walk(Goal::SilenceAlert, state, event)
}

/// A service of a device: its identifier and those of its characteristics, in
/// the order in which the device lists them.
pub struct ServiceModel {
    pub uuid: u128,
    pub characteristics: Seq<u128>,
}

/// What a whole walk comes to: the characteristics that it subscribed or wrote
/// to, each as the place of its service and its place within the service, and
/// the action that ended it.
pub struct WalkOutcome {
    pub used: Seq<(int, int)>,
    pub last: WalkAction,
}

/// Whether the walk is after the characteristic in place `c` of the service in
/// place `s`.
pub open spec fn wanted(goal: Goal, device: Seq<ServiceModel>, s: int, c: int) -> bool {
    &&& 0 <= s < device.len()
    &&& 0 <= c < device[s].characteristics.len()
    &&& device[s].uuid == wanted_service(goal)
    &&& device[s].characteristics[c] == wanted_characteristic(goal)
}

/// Whether the walk comes to the first place before it comes to the second.
pub open spec fn comes_before(first: (int, int), second: (int, int)) -> bool {
    first.0 < second.0 || (first.0 == second.0 && first.1 < second.1)
}

/// The outcome with one more place in front.
pub open spec fn and_then(place: (int, int), outcome: WalkOutcome) -> WalkOutcome {
    WalkOutcome { used: seq![place] + outcome.used, last: outcome.last }
}

/// The outcome that ends the walk with nothing more used.
pub open spec fn ended(last: WalkAction) -> WalkOutcome {
    WalkOutcome { used: Seq::empty(), last }
}

/// What the rest of a walk comes to when the caller, asked for the next
/// service, finds the one in place `s`, and every read and write succeeds.
pub open spec fn walk_services(goal: Goal, device: Seq<ServiceModel>, s: int) -> WalkOutcome
    decreases device.len() - s, 1int, 0int,
{
    if s < 0 {
        ended(WalkAction::GiveUp)
    } else if s >= device.len() {
        ended(walk_step(goal, WalkState::Services, WalkEvent::NoMoreServices).action)
    } else {
        let step = walk_step(goal, WalkState::Services, WalkEvent::Service(device[s].uuid));
        match step.action {
            WalkAction::NextCharacteristic => walk_characteristics(goal, device, s, 0),
            WalkAction::NextService => walk_services(goal, device, s + 1),
            other => ended(other),
        }
    }
}

/// What the rest of a walk comes to when the caller, asked for the next
/// characteristic of the service in place `s`, finds the one in place `c`, and
/// every read and write succeeds.
pub open spec fn walk_characteristics(
    goal: Goal,
    device: Seq<ServiceModel>,
    s: int,
    c: int,
) -> WalkOutcome
    decreases device.len() - s, 0int, device[s].characteristics.len() - c,
{
    if s < 0 || s >= device.len() || c < 0 {
        ended(WalkAction::GiveUp)
    } else if c >= device[s].characteristics.len() {
        let step = walk_step(goal, WalkState::Characteristics, WalkEvent::NoMoreCharacteristics);
        match step.action {
            WalkAction::NextService => walk_services(goal, device, s + 1),
            other => ended(other),
        }
    } else {
        let step = walk_step(
            goal,
            WalkState::Characteristics,
            WalkEvent::Characteristic(device[s].characteristics[c]),
        );
        match step.action {
            WalkAction::NextCharacteristic => walk_characteristics(goal, device, s, c + 1),
            WalkAction::Subscribe => and_then((s, c), ended(WalkAction::Subscribe)),
            WalkAction::Write(_) => {
                let written = walk_step(goal, step.state, WalkEvent::Written);
                match written.action {
                    WalkAction::NextCharacteristic => and_then(
                        (s, c),
                        walk_characteristics(goal, device, s, c + 1),
                    ),
                    other => and_then((s, c), ended(other)),
                }
            },
            other => ended(other),
        }
    }
}

/// What a whole walk over a device comes to when every read and write succeeds.
pub open spec fn walk_device(goal: Goal, device: Seq<ServiceModel>) -> WalkOutcome {
    let step = walk_step(goal, WalkState::Start, WalkEvent::Begin);
    match step.action {
        WalkAction::NextService => walk_services(goal, device, 0),
        other => ended(other),
    }
}

/// The walk for the button, from the place `from` on, has subscribed to the
/// first characteristic that it is after, or has given up for want of one.
pub open spec fn finds_the_first(
    device: Seq<ServiceModel>,
    outcome: WalkOutcome,
    from: (int, int),
) -> bool {
    let goal = Goal::ButtonNotifications;
    if outcome.last is Subscribe {
        &&& outcome.used.len() == 1
        &&& wanted(goal, device, outcome.used[0].0, outcome.used[0].1)
        &&& !comes_before(outcome.used[0], from)
        &&& forall|s: int, c: int|
            wanted(goal, device, s, c) && !comes_before((s, c), from) ==> !comes_before(
                (s, c),
                outcome.used[0],
            )
    } else {
        &&& outcome.last is GiveUp
        &&& outcome.used.len() == 0
        &&& forall|s: int, c: int| wanted(goal, device, s, c) ==> comes_before((s, c), from)
    }
}

/// The walk that silences the alert, from the place `from` on, has written to
/// every characteristic that it is after, once each and in order, and has
/// finished.
pub open spec fn writes_to_all(
    device: Seq<ServiceModel>,
    outcome: WalkOutcome,
    from: (int, int),
) -> bool {
    let goal = Goal::SilenceAlert;
    &&& outcome.last is Finish
    &&& forall|i: int|
        0 <= i < outcome.used.len() ==> wanted(
            goal,
            device,
            (#[trigger] outcome.used[i]).0,
            outcome.used[i].1,
        ) && !comes_before(outcome.used[i], from)
    &&& forall|i: int, j: int|
        0 <= i < j < outcome.used.len() ==> comes_before(
            #[trigger] outcome.used[i],
            #[trigger] outcome.used[j],
        )
    &&& forall|s: int, c: int|
        wanted(goal, device, s, c) && !comes_before((s, c), from) ==> outcome.used.contains(
            (s, c),
        )
}

proof fn lemma_button_services(device: Seq<ServiceModel>, s: int)
    requires
        0 <= s,
    ensures
        finds_the_first(device, walk_services(Goal::ButtonNotifications, device, s), (s, 0)),
    decreases device.len() - s, 1int, 0int,
{
    if s >= device.len() {
    } else if device[s].uuid == BUTTON_SERVICE {
        lemma_button_characteristics(device, s, 0);
    } else {
        lemma_button_services(device, s + 1);
    }
}

proof fn lemma_button_characteristics(device: Seq<ServiceModel>, s: int, c: int)
    requires
        0 <= s < device.len(),
        0 <= c,
        device[s].uuid == BUTTON_SERVICE,
    ensures
        finds_the_first(
            device,
            walk_characteristics(Goal::ButtonNotifications, device, s, c),
            (s, c),
        ),
    decreases device.len() - s, 0int, device[s].characteristics.len() - c,
{
    let goal = Goal::ButtonNotifications;
    if c >= device[s].characteristics.len() {
        lemma_button_services(device, s + 1);
    } else if device[s].characteristics[c] == BUTTON_CHARACTERISTIC {
        assert(wanted(goal, device, s, c));
        assert((seq![(s, c)] + Seq::<(int, int)>::empty())[0] == (s, c));
    } else {
        lemma_button_characteristics(device, s, c + 1);
    }
}

proof fn lemma_alert_services(device: Seq<ServiceModel>, s: int)
    requires
        0 <= s,
    ensures
        writes_to_all(device, walk_services(Goal::SilenceAlert, device, s), (s, 0)),
    decreases device.len() - s, 1int, 0int,
{
    if s >= device.len() {
    } else if device[s].uuid == IMMEDIATE_ALERT_SERVICE {
        lemma_alert_characteristics(device, s, 0);
    } else {
        lemma_alert_services(device, s + 1);
    }
}

proof fn lemma_alert_characteristics(device: Seq<ServiceModel>, s: int, c: int)
    requires
        0 <= s < device.len(),
        0 <= c,
        device[s].uuid == IMMEDIATE_ALERT_SERVICE,
    ensures
        writes_to_all(device, walk_characteristics(Goal::SilenceAlert, device, s, c), (s, c)),
    decreases device.len() - s, 0int, device[s].characteristics.len() - c,
{
    let goal = Goal::SilenceAlert;
    if c >= device[s].characteristics.len() {
        lemma_alert_services(device, s + 1);
    } else if device[s].characteristics[c] == ALERT_LEVEL_CHARACTERISTIC {
        lemma_alert_characteristics(device, s, c + 1);
        let rest = walk_characteristics(goal, device, s, c + 1);
        let outcome = walk_characteristics(goal, device, s, c);
        assert(outcome.used =~= seq![(s, c)] + rest.used);
        assert(outcome.used[0] == (s, c));
        assert forall|i: int| 0 <= i < outcome.used.len() implies wanted(
            goal,
            device,
            (#[trigger] outcome.used[i]).0,
            outcome.used[i].1,
        ) && !comes_before(outcome.used[i], (s, c)) by {
            if i > 0 {
                assert(outcome.used[i] == rest.used[i - 1]);
            }
        }
        assert forall|i: int, j: int| 0 <= i < j < outcome.used.len() implies comes_before(
            #[trigger] outcome.used[i],
            #[trigger] outcome.used[j],
        ) by {
            assert(outcome.used[j] == rest.used[j - 1]);
            if i > 0 {
                assert(outcome.used[i] == rest.used[i - 1]);
            }
        }
        assert forall|s2: int, c2: int|
            wanted(goal, device, s2, c2) && !comes_before(
                (s2, c2),
                (s, c),
            ) implies outcome.used.contains((s2, c2)) by {
            if (s2, c2) == (s, c) {
                assert(outcome.used[0] == (s2, c2));
            } else {
                assert(rest.used.contains((s2, c2)));
                let i = choose|i: int| 0 <= i < rest.used.len() && rest.used[i] == (s2, c2);
                assert(outcome.used[i + 1] == (s2, c2));
            }
        }
    } else {
        lemma_alert_characteristics(device, s, c + 1);
    }
}

/// On a device that can be read, the walk for the button subscribes to the
/// first button characteristic of a button service, in the order in which the
/// device lists its services and their characteristics, and to nothing else; it
/// gives up exactly when the device has no such characteristic.
pub proof fn law_button_walk_finds_the_first(device: Seq<ServiceModel>)
    ensures
        ({
            let goal = Goal::ButtonNotifications;
            let outcome = walk_device(goal, device);
            if exists|s: int, c: int| wanted(goal, device, s, c) {
                &&& outcome.last is Subscribe
                &&& outcome.used.len() == 1
                &&& wanted(goal, device, outcome.used[0].0, outcome.used[0].1)
                &&& forall|s: int, c: int|
                    wanted(goal, device, s, c) ==> !comes_before((s, c), outcome.used[0])
            } else {
                &&& outcome.last is GiveUp
                &&& outcome.used.len() == 0
            }
        }),
{
    lemma_button_services(device, 0);
}

/// On a device that can be read and written to, the walk that silences the
/// alert writes to every alert level characteristic of an immediate alert
/// service, once each, in the order in which the device lists them, and to
/// nothing else; then it finishes.
pub proof fn law_alert_walk_writes_to_all(device: Seq<ServiceModel>)
    ensures
        ({
            let goal = Goal::SilenceAlert;
            let outcome = walk_device(goal, device);
            &&& outcome.last is Finish
            &&& forall|s: int, c: int|
                wanted(goal, device, s, c) <==> outcome.used.contains((s, c))
            &&& forall|i: int, j: int|
                0 <= i < j < outcome.used.len() ==> comes_before(
                    #[trigger] outcome.used[i],
                    #[trigger] outcome.used[j],
                )
        }),
{
    let goal = Goal::SilenceAlert;
    lemma_alert_services(device, 0);
    let outcome = walk_device(goal, device);
    assert forall|s: int, c: int| outcome.used.contains((s, c)) implies wanted(
        goal,
        device,
        s,
        c,
    ) by {
        let i = choose|i: int| 0 <= i < outcome.used.len() && outcome.used[i] == (s, c);
        assert(wanted(goal, device, outcome.used[i].0, outcome.used[i].1));
    }
}

} // verus!
