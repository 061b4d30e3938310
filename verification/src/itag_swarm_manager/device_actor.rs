//! The per-device actor: which adapters see the device, and which of them holds
//! the connection.
//!
//! An actor handles one message at a time. After every message, once the device
//! has stabilized and while no button session runs, it asks for arbitration: the
//! caller reads the signal strength that each adapter reports, and the actor
//! picks the adapter with the strongest signal for a new session. Of adapters
//! with the same strength the one that has seen the device longest wins.

use vstd::prelude::*;
use crate::address::{Address, address_eq};
use crate::itag_swarm_manager::button_monitor::{
    law_session_publishes_unretained, published_by, session_run, SessionEvent,
};
use crate::mqtt_client::PresenceRecord;

verus! {

/// How long after its creation an actor waits before it picks an adapter, so that
/// every adapter in range has had time to report the device.
pub const STABILIZATION_DELAY_MS: u64 = 1000;

/// An adapter that sees the device, with the handle through which that adapter
/// reaches it.
#[derive(Debug)]
pub struct ConnectedAdapter<H> {
    pub adapter_address: Address,
    pub device: H,
}

/// What an actor is told.
#[derive(Debug)]
pub enum DeviceMessage<H> {
    /// The stabilization delay has passed.
    Stabilized,
    /// An adapter sees the device.
    DeviceDiscovered { adapter_address: Address, device: H },
    /// An adapter no longer sees the device.
    DeviceLost { adapter_address: Address },
    /// The button session has ended.
    ButtonMonitorExit,
}

/// What a message made of the device's visibility, for the log.
#[derive(Clone, Copy, Debug, PartialEq, Eq, Structural)]
pub enum Notice {
    Nothing,
    /// The adapter of the message did not see the device before.
    FirstSighting,
    /// The last adapter that saw the device has lost it.
    NoLongerVisible,
}

/// The result of handling a message.
#[derive(Clone, Copy, Debug, PartialEq, Eq, Structural)]
pub struct Outcome {
    pub notice: Notice,
    /// Whether the caller is to read the signal strengths and call `arbitrate`.
    pub arbitrate: bool,
}

/// What is to happen when an actor is created.
#[derive(Clone, Copy, Debug, PartialEq, Eq, Structural)]
pub struct Startup {
    /// The record to publish at once.
    pub publish: PresenceRecord,
    /// After how many milliseconds `DeviceMessage::Stabilized` is to be delivered.
    pub stabilize_after_ms: u64,
}

/// The state of an actor as the contracts see it.
pub struct ActorModel<H> {
    /// The adapters that see the device, in the order of their first sighting.
    pub visible: Seq<ConnectedAdapter<H>>,
    pub stabilized: bool,
    pub has_button_monitor: bool,
}

/// A message together with what the adapters would report if asked right after it.
pub struct Turn<H, E> {
    pub message: DeviceMessage<H>,
    pub readings: Seq<Result<Option<i16>, E>>,
}

/// The state of one device: its visibility map, whether it has stabilized, and
/// whether a button session is running.
pub struct DeviceActor<H> {
    device_address: Address,
    discovered_on_adapter: Vec<ConnectedAdapter<H>>,
    stabilized: bool,
    has_button_monitor: bool,
}

/// Whether the adapter is among those that see the device.
pub open spec fn seen_on<H>(visible: Seq<ConnectedAdapter<H>>, adapter: Address) -> bool {
    exists|i: int| 0 <= i < visible.len() && (#[trigger] visible[i]).adapter_address == adapter
}

/// The place of the adapter among those that see the device.
pub open spec fn slot_of<H>(visible: Seq<ConnectedAdapter<H>>, adapter: Address) -> int {
    choose|i: int| 0 <= i < visible.len() && (#[trigger] visible[i]).adapter_address == adapter
}

/// No adapter occurs twice.
pub open spec fn distinct_adapters<H>(visible: Seq<ConnectedAdapter<H>>) -> bool {
    forall|i: int, j: int|
        0 <= i < j < visible.len() ==> (#[trigger] visible[i]).adapter_address != (
        #[trigger] visible[j]).adapter_address
}

/// The visibility after the adapter has reported the device: its entry holds the
/// new handle, in its old place if it had one and at the end otherwise.
pub open spec fn sighted<H>(
    visible: Seq<ConnectedAdapter<H>>,
    adapter: Address,
    device: H,
) -> Seq<ConnectedAdapter<H>> {
    let entry = ConnectedAdapter { adapter_address: adapter, device };
    if seen_on(visible, adapter) {
        visible.update(slot_of(visible, adapter), entry)
    } else {
        visible.push(entry)
    }
}

/// The visibility after the adapter has lost the device.
pub open spec fn unsighted<H>(visible: Seq<ConnectedAdapter<H>>, adapter: Address) -> Seq<
    ConnectedAdapter<H>,
> {
    if seen_on(visible, adapter) {
        visible.remove(slot_of(visible, adapter))
    } else {
        visible
    }
}

/// The record that is published when an actor is created: the device is known
/// but not present, and the broker is to keep that.
pub open spec fn startup_record() -> PresenceRecord {
    PresenceRecord { retained: true, is_present: false, is_button_clicked: false }
}

/// The state of an actor that has handled nothing yet.
pub open spec fn initial_model<H>() -> ActorModel<H> {
    ActorModel { visible: Seq::empty(), stabilized: false, has_button_monitor: false }
}

/// The state after a message.
pub open spec fn after_message<H>(model: ActorModel<H>, message: DeviceMessage<H>) -> ActorModel<
    H,
> {
    match message {
        DeviceMessage::Stabilized => ActorModel { stabilized: true, ..model },
        DeviceMessage::DeviceDiscovered { adapter_address, device } => ActorModel {
            visible: sighted(model.visible, adapter_address, device),
            ..model
        },
        DeviceMessage::DeviceLost { adapter_address } => ActorModel {
            visible: unsighted(model.visible, adapter_address),
            ..model
        },
        DeviceMessage::ButtonMonitorExit => ActorModel { has_button_monitor: false, ..model },
    }
}

/// What a message makes of the visibility of the device.
pub open spec fn notice_for<H>(model: ActorModel<H>, message: DeviceMessage<H>) -> Notice {
    match message {
        DeviceMessage::DeviceDiscovered { adapter_address, device } => if seen_on(
            model.visible,
            adapter_address,
        ) {
            Notice::Nothing
        } else {
            Notice::FirstSighting
        },
        DeviceMessage::DeviceLost { adapter_address } => if seen_on(model.visible, adapter_address)
            && model.visible.len() == 1 {
            Notice::NoLongerVisible
        } else {
            Notice::Nothing
        },
        _ => Notice::Nothing,
    }
}

/// Arbitration runs only for a stabilized device without a button session.
pub open spec fn wants_arbitration<H>(model: ActorModel<H>) -> bool {
    model.stabilized && !model.has_button_monitor
}

/// The signal strength in a reading: none where reading failed or gave none.
pub open spec fn strength<E>(reading: Result<Option<i16>, E>) -> Option<i16> {
    match reading {
        Ok(Some(rssi)) => Some(rssi),
        _ => None,
    }
}

/// The signal strength that the adapter in place `i` reports; none where the
/// readings do not reach that far.
pub open spec fn strength_at<E>(readings: Seq<Result<Option<i16>, E>>, i: int) -> Option<i16> {
    if 0 <= i < readings.len() {
        strength(readings[i])
    } else {
        None
    }
}

/// Place `winner` holds the strongest signal among the first `candidates` places,
/// and no earlier place holds one as strong.
pub open spec fn is_strongest<E>(
    readings: Seq<Result<Option<i16>, E>>,
    candidates: int,
    winner: int,
) -> bool {
    &&& 0 <= winner < candidates
    &&& strength_at(readings, winner) is Some
    &&& forall|i: int|
        0 <= i < candidates && (#[trigger] strength_at(readings, i)) is Some ==> strength_at(
            readings,
            i,
        )->0 <= strength_at(readings, winner)->0
    &&& forall|i: int|
        0 <= i < winner && (#[trigger] strength_at(readings, i)) is Some ==> strength_at(
            readings,
            i,
        )->0 < strength_at(readings, winner)->0
}

/// The place with the strongest signal among the first `candidates` places, the
/// earliest of them on a tie; none where no place reports a signal.
pub open spec fn strongest<E>(readings: Seq<Result<Option<i16>, E>>, candidates: int) -> Option<
    int,
> {
    if exists|w: int| is_strongest(readings, candidates, w) {
        Some(choose|w: int| is_strongest(readings, candidates, w))
    } else {
        None
    }
}

/// The place of the adapter that arbitration picks in this state.
pub open spec fn arbitration_winner<H, E>(
    model: ActorModel<H>,
    readings: Seq<Result<Option<i16>, E>>,
) -> Option<int> {
    if wants_arbitration(model) {
        strongest(readings, model.visible.len() as int)
    } else {
        None
    }
}

/// The state after arbitration: a session runs if an adapter was picked.
pub open spec fn after_arbitration<H, E>(
    model: ActorModel<H>,
    readings: Seq<Result<Option<i16>, E>>,
) -> ActorModel<H> {
    if arbitration_winner(model, readings) is Some {
        ActorModel { has_button_monitor: true, ..model }
    } else {
        model
    }
}

impl<H> ActorModel<H> {
    /// No adapter occurs twice in the visibility map.
    pub open spec fn wf(self) -> bool {
        distinct_adapters(self.visible)
    }
}

/// At most one place holds the strongest signal.
pub proof fn lemma_strongest_is_unique<E>(
    readings: Seq<Result<Option<i16>, E>>,
    candidates: int,
    a: int,
    b: int,
)
    requires
        is_strongest(readings, candidates, a),
        is_strongest(readings, candidates, b),
    ensures
        a == b,
{
    if a < b {
        assert(strength_at(readings, a) is Some);
    } else if b < a {
        assert(strength_at(readings, b) is Some);
    }
}

/// A place that meets `is_strongest` is the one that `strongest` names.
pub proof fn lemma_strongest_found<E>(
    readings: Seq<Result<Option<i16>, E>>,
    candidates: int,
    winner: int,
)
    requires
        is_strongest(readings, candidates, winner),
    ensures
        strongest(readings, candidates) == Some(winner),
{
    let w = choose|w: int| is_strongest(readings, candidates, w);
    lemma_strongest_is_unique(readings, candidates, winner, w);
}

/// Handling a message keeps the adapters of the visibility map distinct.
pub proof fn lemma_message_keeps_wf<H>(model: ActorModel<H>, message: DeviceMessage<H>)
    requires
        model.wf(),
    ensures
        after_message(model, message).wf(),
{
    let next = after_message(model, message);
    match message {
        DeviceMessage::DeviceDiscovered { adapter_address, device } => {
            if seen_on(model.visible, adapter_address) {
                assert forall|i: int, j: int| 0 <= i < j < next.visible.len() implies (
                #[trigger] next.visible[i]).adapter_address != (
                #[trigger] next.visible[j]).adapter_address by {
                    assert(model.visible[i].adapter_address != model.visible[j].adapter_address);
                }
            } else {
                assert forall|i: int, j: int| 0 <= i < j < next.visible.len() implies (
                #[trigger] next.visible[i]).adapter_address != (
                #[trigger] next.visible[j]).adapter_address by {
                    if j < model.visible.len() {
                        assert(model.visible[i].adapter_address
                            != model.visible[j].adapter_address);
                    } else {
                        assert(model.visible[i].adapter_address != adapter_address);
                    }
                }
            }
        },
        DeviceMessage::DeviceLost { adapter_address } => {
            if seen_on(model.visible, adapter_address) {
                let slot = slot_of(model.visible, adapter_address);
                assert forall|i: int, j: int| 0 <= i < j < next.visible.len() implies (
                #[trigger] next.visible[i]).adapter_address != (
                #[trigger] next.visible[j]).adapter_address by {
                    let oi = if i < slot {
                        i
                    } else {
                        i + 1
                    };
                    let oj = if j < slot {
                        j
                    } else {
                        j + 1
                    };
                    assert(model.visible[oi].adapter_address != model.visible[oj].adapter_address);
                }
            }
        },
        _ => {},
    }
}

fn find_adapter<H>(visible: &Vec<ConnectedAdapter<H>>, adapter: &Address) -> (slot: Option<usize>)
    requires
        distinct_adapters(visible@),
    ensures
        match slot {
            Some(i) => i < visible@.len() && seen_on(visible@, *adapter) && i == slot_of(
                visible@,
                *adapter,
            ),
            None => !seen_on(visible@, *adapter),
        },
{
    let mut i: usize = 0;
    while i < visible.len()
        invariant
            i <= visible.len(),
            distinct_adapters(visible@),
            forall|k: int| 0 <= k < i ==> (#[trigger] visible@[k]).adapter_address != *adapter,
        decreases visible.len() - i,
    {
        if address_eq(&visible[i].adapter_address, adapter) {
            proof {
                assert(visible@[i as int].adapter_address == *adapter);
                assert(seen_on(visible@, *adapter));
                let chosen = slot_of(visible@, *adapter);
                assert(0 <= chosen < visible@.len());
                assert(visible@[chosen].adapter_address == *adapter);
            }
            return Some(i);
        }
        i += 1;
    }
    None
}

fn strongest_index<E>(readings: &Vec<Result<Option<i16>, E>>, candidates: usize) -> (best: Option<
    usize,
>)
    ensures
        match best {
            Some(w) => strongest(readings@, candidates as int) == Some(w as int),
            None => strongest(readings@, candidates as int) is None,
        },
{
    let mut best_candidate: Option<(i16, usize)> = None;
    let mut i: usize = 0;
    while i < candidates
        invariant
            i <= candidates,
            match best_candidate {
                Some((best_rssi, w)) => {
                    &&& w < i
                    &&& strength_at(readings@, w as int) == Some(best_rssi)
                    &&& forall|k: int|
                        0 <= k < i && (#[trigger] strength_at(readings@, k)) is Some
                            ==> strength_at(readings@, k)->0 <= best_rssi
                    &&& forall|k: int|
                        0 <= k < w && (#[trigger] strength_at(readings@, k)) is Some
                            ==> strength_at(readings@, k)->0 < best_rssi
                },
                None => forall|k: int| 0 <= k < i ==> (#[trigger] strength_at(readings@, k)) is None,
            },
        decreases candidates - i,
    {
        if i < readings.len() {
            match readings[i] {
                Ok(Some(this_rssi)) => {
                    match best_candidate {
                        Some((best_rssi, _)) => {
                            if this_rssi > best_rssi {
                                best_candidate = Some((this_rssi, i));
                            }
                        },
                        None => {
                            best_candidate = Some((this_rssi, i));
                        },
                    }
                },
                _ => {},
            }
        }
        i += 1;
    }
    match best_candidate {
        Some((_, w)) => {
            proof {
                lemma_strongest_found(readings@, candidates as int, w as int);
            }
            Some(w)
        },
        None => {
            proof {
                assert forall|w: int| !is_strongest(readings@, candidates as int, w) by {
                    if 0 <= w < candidates {
                        assert(strength_at(readings@, w) is None);
                    }
                }
            }
            None
        },
    }
}

/// The adapter with the strongest signal among those that see the device.
///
/// `readings` holds, place by place, what reading the signal strength through
/// each adapter gave. An adapter whose reading failed or gave nothing is passed
/// over, and so is one that `readings` does not reach. Of two adapters with the
/// same strength the one that comes first wins.
pub fn get_best_adapter<'a, H, E>(
    adapters: &'a Vec<ConnectedAdapter<H>>,
    readings: &Vec<Result<Option<i16>, E>>,
) -> (best: Option<&'a ConnectedAdapter<H>>)
    ensures
        match strongest(readings@, adapters@.len() as int) {
            Some(w) => 0 <= w < adapters@.len() && best == Some(&adapters@[w]),
            None => best is None,
        },
{
    match strongest_index(readings, adapters.len()) {
        Some(w) => {
            proof {
                let chosen = choose|c: int| is_strongest(readings@, adapters@.len() as int, c);
                assert(is_strongest(readings@, adapters@.len() as int, chosen));
            }
            Some(&adapters[w])
        },
        None => None,
    }
}

impl<H> View for DeviceActor<H> {
    type V = ActorModel<H>;

    closed spec fn view(&self) -> ActorModel<H> {
        ActorModel {
            visible: self.discovered_on_adapter@,
            stabilized: self.stabilized,
            has_button_monitor: self.has_button_monitor,
        }
    }
}

impl<H> DeviceActor<H> {
    /// The address of the device that this actor stands for.
    pub closed spec fn address(&self) -> Address {
        self.device_address
    }

    /// No adapter occurs twice in the visibility map.
    pub open spec fn wf(&self) -> bool {
        self@.wf()
    }

    /// A new actor for the device, and what is to happen at its creation: the
    /// device is published once, retained, as known but not present, and the
    /// stabilization delay starts.
    pub fn new(device_address: &Address) -> (created: (DeviceActor<H>, Startup))
        ensures
            created.0.wf(),
            created.0@ == initial_model::<H>(),
            created.0.address() == *device_address,
            created.1.publish == startup_record(),
            created.1.stabilize_after_ms == STABILIZATION_DELAY_MS,
    {
        let actor = DeviceActor {
            device_address: *device_address,
            discovered_on_adapter: Vec::new(),
            stabilized: false,
            has_button_monitor: false,
        };
        let startup = Startup {
            publish: PresenceRecord { retained: true, is_present: false, is_button_clicked: false },
            stabilize_after_ms: STABILIZATION_DELAY_MS,
        };
        assert(actor@.visible =~= Seq::empty());
        (actor, startup)
    }

    /// Handles one message.
    pub fn handle_message(&mut self, message: DeviceMessage<H>) -> (outcome: Outcome)
        requires
            old(self).wf(),
        ensures
            final(self).wf(),
            final(self)@ == after_message(old(self)@, message),
            final(self).address() == old(self).address(),
            outcome.notice == notice_for(old(self)@, message),
            outcome.arbitrate == wants_arbitration(final(self)@),
    {
        proof {
            lemma_message_keeps_wf(self@, message);
        }
        let mut notice = Notice::Nothing;
        match message {
            DeviceMessage::Stabilized => {
                self.stabilized = true;
            },
            DeviceMessage::DeviceDiscovered { adapter_address, device } => {
                let discovered = ConnectedAdapter { adapter_address, device };
                match find_adapter(&self.discovered_on_adapter, &adapter_address) {
                    Some(slot) => {
                        self.discovered_on_adapter.set(slot, discovered);
                    },
                    None => {
                        self.discovered_on_adapter.push(discovered);
                        notice = Notice::FirstSighting;
                    },
                }
            },
            DeviceMessage::DeviceLost { adapter_address } => {
                match find_adapter(&self.discovered_on_adapter, &adapter_address) {
                    Some(slot) => {
                        self.discovered_on_adapter.remove(slot);
                        if self.discovered_on_adapter.len() == 0 {
                            notice = Notice::NoLongerVisible;
                        }
                    },
                    None => {},
                }
            },
            DeviceMessage::ButtonMonitorExit => {
                self.has_button_monitor = false;
            },
        }
        Outcome { notice, arbitrate: self.stabilized && !self.has_button_monitor }
    }

    /// An adapter sees the device.
    pub fn device_discovered(&mut self, adapter_address: Address, device: H) -> (outcome: Outcome)
        requires
            old(self).wf(),
        ensures
            final(self).wf(),
            final(self)@ == after_message(
                old(self)@,
                DeviceMessage::DeviceDiscovered { adapter_address, device },
            ),
            final(self).address() == old(self).address(),
            outcome.notice == notice_for(
                old(self)@,
                DeviceMessage::DeviceDiscovered { adapter_address, device },
            ),
            outcome.arbitrate == wants_arbitration(final(self)@),
    {
        self.handle_message(DeviceMessage::DeviceDiscovered { adapter_address, device })
    }

    /// An adapter no longer sees the device.
    pub fn device_removed(&mut self, adapter_address: Address) -> (outcome: Outcome)
        requires
            old(self).wf(),
        ensures
            final(self).wf(),
            final(self)@ == after_message(
                old(self)@,
                DeviceMessage::<H>::DeviceLost { adapter_address },
            ),
            final(self).address() == old(self).address(),
            outcome.notice == notice_for(
                old(self)@,
                DeviceMessage::<H>::DeviceLost { adapter_address },
            ),
            outcome.arbitrate == wants_arbitration(final(self)@),
    {
        self.handle_message(DeviceMessage::DeviceLost { adapter_address })
    }

    /// Picks the adapter for a new button session, if one is due.
    ///
    /// `readings` holds, place by place, what reading the signal strength through
    /// each adapter of `visible_adapters` gave. Nothing is picked before the
    /// device has stabilized or while a session runs. Otherwise the adapter with
    /// the strongest signal is returned and the session counts as running until
    /// `DeviceMessage::ButtonMonitorExit` arrives.
    pub fn arbitrate<E>(&mut self, readings: &Vec<Result<Option<i16>, E>>) -> (winner: Option<
        Address,
    >)
        requires
            old(self).wf(),
        ensures
            final(self).wf(),
            final(self)@ == after_arbitration(old(self)@, readings@),
            final(self).address() == old(self).address(),
            match arbitration_winner(old(self)@, readings@) {
                Some(w) => 0 <= w < old(self)@.visible.len() && winner == Some(
                    old(self)@.visible[w].adapter_address,
                ),
                None => winner is None,
            },
    {
        if !self.stabilized || self.has_button_monitor {
            return None;
        }
        match strongest_index(readings, self.discovered_on_adapter.len()) {
            Some(w) => {
                proof {
                    let chosen = choose|c: int|
                        is_strongest(readings@, self.discovered_on_adapter@.len() as int, c);
                    assert(is_strongest(
                        readings@,
                        self.discovered_on_adapter@.len() as int,
                        chosen,
                    ));
                }
                self.has_button_monitor = true;
                Some(self.discovered_on_adapter[w].adapter_address)
            },
            None => None,
        }
    }

    /// The address of the device that this actor stands for.
    pub fn device_address(&self) -> (address: Address)
        ensures
            address == self.address(),
    {
        self.device_address
    }

    /// Whether the stabilization delay has passed.
    pub fn is_stabilized(&self) -> (stabilized: bool)
        ensures
            stabilized == self@.stabilized,
    {
        self.stabilized
    }

    /// Whether a button session is running.
    pub fn has_button_monitor(&self) -> (running: bool)
        ensures
            running == self@.has_button_monitor,
    {
        self.has_button_monitor
    }

    /// The adapters that see the device, in the order of their first sighting.
    pub fn visible_adapters(&self) -> (visible: &Vec<ConnectedAdapter<H>>)
        ensures
            visible@ == self@.visible,
    {
        &self.discovered_on_adapter
    }

    /// The handle through which the adapter reaches the device.
    pub fn device_on(&self, adapter_address: &Address) -> (device: Option<&H>)
        requires
            self.wf(),
        ensures
            match device {
                Some(handle) => seen_on(self@.visible, *adapter_address) && *handle
                    == self@.visible[slot_of(self@.visible, *adapter_address)].device,
                None => !seen_on(self@.visible, *adapter_address),
            },
    {
        match find_adapter(&self.discovered_on_adapter, adapter_address) {
            Some(slot) => Some(&self.discovered_on_adapter[slot].device),
            None => None,
        }
    }
}

/// The state after a message and the arbitration that follows it.
pub open spec fn after_turn<H, E>(model: ActorModel<H>, turn: Turn<H, E>) -> ActorModel<H> {
    after_arbitration(after_message(model, turn.message), turn.readings)
}

/// Whether the arbitration of this turn starts a button session.
pub open spec fn starts_session<H, E>(model: ActorModel<H>, turn: Turn<H, E>) -> bool {
    arbitration_winner(after_message(model, turn.message), turn.readings) is Some
}

/// The state after a run of turns.
pub open spec fn after_turns<H, E>(model: ActorModel<H>, turns: Seq<Turn<H, E>>) -> ActorModel<H>
    decreases turns.len(),
{
    if turns.len() == 0 {
        model
    } else {
        after_turn(after_turns(model, turns.drop_last()), turns.last())
    }
}

/// How many button sessions run after the turns of a new actor: one more for each
/// session that a turn started, one less for each exit that a turn delivered.
pub open spec fn running_sessions<H, E>(turns: Seq<Turn<H, E>>) -> int
    decreases turns.len(),
{
    if turns.len() == 0 {
        0
    } else {
        let before = after_turns(initial_model::<H>(), turns.drop_last());
        running_sessions(turns.drop_last()) - (if turns.last().message is ButtonMonitorExit {
            1int
        } else {
            0int
        }) + (if starts_session(before, turns.last()) {
            1int
        } else {
            0int
        })
    }
}

/// Every exit in the run is delivered by a session that was running.
pub open spec fn exits_are_due<H, E>(turns: Seq<Turn<H, E>>) -> bool {
    forall|k: int|
        0 <= k < turns.len() && (#[trigger] turns[k]).message is ButtonMonitorExit
            ==> running_sessions(turns.take(k)) >= 1
}

/// However an actor is run, no adapter ever occurs twice in its visibility
/// map.
pub proof fn law_visibility_stays_distinct<H, E>(model: ActorModel<H>, turns: Seq<Turn<H, E>>)
    requires
        model.wf(),
    ensures
        after_turns(model, turns).wf(),
    decreases turns.len(),
{
    if turns.len() > 0 {
        law_visibility_stays_distinct(model, turns.drop_last());
        lemma_message_keeps_wf(after_turns(model, turns.drop_last()), turns.last().message);
    }
}

proof fn lemma_unstabilized_run<H, E>(turns: Seq<Turn<H, E>>)
    requires
        forall|i: int| 0 <= i < turns.len() ==> !((#[trigger] turns[i]).message is Stabilized),
    ensures
        !after_turns(initial_model::<H>(), turns).stabilized,
        !after_turns(initial_model::<H>(), turns).has_button_monitor,
    decreases turns.len(),
{
    if turns.len() > 0 {
        let front = turns.drop_last();
        assert forall|i: int| 0 <= i < front.len() implies !((#[trigger] front[i]).message
            is Stabilized) by {
            assert(front[i] == turns[i]);
        }
        lemma_unstabilized_run(front);
        assert(!(turns[turns.len() - 1].message is Stabilized));
    }
}

proof fn lemma_unseen_run<H, E>(model: ActorModel<H>, turns: Seq<Turn<H, E>>)
    requires
        model.visible.len() == 0,
        !model.has_button_monitor,
        forall|i: int| 0 <= i < turns.len() ==> !((#[trigger] turns[i]).message is DeviceDiscovered),
    ensures
        after_turns(model, turns).visible.len() == 0,
        !after_turns(model, turns).has_button_monitor,
    decreases turns.len(),
{
    if turns.len() > 0 {
        let front = turns.drop_last();
        assert forall|i: int| 0 <= i < front.len() implies !((#[trigger] front[i]).message
            is DeviceDiscovered) by {
            assert(front[i] == turns[i]);
        }
        lemma_unseen_run(model, front);
        assert(!(turns[turns.len() - 1].message is DeviceDiscovered));
        let before = after_turns(model, front);
        let told = after_message(before, turns.last().message);
        assert(told.visible.len() == 0);
        assert(forall|w: int| !is_strongest(turns.last().readings, 0, w));
    }
}

proof fn lemma_running_matches_flag<H, E>(turns: Seq<Turn<H, E>>)
    requires
        exits_are_due(turns),
    ensures
        running_sessions(turns) == (if after_turns(initial_model::<H>(), turns).has_button_monitor {
            1int
        } else {
            0int
        }),
    decreases turns.len(),
{
    if turns.len() > 0 {
        let front = turns.drop_last();
        assert forall|k: int|
            0 <= k < front.len() && (#[trigger] front[k]).message
                is ButtonMonitorExit implies running_sessions(front.take(k)) >= 1 by {
            assert(front[k] == turns[k]);
            assert(front.take(k) =~= turns.take(k));
        }
        lemma_running_matches_flag(front);
        let last = turns.len() - 1;
        assert(turns.take(last) =~= front);
        assert(turns[last] == turns.last());
    }
}

/// The adapter that arbitration picks reports a signal, and no adapter that sees
/// the device reports a stronger one.
pub proof fn law_winner_is_strongest<H, E>(
    model: ActorModel<H>,
    readings: Seq<Result<Option<i16>, E>>,
    other: int,
)
    requires
        arbitration_winner(model, readings) is Some,
        0 <= other < model.visible.len(),
        strength_at(readings, other) is Some,
    ensures
        0 <= arbitration_winner(model, readings)->0 < model.visible.len(),
        strength_at(readings, arbitration_winner(model, readings)->0) is Some,
        strength_at(readings, other)->0 <= strength_at(
            readings,
            arbitration_winner(model, readings)->0,
        )->0,
{
    let w = choose|w: int| is_strongest(readings, model.visible.len() as int, w);
    assert(is_strongest(readings, model.visible.len() as int, w));
}

/// Arbitration picks an adapter exactly when the device has stabilized, no
/// session runs, and some adapter that sees the device reports a signal.
pub proof fn law_session_is_owed<H, E>(
    model: ActorModel<H>,
    readings: Seq<Result<Option<i16>, E>>,
)
    ensures
        arbitration_winner(model, readings) is Some <==> model.stabilized
            && !model.has_button_monitor && exists|i: int|
            0 <= i < model.visible.len() && (#[trigger] strength_at(readings, i)) is Some,
{
    let n = model.visible.len() as int;
    if exists|i: int| 0 <= i < n && (#[trigger] strength_at(readings, i)) is Some {
        let i = choose|i: int| 0 <= i < n && (#[trigger] strength_at(readings, i)) is Some;
        lemma_some_place_is_strongest(readings, i + 1);
        lemma_strongest_extends(readings, i + 1, n);
    } else {
        assert forall|w: int| !is_strongest(readings, n, w) by {
            if 0 <= w < n {
                assert(strength_at(readings, w) is None);
            }
        }
    }
}

proof fn lemma_some_place_is_strongest<E>(readings: Seq<Result<Option<i16>, E>>, n: int)
    requires
        0 < n,
        strength_at(readings, n - 1) is Some,
    ensures
        exists|w: int| is_strongest(readings, n, w),
    decreases n,
{
    if exists|i: int| 0 <= i < n - 1 && (#[trigger] strength_at(readings, i)) is Some {
        let i = choose|i: int| 0 <= i < n - 1 && (#[trigger] strength_at(readings, i)) is Some;
        lemma_some_place_is_strongest(readings, i + 1);
        lemma_strongest_extends(readings, i + 1, n);
    } else {
        assert(is_strongest(readings, n, n - 1));
    }
}

proof fn lemma_strongest_extends<E>(readings: Seq<Result<Option<i16>, E>>, from: int, to: int)
    requires
        0 <= from <= to,
        exists|w: int| is_strongest(readings, from, w),
    ensures
        exists|w: int| is_strongest(readings, to, w),
    decreases to - from,
{
    if from < to {
        let w = choose|w: int| is_strongest(readings, from, w);
        match strength_at(readings, from) {
            Some(rssi) => {
                if rssi > strength_at(readings, w)->0 {
                    assert(is_strongest(readings, from + 1, from));
                } else {
                    assert(is_strongest(readings, from + 1, w));
                }
            },
            None => {
                assert(is_strongest(readings, from + 1, w));
            },
        }
        lemma_strongest_extends(readings, from + 1, to);
    }
}

/// Once a device has stabilized it stays so, whatever its actor is told.
pub proof fn law_stabilization_is_permanent<H, E>(model: ActorModel<H>, turns: Seq<Turn<H, E>>)
    requires
        model.stabilized,
    ensures
        after_turns(model, turns).stabilized,
    decreases turns.len(),
{
    if turns.len() > 0 {
        law_stabilization_is_permanent(model, turns.drop_last());
    }
}

/// An actor starts no session before it has been told that the device has
/// stabilized, however many adapters report the device in the meantime.
pub proof fn law_no_session_before_stabilized<H, E>(turns: Seq<Turn<H, E>>)
    requires
        forall|i: int| 0 <= i < turns.len() ==> !((#[trigger] turns[i]).message is Stabilized),
    ensures
        forall|k: int|
            0 <= k < turns.len() ==> !starts_session(
                after_turns(initial_model::<H>(), turns.take(k)),
                #[trigger] turns[k],
            ),
{
    assert forall|k: int| 0 <= k < turns.len() implies !starts_session(
        after_turns(initial_model::<H>(), turns.take(k)),
        #[trigger] turns[k],
    ) by {
        let front = turns.take(k);
        assert forall|i: int| 0 <= i < front.len() implies !((#[trigger] front[i]).message
            is Stabilized) by {
            assert(front[i] == turns[i]);
        }
        lemma_unstabilized_run(front);
    }
}

/// At every instant at most one button session runs for a device: over any run
/// of a new actor in which each exit is delivered by a running session, the
/// number of running sessions is zero or one, and it is one exactly while the
/// actor counts a session as running.
pub proof fn law_at_most_one_session<H, E>(turns: Seq<Turn<H, E>>)
    requires
        exits_are_due(turns),
    ensures
        forall|k: int|
            0 <= k <= turns.len() ==> 0 <= #[trigger] running_sessions(turns.take(k)) <= 1,
        forall|k: int|
            0 <= k <= turns.len() ==> (#[trigger] running_sessions(turns.take(k)) == 1
                <==> after_turns(initial_model::<H>(), turns.take(k)).has_button_monitor),
{
    assert forall|k: int| 0 <= k <= turns.len() implies 0 <= #[trigger] running_sessions(
        turns.take(k),
    ) <= 1 && (running_sessions(turns.take(k)) == 1 <==> after_turns(
        initial_model::<H>(),
        turns.take(k),
    ).has_button_monitor) by {
        let front = turns.take(k);
        assert forall|j: int|
            0 <= j < front.len() && (#[trigger] front[j]).message
                is ButtonMonitorExit implies running_sessions(front.take(j)) >= 1 by {
            assert(front[j] == turns[j]);
            assert(front.take(j) =~= turns.take(j));
        }
        lemma_running_matches_flag(front);
    }
}

/// A device that no adapter sees, and for which no session runs, gets no session
/// until an adapter reports it again.
pub proof fn law_unseen_device_stays_idle<H, E>(model: ActorModel<H>, turns: Seq<Turn<H, E>>)
    requires
        model.visible.len() == 0,
        !model.has_button_monitor,
        forall|i: int| 0 <= i < turns.len() ==> !((#[trigger] turns[i]).message is DeviceDiscovered),
    ensures
        forall|k: int|
            0 <= k < turns.len() ==> !starts_session(
                after_turns(model, turns.take(k)),
                #[trigger] turns[k],
            ),
        after_turns(model, turns).visible.len() == 0,
        !after_turns(model, turns).has_button_monitor,
{
    assert forall|k: int| 0 <= k < turns.len() implies !starts_session(
        after_turns(model, turns.take(k)),
        #[trigger] turns[k],
    ) by {
        let front = turns.take(k);
        assert forall|i: int| 0 <= i < front.len() implies !((#[trigger] front[i]).message
            is DeviceDiscovered) by {
            assert(front[i] == turns[i]);
        }
        lemma_unseen_run(model, front);
        let told = after_message(after_turns(model, front), turns[k].message);
        assert(told.visible.len() == 0);
        assert(forall|w: int| !is_strongest(turns[k].readings, 0, w));
    }
    lemma_unseen_run(model, turns);
}

/// Everything that is published for a device: the record of the actor's
/// creation, then what each of its button sessions publishes, one session after
/// the other. A session is given by the events that it handles.
pub open spec fn lifetime_publications(sessions: Seq<Seq<SessionEvent>>) -> Seq<PresenceRecord>
    decreases sessions.len(),
{
    if sessions.len() == 0 {
        seq![startup_record()]
    } else {
        lifetime_publications(sessions.drop_last()) + published_by(
            session_run(sessions.last()).actions,
        )
    }
}

/// The first publish for a device is retained and reports it as not present, and
/// it comes before every publish that is not retained: whatever its sessions do,
/// nothing after the first publish is retained.
pub proof fn law_first_publish_is_retained(sessions: Seq<Seq<SessionEvent>>)
    ensures
        lifetime_publications(sessions).len() >= 1,
        lifetime_publications(sessions)[0] == (PresenceRecord {
            retained: true,
            is_present: false,
            is_button_clicked: false,
        }),
        forall|i: int|
            1 <= i < lifetime_publications(sessions).len() ==> !(#[trigger] lifetime_publications(
                sessions,
            )[i]).retained,
    decreases sessions.len(),
{
    if sessions.len() > 0 {
        law_first_publish_is_retained(sessions.drop_last());
        law_session_publishes_unretained(sessions.last());
    }
}

} // verus!
