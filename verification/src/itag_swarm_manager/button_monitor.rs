//! The button session: one connection to one device, from the attempt to connect
//! until the connection is gone.
//!
//! The session is a state machine. The caller performs each action that a step
//! asks for, in order, and hands the outcome of the last one back as the next
//! event. `SessionAction::ReportExit` ends the session: the caller then delivers
//! `DeviceMessage::ButtonMonitorExit` to the actor that owns the device.

use vstd::prelude::*;
use crate::mqtt_client::PresenceRecord;

verus! {

/// How long a connection attempt may take before it is given up.
pub const CONNECT_TIMEOUT_MS: u64 = 5000;

/// Why a session ended without having monitored the button.
#[derive(Clone, Copy, Debug, PartialEq, Eq, Structural)]
pub enum SessionError {
    /// Whether the device is connected could not be read.
    ConnectionUnknown,
    /// The connection attempt failed.
    ConnectFailed,
    /// The connection attempt took longer than `CONNECT_TIMEOUT_MS`.
    ConnectionTimeout,
    /// Disconnecting after a failed connection attempt failed as well.
    DisconnectFailed,
    /// The device's property changes cannot be followed.
    NoEventStream,
    /// The device offers no button notifications.
    NoButtonStream,
}

/// How a session ended.
#[derive(Clone, Copy, Debug, PartialEq, Eq, Structural)]
pub enum SessionEnd {
    /// The button was monitored until the connection closed.
    Completed,
    Failed(SessionError),
}

/// Where a session stands.
#[derive(Clone, Copy, Debug, PartialEq, Eq, Structural)]
pub enum SessionState {
    /// Nothing has happened yet.
    Created,
    /// Waiting to learn whether the device is connected already.
    CheckingConnection,
    /// Waiting for the connection attempt.
    Connecting,
    /// Waiting for the disconnect that follows a failed connection attempt.
    Disconnecting(SessionError),
    /// Waiting for the stream of property changes.
    OpeningEvents,
    /// Waiting for the stream of button notifications.
    OpeningButtonStream,
    /// Waiting for the write that silences the device's alert.
    SilencingAlert,
    /// Connected: waiting for button notifications and for the connection to close.
    Monitoring,
    Finished(SessionEnd),
}

/// What a session is told.
#[derive(Clone, Copy, Debug, PartialEq, Eq, Structural)]
pub enum SessionEvent {
    /// The session has been spawned.
    Started,
    /// Whether the device is connected; none where that could not be read.
    ConnectionChecked(Option<bool>),
    Connected,
    ConnectFailed,
    /// The connection attempt did not end within the timeout.
    ConnectTimedOut,
    /// The disconnect has ended; whether it succeeded.
    Disconnected(bool),
    /// Whether the stream of property changes could be opened.
    EventsOpened(bool),
    /// Whether the button characteristic was found and its notifications began.
    ButtonStreamOpened(bool),
    /// The attempt to silence the alert has ended; whether it succeeded.
    AlertSilenced(bool),
    /// A property of the device changed.
    PropertyChanged,
    /// The stream of property changes ended.
    PropertyStreamEnded,
    /// The button sent a notification.
    ButtonPressed,
    /// The stream of button notifications ended.
    ButtonStreamEnded,
}

/// What a session asks its caller to do.
#[derive(Clone, Copy, Debug, PartialEq, Eq, Structural)]
pub enum SessionAction {
    /// Read whether the device is connected; answer with `ConnectionChecked`.
    CheckConnection,
    /// Connect, giving up after the timeout; answer with `Connected`,
    /// `ConnectFailed` or `ConnectTimedOut`.
    Connect { timeout_ms: u64 },
    /// Disconnect; answer with `Disconnected`.
    Disconnect,
    /// Open the stream of property changes; answer with `EventsOpened`.
    OpenEvents,
    /// Find the button characteristic and subscribe to it; answer with
    /// `ButtonStreamOpened`.
    OpenButtonStream,
    /// Write the alert level that silences the device; answer with `AlertSilenced`.
    SilenceAlert,
    /// Publish the record for the device. Needs no answer.
    Publish(PresenceRecord),
    /// Wait for whichever stream yields first; answer with `PropertyChanged`,
    /// `PropertyStreamEnded`, `ButtonPressed` or `ButtonStreamEnded`.
    AwaitStreams,
    /// Tell the owning actor that the session has ended.
    ReportExit(SessionEnd),
}

/// The state and the actions of a session after one or more events.
pub struct SessionRun {
    pub state: SessionState,
    pub actions: Seq<SessionAction>,
}

/// The record that reports the device as connected.
pub open spec fn present_record() -> PresenceRecord {
    PresenceRecord { retained: false, is_present: true, is_button_clicked: false }
}

/// The record that reports the button as pressed.
pub open spec fn click_record() -> PresenceRecord {
    PresenceRecord { retained: false, is_present: true, is_button_clicked: true }
}

/// The record that reports the device as gone.
pub open spec fn absent_record() -> PresenceRecord {
    PresenceRecord { retained: false, is_present: false, is_button_clicked: false }
}

/// The run that ends the session at once.
pub open spec fn finish(end: SessionEnd) -> SessionRun {
    SessionRun { state: SessionState::Finished(end), actions: seq![SessionAction::ReportExit(end)] }
}

/// The run that waits on with one action.
pub open spec fn proceed(state: SessionState, action: SessionAction) -> SessionRun {
    SessionRun { state, actions: seq![action] }
}

/// What a session does on an event: its next state and the actions it asks for,
/// in order. An event that the state does not wait for changes nothing.
pub open spec fn session_step(state: SessionState, event: SessionEvent) -> SessionRun {
    match (state, event) {
        (SessionState::Created, SessionEvent::Started) => proceed(
            SessionState::CheckingConnection,
            SessionAction::CheckConnection,
        ),
        (SessionState::CheckingConnection, SessionEvent::ConnectionChecked(Some(true))) => proceed(
            SessionState::OpeningEvents,
            SessionAction::OpenEvents,
        ),
        (SessionState::CheckingConnection, SessionEvent::ConnectionChecked(Some(false))) => proceed(
            SessionState::Connecting,
            SessionAction::Connect { timeout_ms: CONNECT_TIMEOUT_MS },
        ),
        (SessionState::CheckingConnection, SessionEvent::ConnectionChecked(None)) => finish(
            SessionEnd::Failed(SessionError::ConnectionUnknown),
        ),
        (SessionState::Connecting, SessionEvent::Connected) => proceed(
            SessionState::OpeningEvents,
            SessionAction::OpenEvents,
        ),
        (SessionState::Connecting, SessionEvent::ConnectFailed) => proceed(
            SessionState::Disconnecting(SessionError::ConnectFailed),
            SessionAction::Disconnect,
        ),
        (SessionState::Connecting, SessionEvent::ConnectTimedOut) => proceed(
            SessionState::Disconnecting(SessionError::ConnectionTimeout),
            SessionAction::Disconnect,
        ),
        (SessionState::Disconnecting(why), SessionEvent::Disconnected(true)) => finish(
            SessionEnd::Failed(why),
        ),
        (SessionState::Disconnecting(_), SessionEvent::Disconnected(false)) => finish(
            SessionEnd::Failed(SessionError::DisconnectFailed),
        ),
        (SessionState::OpeningEvents, SessionEvent::EventsOpened(true)) => proceed(
            SessionState::OpeningButtonStream,
            SessionAction::OpenButtonStream,
        ),
        (SessionState::OpeningEvents, SessionEvent::EventsOpened(false)) => finish(
            SessionEnd::Failed(SessionError::NoEventStream),
        ),
        (SessionState::OpeningButtonStream, SessionEvent::ButtonStreamOpened(true)) => proceed(
            SessionState::SilencingAlert,
            SessionAction::SilenceAlert,
        ),
        (SessionState::OpeningButtonStream, SessionEvent::ButtonStreamOpened(false)) => finish(
            SessionEnd::Failed(SessionError::NoButtonStream),
        ),
        (SessionState::SilencingAlert, SessionEvent::AlertSilenced(_)) => SessionRun {
            state: SessionState::Monitoring,
            actions: seq![SessionAction::Publish(present_record()), SessionAction::AwaitStreams],
        },
        (SessionState::Monitoring, SessionEvent::PropertyChanged) => proceed(
            SessionState::Monitoring,
            SessionAction::AwaitStreams,
        ),
        (SessionState::Monitoring, SessionEvent::ButtonPressed) => SessionRun {
            state: SessionState::Monitoring,
            actions: seq![
                SessionAction::Publish(click_record()),
                SessionAction::Publish(present_record()),
                SessionAction::AwaitStreams,
            ],
        },
        (SessionState::Monitoring, SessionEvent::PropertyStreamEnded) => SessionRun {
            state: SessionState::Finished(SessionEnd::Completed),
            actions: seq![
                SessionAction::Publish(absent_record()),
                SessionAction::ReportExit(SessionEnd::Completed),
            ],
        },
        (SessionState::Monitoring, SessionEvent::ButtonStreamEnded) => SessionRun {
            state: SessionState::Finished(SessionEnd::Completed),
            actions: seq![
                SessionAction::Publish(absent_record()),
                SessionAction::ReportExit(SessionEnd::Completed),
            ],
        },
        _ => SessionRun { state, actions: Seq::empty() },
    }
}

/// The state of a session after a run of events, and all the actions it asked
/// for on the way.
pub open spec fn session_run(events: Seq<SessionEvent>) -> SessionRun
    decreases events.len(),
{
    if events.len() == 0 {
        SessionRun { state: SessionState::Created, actions: Seq::empty() }
    } else {
        let before = session_run(events.drop_last());
        let step = session_step(before.state, events.last());
        SessionRun { state: step.state, actions: before.actions + step.actions }
    }
}

/// How many of the actions report the end of the session.
pub open spec fn exits_in(actions: Seq<SessionAction>) -> nat
    decreases actions.len(),
{
    if actions.len() == 0 {
        0
    } else {
        exits_in(actions.drop_last()) + (if actions.last() is ReportExit {
            1nat
        } else {
            0nat
        })
    }
}

/// The records that the actions publish, in order.
pub open spec fn published_by(actions: Seq<SessionAction>) -> Seq<PresenceRecord>
    decreases actions.len(),
{
    if actions.len() == 0 {
        Seq::empty()
    } else {
        match actions.last() {
            SessionAction::Publish(record) => published_by(actions.drop_last()).push(record),
            _ => published_by(actions.drop_last()),
        }
    }
}

fn answer(state: SessionState, action: SessionAction) -> (run: (SessionState, Vec<SessionAction>))
    ensures
        run.0 == state,
        run.1@ == seq![action],
{
    let mut actions = Vec::new();
    actions.push(action);
    assert(actions@ =~= seq![action]);
    (state, actions)
}

fn end_session(end: SessionEnd) -> (run: (SessionState, Vec<SessionAction>))
    ensures
        run.0 == finish(end).state,
        run.1@ == finish(end).actions,
{
    answer(SessionState::Finished(end), SessionAction::ReportExit(end))
}

/// Takes a button session one event further: returns the next state and the
/// actions that the caller is to perform, in order.
pub fn monitor_itag_button(state: SessionState, event: SessionEvent) -> (run: (
    SessionState,
    Vec<SessionAction>,
))
    ensures
        run.0 == session_step(state, event).state,
        run.1@ == session_step(state, event).actions,
{
    let present = PresenceRecord { retained: false, is_present: true, is_button_clicked: false };
    match (state, event) {
        (SessionState::Created, SessionEvent::Started) => answer(
            SessionState::CheckingConnection,
            SessionAction::CheckConnection,
        ),
        (SessionState::CheckingConnection, SessionEvent::ConnectionChecked(Some(true))) => answer(
            SessionState::OpeningEvents,
            SessionAction::OpenEvents,
        ),
        (SessionState::CheckingConnection, SessionEvent::ConnectionChecked(Some(false))) => answer(
            SessionState::Connecting,
            SessionAction::Connect { timeout_ms: CONNECT_TIMEOUT_MS },
        ),
        (SessionState::CheckingConnection, SessionEvent::ConnectionChecked(None)) => end_session(
            SessionEnd::Failed(SessionError::ConnectionUnknown),
        ),
        (SessionState::Connecting, SessionEvent::Connected) => answer(
            SessionState::OpeningEvents,
            SessionAction::OpenEvents,
        ),
        (SessionState::Connecting, SessionEvent::ConnectFailed) => answer(
            SessionState::Disconnecting(SessionError::ConnectFailed),
            SessionAction::Disconnect,
        ),
        (SessionState::Connecting, SessionEvent::ConnectTimedOut) => answer(
            SessionState::Disconnecting(SessionError::ConnectionTimeout),
            SessionAction::Disconnect,
        ),
        (SessionState::Disconnecting(why), SessionEvent::Disconnected(true)) => end_session(
            SessionEnd::Failed(why),
        ),
        (SessionState::Disconnecting(_), SessionEvent::Disconnected(false)) => end_session(
            SessionEnd::Failed(SessionError::DisconnectFailed),
        ),
        (SessionState::OpeningEvents, SessionEvent::EventsOpened(true)) => answer(
            SessionState::OpeningButtonStream,
            SessionAction::OpenButtonStream,
        ),
        (SessionState::OpeningEvents, SessionEvent::EventsOpened(false)) => end_session(
            SessionEnd::Failed(SessionError::NoEventStream),
        ),
        (SessionState::OpeningButtonStream, SessionEvent::ButtonStreamOpened(true)) => answer(
            SessionState::SilencingAlert,
            SessionAction::SilenceAlert,
        ),
        (SessionState::OpeningButtonStream, SessionEvent::ButtonStreamOpened(false)) => end_session(
            SessionEnd::Failed(SessionError::NoButtonStream),
        ),
        (SessionState::SilencingAlert, SessionEvent::AlertSilenced(_)) => {
            let mut actions = Vec::new();
            actions.push(SessionAction::Publish(present));
            actions.push(SessionAction::AwaitStreams);
            assert(actions@ =~= session_step(state, event).actions);
            (SessionState::Monitoring, actions)
        },
        (SessionState::Monitoring, SessionEvent::PropertyChanged) => answer(
            SessionState::Monitoring,
            SessionAction::AwaitStreams,
        ),
        (SessionState::Monitoring, SessionEvent::ButtonPressed) => {
            let click = PresenceRecord {
                retained: false,
                is_present: true,
                is_button_clicked: true,
            };
            let mut actions = Vec::new();
            actions.push(SessionAction::Publish(click));
            actions.push(SessionAction::Publish(present));
            actions.push(SessionAction::AwaitStreams);
            assert(actions@ =~= session_step(state, event).actions);
            (SessionState::Monitoring, actions)
        },
        (SessionState::Monitoring, SessionEvent::PropertyStreamEnded)
        | (SessionState::Monitoring, SessionEvent::ButtonStreamEnded) => {
            let absent = PresenceRecord {
                retained: false,
                is_present: false,
                is_button_clicked: false,
            };
            let mut actions = Vec::new();
            actions.push(SessionAction::Publish(absent));
            actions.push(SessionAction::ReportExit(SessionEnd::Completed));
            assert(actions@ =~= session_step(state, event).actions);
            (SessionState::Finished(SessionEnd::Completed), actions)
        },
        _ => {
            let actions = Vec::new();
            assert(actions@ =~= session_step(state, event).actions);
            (state, actions)
        },
    }
}

/// Whether the session has ended.
pub fn is_finished(state: SessionState) -> (finished: bool)
    ensures
        finished == (state is Finished),
{
    match state {
        SessionState::Finished(_) => true,
        _ => false,
    }
}

proof fn lemma_exits_add(a: Seq<SessionAction>, b: Seq<SessionAction>)
    ensures
        exits_in(a + b) == exits_in(a) + exits_in(b),
    decreases b.len(),
{
    if b.len() == 0 {
        assert(a + b =~= a);
    } else {
        assert((a + b).drop_last() =~= a + b.drop_last());
        assert((a + b).last() == b.last());
        lemma_exits_add(a, b.drop_last());
    }
}

/// What a sequence of actions publishes is what its parts publish, one after the
/// other.
pub proof fn lemma_published_add(a: Seq<SessionAction>, b: Seq<SessionAction>)
    ensures
        published_by(a + b) == published_by(a) + published_by(b),
    decreases b.len(),
{
    if b.len() == 0 {
        assert(a + b =~= a);
        assert(published_by(a) + published_by(b) =~= published_by(a));
    } else {
        assert((a + b).drop_last() =~= a + b.drop_last());
        assert((a + b).last() == b.last());
        lemma_published_add(a, b.drop_last());
        assert(published_by(a + b) =~= published_by(a) + published_by(b));
    }
}

proof fn lemma_step_exits(state: SessionState, event: SessionEvent)
    ensures
        state is Finished ==> session_step(state, event).state == state && session_step(
            state,
            event,
        ).actions.len() == 0,
        !(state is Finished) ==> exits_in(session_step(state, event).actions) == (if session_step(
            state,
            event,
        ).state is Finished {
            1nat
        } else {
            0nat
        }),
{
    reveal_with_fuel(exits_in, 4);
    let actions = session_step(state, event).actions;
    if actions.len() == 1 {
        assert(actions.drop_last() =~= Seq::empty());
    } else if actions.len() == 2 {
        assert(actions.drop_last().drop_last() =~= Seq::empty());
    } else if actions.len() == 3 {
        assert(actions.drop_last().drop_last().drop_last() =~= Seq::empty());
    }
}

proof fn lemma_step_publishes(state: SessionState, event: SessionEvent)
    ensures
        published_by(session_step(state, event).actions) == (match (state, event) {
            (SessionState::SilencingAlert, SessionEvent::AlertSilenced(_)) => seq![
                present_record(),
            ],
            (SessionState::Monitoring, SessionEvent::ButtonPressed) => seq![
                click_record(),
                present_record(),
            ],
            (SessionState::Monitoring, SessionEvent::PropertyStreamEnded) => seq![absent_record()],
            (SessionState::Monitoring, SessionEvent::ButtonStreamEnded) => seq![absent_record()],
            _ => Seq::empty(),
        }),
{
    reveal_with_fuel(published_by, 4);
    let actions = session_step(state, event).actions;
    if actions.len() == 1 {
        assert(actions.drop_last() =~= Seq::empty());
    } else if actions.len() == 2 {
        assert(actions.drop_last() =~= seq![actions[0]]);
        assert(actions.drop_last().drop_last() =~= Seq::empty());
    } else if actions.len() == 3 {
        assert(actions.drop_last() =~= seq![actions[0], actions[1]]);
        assert(actions.drop_last().drop_last() =~= seq![actions[0]]);
        assert(actions.drop_last().drop_last().drop_last() =~= Seq::empty());
    }
    assert(published_by(actions) =~= (match (state, event) {
        (SessionState::SilencingAlert, SessionEvent::AlertSilenced(_)) => seq![present_record()],
        (SessionState::Monitoring, SessionEvent::ButtonPressed) => seq![
            click_record(),
            present_record(),
        ],
        (SessionState::Monitoring, SessionEvent::PropertyStreamEnded) => seq![absent_record()],
        (SessionState::Monitoring, SessionEvent::ButtonStreamEnded) => seq![absent_record()],
        _ => Seq::empty(),
    }));
}

/// Each button notification that reaches a monitoring session yields exactly two
/// publishes, in this order: the button pressed, then the button released. Both
/// report the device as present and neither is retained. In any other state a
/// notification publishes nothing.
pub proof fn law_button_press_is_a_pulse(state: SessionState)
    ensures
        state is Monitoring ==> published_by(
            session_step(state, SessionEvent::ButtonPressed).actions,
        ) == seq![
            PresenceRecord { retained: false, is_present: true, is_button_clicked: true },
            PresenceRecord { retained: false, is_present: true, is_button_clicked: false },
        ],
        state is Monitoring ==> session_step(state, SessionEvent::ButtonPressed).state
            is Monitoring,
        !(state is Monitoring) ==> published_by(
            session_step(state, SessionEvent::ButtonPressed).actions,
        ) == Seq::<PresenceRecord>::empty(),
{
    lemma_step_publishes(state, SessionEvent::ButtonPressed);
}

/// A connection attempt that exceeds the timeout aborts the session: the attempt
/// is made with a timeout of five seconds; when it runs out, the session asks
/// for a disconnect and for nothing else; and however the disconnect ends, the
/// session then reports its exit, as failed, without having published anything.
pub proof fn law_connect_timeout_aborts(disconnected: bool)
    ensures
        session_step(
            SessionState::CheckingConnection,
            SessionEvent::ConnectionChecked(Some(false)),
        ) == proceed(SessionState::Connecting, SessionAction::Connect { timeout_ms: 5000 }),
        session_step(SessionState::Connecting, SessionEvent::ConnectTimedOut) == proceed(
            SessionState::Disconnecting(SessionError::ConnectionTimeout),
            SessionAction::Disconnect,
        ),
        session_step(
            SessionState::Disconnecting(SessionError::ConnectionTimeout),
            SessionEvent::Disconnected(disconnected),
        ).state is Finished,
        session_step(
            SessionState::Disconnecting(SessionError::ConnectionTimeout),
            SessionEvent::Disconnected(disconnected),
        ).actions == seq![
            SessionAction::ReportExit(
                SessionEnd::Failed(
                    if disconnected {
                        SessionError::ConnectionTimeout
                    } else {
                        SessionError::DisconnectFailed
                    },
                ),
            ),
        ],
{
}

/// A session reports its exit exactly once, in the step that ends it: over any
/// run of events the exit has been reported once if the session has finished and
/// not at all otherwise. A finished session asks for nothing more.
pub proof fn law_exit_is_reported_once(events: Seq<SessionEvent>)
    ensures
        exits_in(session_run(events).actions) == (if session_run(events).state is Finished {
            1nat
        } else {
            0nat
        }),
        forall|event: SessionEvent|
            session_run(events).state is Finished ==> (#[trigger] session_step(
                session_run(events).state,
                event,
            )).actions.len() == 0 && session_step(session_run(events).state, event).state
                == session_run(events).state,
    decreases events.len(),
{
    if events.len() > 0 {
        law_exit_is_reported_once(events.drop_last());
        let before = session_run(events.drop_last());
        let step = session_step(before.state, events.last());
        lemma_step_exits(before.state, events.last());
        lemma_exits_add(before.actions, step.actions);
        if before.state is Finished {
            assert(before.actions + step.actions =~= before.actions);
        }
    }
    assert forall|event: SessionEvent| session_run(events).state is Finished implies (
    #[trigger] session_step(session_run(events).state, event)).actions.len() == 0
        && session_step(session_run(events).state, event).state == session_run(events).state by {
        lemma_step_exits(session_run(events).state, event);
    }
}

/// Nothing that a session publishes is retained.
pub proof fn law_session_publishes_unretained(events: Seq<SessionEvent>)
    ensures
        forall|i: int|
            0 <= i < published_by(session_run(events).actions).len() ==> !(#[trigger] published_by(
                session_run(events).actions,
            )[i]).retained,
    decreases events.len(),
{
    if events.len() > 0 {
        law_session_publishes_unretained(events.drop_last());
        let before = session_run(events.drop_last());
        let step = session_step(before.state, events.last());
        lemma_step_publishes(before.state, events.last());
        lemma_published_add(before.actions, step.actions);
    }
}

} // verus!
