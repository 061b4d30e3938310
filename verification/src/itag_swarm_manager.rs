//! The adapters in use and the devices that they see.
//!
//! Three things are decided here. Whether an adapter that appears is taken into
//! use (`ITagSwarmManager::handle_new_adapter`). Whether a device that an adapter
//! reports is an iTag in range (`poll_adapter`). And which actor stands for a
//! device (`ITagSwarmManager::on_device_discovered`, `on_device_lost`).
//!
//! Admission and polling are state machines: the caller does what a step asks
//! for and hands the outcome back as the next event.

pub mod button_monitor;
pub mod device_actor;
pub mod gatt;

use vstd::prelude::*;
use vstd::string::StringExecFns;
use std::collections::HashMap;
use crate::address::Address;
use crate::config::{adapter_allowed, names_of, Config, ConfigModel};
use crate::text::{
    ascii_uppercase, chars_of, to_ascii_uppercase, trim_bounds, trimmed,
};

verus! {

/// Where the admission of an adapter stands.
#[derive(Clone, Copy, Debug, PartialEq, Eq, Structural)]
pub enum AdmissionState {
    /// The adapter has just appeared.
    Offered,
    /// Waiting for the handle of the adapter.
    Opening,
    /// Waiting for the adapter to be powered on.
    Powering,
    /// Waiting for the address of the adapter.
    Addressing,
    /// Nothing more is to be done for this appearance of the adapter.
    Settled,
}

/// What the admission of an adapter is told.
#[derive(Clone, Copy, Debug, PartialEq, Eq)]
pub enum AdmissionEvent {
    /// The adapter is present at startup or was plugged in.
    Appeared,
    /// Whether the handle of the adapter could be had.
    Opened(bool),
    /// Whether the adapter could be powered on.
    Powered(bool),
    /// The address of the adapter; none where it could not be read.
    Addressed(Option<Address>),
}

/// What the admission of an adapter asks its caller to do.
#[derive(Clone, Copy, Debug, PartialEq, Eq)]
pub enum AdmissionAction {
    /// Get the handle of the adapter; answer with `Opened`.
    Open,
    /// Power the adapter on; answer with `Powered`.
    PowerOn,
    /// Read the address of the adapter; answer with `Addressed`.
    ReadAddress,
    /// Start polling the adapter, which has this address.
    SpawnPoller(Address),
    /// Nothing: this appearance of the adapter is dealt with.
    Dismiss,
}

/// Which kind of device an adapter looks for.
#[derive(Clone, Copy, Debug, PartialEq, Eq, Structural)]
pub enum Transport {
    /// Classic and low-energy devices alike.
    Auto,
    /// Classic devices only.
    BrEdr,
    /// Low-energy devices only.
    Le,
}

/// Where the poller of an adapter stands.
#[derive(Clone, Copy, Debug, PartialEq, Eq)]
pub enum PollState {
    /// Waiting for the discovery filter to be set.
    Filtering,
    /// Waiting for the discovery to begin.
    Opening,
    /// Waiting for the adapter's next event.
    Listening,
    /// Waiting for the handle of a device that the adapter has reported.
    Resolving(Address),
    /// Waiting for the name of that device.
    ReadingName(Address),
    /// Waiting for the signal strength of that device.
    ReadingSignal(Address),
    /// The adapter reports nothing more.
    Stopped,
}

/// What the poller of an adapter is told.
#[derive(Debug)]
pub enum PollEvent<E> {
    /// Whether the discovery filter could be set.
    FilterSet(bool),
    /// Whether the discovery could begin.
    DiscoveryOpened(bool),
    /// The adapter's events have ended.
    StreamEnded,
    /// The adapter reports a device.
    DeviceAdded(Address),
    /// The adapter no longer reports a device.
    DeviceRemoved(Address),
    /// A property of the adapter or of one of its devices changed.
    PropertyChanged,
    /// Whether the handle of the device could be had.
    Resolved(bool),
    /// What reading the name of the device gave.
    NameRead(Result<Option<String>, E>),
    /// What reading the signal strength of the device gave.
    SignalRead(Result<Option<i16>, E>),
}

/// What the poller of an adapter asks its caller to do.
#[derive(Clone, Copy, Debug, PartialEq, Eq)]
pub enum PollAction {
    /// Have the adapter look for devices of this kind only; answer with
    /// `FilterSet`.
    SetFilter(Transport),
    /// Begin the discovery; answer with `DiscoveryOpened`.
    Discover,
    /// Wait for the adapter's next event; answer with `DeviceAdded`,
    /// `DeviceRemoved`, `PropertyChanged` or `StreamEnded`.
    Listen,
    /// Get the handle of the device; answer with `Resolved`.
    Resolve(Address),
    /// Read the name of the device; answer with `NameRead`.
    ReadName(Address),
    /// Read the signal strength of the device; answer with `SignalRead`.
    ReadSignal(Address),
    /// Tell the actor of the device that this adapter sees it, then listen on.
    Discovered(Address),
    /// Tell the actor of the device, if it has one, that this adapter has lost
    /// it, then listen on.
    Lost(Address),
    /// Nothing more: the poller has ended.
    Stop,
}

/// The poller after a step.
pub struct PollStep {
    pub state: PollState,
    pub action: PollAction,
}

/// The admission of an adapter after a step.
pub struct AdmissionStep {
    pub state: AdmissionState,
    pub action: AdmissionAction,
}

/// The configuration, the adapters in use, and the actor of every known device.
pub struct ITagSwarmManager<A> {
    actors: HashMap<u64, A>,
    adapters: Vec<String>,
    config: Config,
}

/// The name of an iTag once it is in upper case and trimmed.
pub open spec fn itag() -> Seq<char> {
    seq!['I', 'T', 'A', 'G']
}

/// Whether a device of this name is an iTag: its name is "ITAG", in any mix of
/// upper and lower case, with any white space around it.
pub open spec fn itag_name(name: Seq<char>) -> bool {
    trimmed(ascii_uppercase(name)) == itag()
}

/// The number under which the registry files an address: its six bytes as one
/// number, most significant first.
pub open spec fn address_key(address: Address) -> u64 {
    (address@[0] as int * 0x100_0000_0000 + address@[1] as int * 0x1_0000_0000 + address@[2] as int
        * 0x100_0000 + address@[3] as int * 0x1_0000 + address@[4] as int * 0x100
        + address@[5] as int) as u64
}

/// What the action is that a poller in this state waits for.
pub open spec fn pending(state: PollState) -> PollAction {
    match state {
        PollState::Filtering => PollAction::SetFilter(Transport::Le),
        PollState::Opening => PollAction::Discover,
        PollState::Stopped => PollAction::Stop,
        PollState::Listening => PollAction::Listen,
        PollState::Resolving(device) => PollAction::Resolve(device),
        PollState::ReadingName(device) => PollAction::ReadName(device),
        PollState::ReadingSignal(device) => PollAction::ReadSignal(device),
    }
}

/// The state in which a poller begins, and the first thing that it asks for:
/// the adapter is to look for low-energy devices only.
pub open spec fn poll_start() -> PollStep {
    PollStep { state: PollState::Filtering, action: PollAction::SetFilter(Transport::Le) }
}

/// What a poller does on an event. The discovery begins whether or not the
/// filter could be set; a poller whose discovery cannot begin, or whose adapter
/// reports nothing more, stops. A device that the adapter reports counts as
/// discovered once its handle can be had, its name is that of an iTag and it
/// reports a signal strength. A device without a name, or with another name, is
/// passed over. Where the handle, the name or the signal strength cannot be had,
/// the device counts as lost, and so does a device that the adapter no longer
/// reports. An event that the state does not wait for changes nothing: the
/// pending action is asked for again.
pub open spec fn poll_step<E>(state: PollState, event: PollEvent<E>) -> PollStep {
    match (state, event) {
        (PollState::Filtering, PollEvent::FilterSet(_)) => PollStep {
            state: PollState::Opening,
            action: PollAction::Discover,
        },
        (PollState::Opening, PollEvent::DiscoveryOpened(true)) => PollStep {
            state: PollState::Listening,
            action: PollAction::Listen,
        },
        (PollState::Opening, PollEvent::DiscoveryOpened(false)) => PollStep {
            state: PollState::Stopped,
            action: PollAction::Stop,
        },
        (PollState::Listening, PollEvent::StreamEnded) => PollStep {
            state: PollState::Stopped,
            action: PollAction::Stop,
        },
        (PollState::Listening, PollEvent::DeviceAdded(device)) => PollStep {
            state: PollState::Resolving(device),
            action: PollAction::Resolve(device),
        },
        (PollState::Listening, PollEvent::DeviceRemoved(device)) => PollStep {
            state: PollState::Listening,
            action: PollAction::Lost(device),
        },
        (PollState::Resolving(device), PollEvent::Resolved(true)) => PollStep {
            state: PollState::ReadingName(device),
            action: PollAction::ReadName(device),
        },
        (PollState::Resolving(device), PollEvent::Resolved(false)) => PollStep {
            state: PollState::Listening,
            action: PollAction::Lost(device),
        },
        (PollState::ReadingName(device), PollEvent::NameRead(Ok(Some(name)))) => if itag_name(
            name@,
        ) {
            PollStep {
                state: PollState::ReadingSignal(device),
                action: PollAction::ReadSignal(device),
            }
        } else {
            PollStep { state: PollState::Listening, action: PollAction::Listen }
        },
        (PollState::ReadingName(device), PollEvent::NameRead(Ok(None))) => PollStep {
            state: PollState::Listening,
            action: PollAction::Listen,
        },
        (PollState::ReadingName(device), PollEvent::NameRead(Err(_))) => PollStep {
            state: PollState::Listening,
            action: PollAction::Lost(device),
        },
        (PollState::ReadingSignal(device), PollEvent::SignalRead(Ok(Some(_)))) => PollStep {
            state: PollState::Listening,
            action: PollAction::Discovered(device),
        },
        (PollState::ReadingSignal(device), PollEvent::SignalRead(_)) => PollStep {
            state: PollState::Listening,
            action: PollAction::Lost(device),
        },
        _ => PollStep { state, action: pending(state) },
    }
}

/// Whether a device of this name is an iTag.
pub fn is_itag_name(name: &str) -> (itag: bool)
    ensures
        itag == itag_name(name@),
{
    let chars = chars_of(name);
    let upper = to_ascii_uppercase(&chars);
    let (begin, end) = trim_bounds(&upper, 0, upper.len());
    assert(upper@.subrange(0, upper@.len() as int) =~= upper@);
    if end - begin != 4 {
        assert(upper@.subrange(begin as int, end as int).len() != itag().len());
        return false;
    }
    let matches = upper[begin] == 'I' && upper[begin + 1] == 'T' && upper[begin + 2] == 'A'
        && upper[begin + 3] == 'G';
    proof {
        let found = upper@.subrange(begin as int, end as int);
        assert(found[0] == upper@[begin as int]);
        assert(found[1] == upper@[begin + 1]);
        assert(found[2] == upper@[begin + 2]);
        assert(found[3] == upper@[begin + 3]);
        if matches {
            assert(found =~= itag());
        }
    }
    matches
}

/// The state in which the poller of an adapter begins, and the first thing that
/// it asks for.
pub fn start_polling() -> (step: (PollState, PollAction))
    ensures
        step.0 == poll_start().state,
        step.1 == poll_start().action,
{
    (PollState::Filtering, PollAction::SetFilter(Transport::Le))
}

/// Takes the poller of an adapter one event further.
pub fn poll_adapter<E>(state: PollState, event: PollEvent<E>) -> (step: (PollState, PollAction))
    ensures
        step.0 == poll_step(state, event).state,
        step.1 == poll_step(state, event).action,
{
    match (state, event) {
        (PollState::Filtering, PollEvent::FilterSet(_)) => (
            PollState::Opening,
            PollAction::Discover,
        ),
        (PollState::Opening, PollEvent::DiscoveryOpened(true)) => (
            PollState::Listening,
            PollAction::Listen,
        ),
        (PollState::Opening, PollEvent::DiscoveryOpened(false)) => (
            PollState::Stopped,
            PollAction::Stop,
        ),
        (PollState::Listening, PollEvent::StreamEnded) => (PollState::Stopped, PollAction::Stop),
        (PollState::Listening, PollEvent::DeviceAdded(device)) => (
            PollState::Resolving(device),
            PollAction::Resolve(device),
        ),
        (PollState::Listening, PollEvent::DeviceRemoved(device)) => (
            PollState::Listening,
            PollAction::Lost(device),
        ),
        (PollState::Resolving(device), PollEvent::Resolved(true)) => (
            PollState::ReadingName(device),
            PollAction::ReadName(device),
        ),
        (PollState::Resolving(device), PollEvent::Resolved(false)) => (
            PollState::Listening,
            PollAction::Lost(device),
        ),
        (PollState::ReadingName(device), PollEvent::NameRead(Ok(Some(name)))) => {
            if is_itag_name(name.as_str()) {
                (PollState::ReadingSignal(device), PollAction::ReadSignal(device))
            } else {
                (PollState::Listening, PollAction::Listen)
            }
        },
        (PollState::ReadingName(_), PollEvent::NameRead(Ok(None))) => (
            PollState::Listening,
            PollAction::Listen,
        ),
        (PollState::ReadingName(device), PollEvent::NameRead(Err(_))) => (
            PollState::Listening,
            PollAction::Lost(device),
        ),
        (PollState::ReadingSignal(device), PollEvent::SignalRead(Ok(Some(_)))) => (
            PollState::Listening,
            PollAction::Discovered(device),
        ),
        (PollState::ReadingSignal(device), PollEvent::SignalRead(_)) => (
            PollState::Listening,
            PollAction::Lost(device),
        ),
        (state, _) => {
            let action = match state {
                PollState::Filtering => PollAction::SetFilter(Transport::Le),
                PollState::Opening => PollAction::Discover,
                PollState::Stopped => PollAction::Stop,
                PollState::Listening => PollAction::Listen,
                PollState::Resolving(device) => PollAction::Resolve(device),
                PollState::ReadingName(device) => PollAction::ReadName(device),
                PollState::ReadingSignal(device) => PollAction::ReadSignal(device),
            };
            (state, action)
        },
    }
}

/// What the admission of an adapter does on an event, for an adapter that the
/// allow-list admits or not and that is in use already or not. An adapter
/// outside the allow-list is dismissed, at whatever step it stands. An adapter
/// whose handle or address cannot be had is dismissed; one that cannot be
/// powered on is taken on all the same. An adapter in use already gets no
/// second poller. An event that the state does not wait for ends the admission.
pub open spec fn admission_step(
    allowed: bool,
    in_use: bool,
    state: AdmissionState,
    event: AdmissionEvent,
) -> AdmissionStep {
    if !allowed {
        AdmissionStep { state: AdmissionState::Settled, action: AdmissionAction::Dismiss }
    } else {
        match (state, event) {
            (AdmissionState::Offered, AdmissionEvent::Appeared) => AdmissionStep {
                state: AdmissionState::Opening,
                action: AdmissionAction::Open,
            },
            (AdmissionState::Opening, AdmissionEvent::Opened(true)) => AdmissionStep {
                state: AdmissionState::Powering,
                action: AdmissionAction::PowerOn,
            },
            (AdmissionState::Powering, AdmissionEvent::Powered(_)) => AdmissionStep {
                state: AdmissionState::Addressing,
                action: AdmissionAction::ReadAddress,
            },
            (AdmissionState::Addressing, AdmissionEvent::Addressed(Some(address))) => if in_use {
                AdmissionStep { state: AdmissionState::Settled, action: AdmissionAction::Dismiss }
            } else {
                AdmissionStep {
                    state: AdmissionState::Settled,
                    action: AdmissionAction::SpawnPoller(address),
                }
            },
            _ => AdmissionStep { state: AdmissionState::Settled, action: AdmissionAction::Dismiss },
        }
    }
}

/// Whether the step takes the adapter into use: it is the step that reads the
/// address of an adapter that the allow-list admits.
pub open spec fn takes_into_use(allowed: bool, state: AdmissionState, event: AdmissionEvent) -> bool {
    allowed && state is Addressing && event matches AdmissionEvent::Addressed(Some(_))
}

/// Two addresses with the same key are the same address.
pub proof fn lemma_key_is_injective(a: Address, b: Address)
    requires
        address_key(a) == address_key(b),
    ensures
        a == b,
{
    let a1 = a@[0] as int * 256 + a@[1] as int;
    let a2 = a1 * 256 + a@[2] as int;
    let a3 = a2 * 256 + a@[3] as int;
    let a4 = a3 * 256 + a@[4] as int;
    let a5 = a4 * 256 + a@[5] as int;
    let b1 = b@[0] as int * 256 + b@[1] as int;
    let b2 = b1 * 256 + b@[2] as int;
    let b3 = b2 * 256 + b@[3] as int;
    let b4 = b3 * 256 + b@[4] as int;
    let b5 = b4 * 256 + b@[5] as int;
    assert(address_key(a) as int == a5);
    assert(address_key(b) as int == b5);
    assert(a4 == b4 && a@[5] == b@[5]);
    assert(a3 == b3 && a@[4] == b@[4]);
    assert(a2 == b2 && a@[3] == b@[3]);
    assert(a1 == b1 && a@[2] == b@[2]);
    assert(a@[0] == b@[0] && a@[1] == b@[1]);
    assert(a@ =~= b@);
    assert(a =~= b);
}

fn key_of(address: &Address) -> (key: u64)
    ensures
        key == address_key(*address),
{
    (address[0] as u64) * 0x100_0000_0000 + (address[1] as u64) * 0x1_0000_0000 + (
    address[2] as u64) * 0x100_0000 + (address[3] as u64) * 0x1_0000 + (address[4] as u64) * 0x100
        + (address[5] as u64)
}

fn position_of(names: &Vec<String>, name: &str) -> (at: Option<usize>)
    ensures
        match at {
            Some(i) => i < names@.len() && names_of(names@)[i as int] == name@,
            None => !names_of(names@).contains(name@),
        },
{
    let wanted = String::from_str(name);
    let mut i: usize = 0;
    while i < names.len()
        invariant
            i <= names.len(),
            wanted@ == name@,
            forall|k: int| 0 <= k < i ==> names_of(names@)[k] != name@,
        decreases names.len() - i,
    {
        if names[i] == wanted {
            assert(names_of(names@)[i as int] == name@);
            return Some(i);
        }
        i += 1;
    }
    None
}

impl<A> ITagSwarmManager<A> {
    /// The names of the adapters in use.
    pub closed spec fn accepted(&self) -> Set<Seq<char>> {
        names_of(self.adapters@).to_set()
    }

    /// The actor that stands for the device of this address.
    pub closed spec fn actor_of(&self, device_address: Address) -> Option<A> {
        if self.actors@.contains_key(address_key(device_address)) {
            Some(self.actors@[address_key(device_address)])
        } else {
            None
        }
    }

    /// The configuration that the manager was made with.
    pub closed spec fn configuration(&self) -> ConfigModel {
        self.config@
    }

    /// The allow-list of the configuration.
    pub open spec fn allow_list(&self) -> Seq<Seq<char>> {
        self.configuration().bt_adapters
    }

    /// No adapter is in use twice, and every adapter in use is one that the
    /// allow-list admits.
    pub closed spec fn wf(&self) -> bool {
        &&& names_of(self.adapters@).no_duplicates()
        &&& forall|i: int|
            0 <= i < self.adapters@.len() ==> adapter_allowed(
                self.config@.bt_adapters,
                #[trigger] names_of(self.adapters@)[i],
            )
    }

    /// Every adapter in use is one that the allow-list admits.
    pub proof fn law_adapters_in_use_are_allowed(&self, adapter_name: Seq<char>)
        requires
            self.wf(),
            self.accepted().contains(adapter_name),
        ensures
            adapter_allowed(self.allow_list(), adapter_name),
    {
        let names = names_of(self.adapters@);
        let i = choose|i: int| 0 <= i < names.len() && names[i] == adapter_name;
        assert(adapter_allowed(self.config@.bt_adapters, names[i]));
    }

    /// A manager with no adapter in use and no device known.
    pub fn new(config: Config) -> (manager: ITagSwarmManager<A>)
        ensures
            manager.wf(),
            manager.accepted() == Set::<Seq<char>>::empty(),
            manager.configuration() == config@,
            forall|device_address: Address| manager.actor_of(device_address) is None,
    {
        let manager = ITagSwarmManager { actors: HashMap::new(), adapters: Vec::new(), config };
        assert(names_of(manager.adapters@) =~= Seq::empty());
        assert(manager.accepted() =~= Set::<Seq<char>>::empty());
        manager
    }

    /// The configuration.
    pub fn config(&self) -> (config: &Config)
        ensures
            config@ == self.configuration(),
    {
        &self.config
    }

    /// How many adapters are in use.
    pub fn adapter_count(&self) -> (count: usize)
        requires
            self.wf(),
        ensures
            count == self.accepted().len(),
    {
        proof {
            names_of(self.adapters@).unique_seq_to_set();
        }
        self.adapters.len()
    }

    /// Whether the adapter of this name is in use.
    pub fn is_in_use(&self, adapter_name: &str) -> (in_use: bool)
        ensures
            in_use == self.accepted().contains(adapter_name@),
    {
        position_of(&self.adapters, adapter_name).is_some()
    }

    /// Takes the admission of the adapter of this name one event further.
    ///
    /// An adapter that the allow-list admits is taken into use in the step that
    /// reads its address, unless it is in use already; only then a poller is
    /// asked for. An adapter that the allow-list does not admit is dismissed in
    /// every step and never taken into use.
    pub fn handle_new_adapter(
        &mut self,
        adapter_name: &str,
        state: AdmissionState,
        event: AdmissionEvent,
    ) -> (step: (AdmissionState, AdmissionAction))
        requires
            old(self).wf(),
        ensures
            final(self).wf(),
            step.0 == admission_step(
                adapter_allowed(old(self).allow_list(), adapter_name@),
                old(self).accepted().contains(adapter_name@),
                state,
                event,
            ).state,
            step.1 == admission_step(
                adapter_allowed(old(self).allow_list(), adapter_name@),
                old(self).accepted().contains(adapter_name@),
                state,
                event,
            ).action,
            final(self).accepted() == (if takes_into_use(
                adapter_allowed(old(self).allow_list(), adapter_name@),
                state,
                event,
            ) {
                old(self).accepted().insert(adapter_name@)
            } else {
                old(self).accepted()
            }),
            final(self).configuration() == old(self).configuration(),
            forall|device_address: Address|
                final(self).actor_of(device_address) == old(self).actor_of(device_address),
    {
        if !self.config.is_adapter_allowed(adapter_name) {
            return (AdmissionState::Settled, AdmissionAction::Dismiss);
        }
        match (state, event) {
            (AdmissionState::Offered, AdmissionEvent::Appeared) => (
                AdmissionState::Opening,
                AdmissionAction::Open,
            ),
            (AdmissionState::Opening, AdmissionEvent::Opened(true)) => (
                AdmissionState::Powering,
                AdmissionAction::PowerOn,
            ),
            (AdmissionState::Powering, AdmissionEvent::Powered(_)) => (
                AdmissionState::Addressing,
                AdmissionAction::ReadAddress,
            ),
            (AdmissionState::Addressing, AdmissionEvent::Addressed(Some(address))) => {
                match position_of(&self.adapters, adapter_name) {
                    Some(at) => {
                        proof {
                            let names = names_of(self.adapters@);
                            assert(names.contains(names[at as int]));
                            assert(self.accepted().insert(adapter_name@) =~= self.accepted());
                        }
                        (AdmissionState::Settled, AdmissionAction::Dismiss)
                    },
                    None => {
                        let name = String::from_str(adapter_name);
                        let ghost before = names_of(self.adapters@);
                        self.adapters.push(name);
                        proof {
                            let after = names_of(self.adapters@);
                            assert(after =~= before.push(adapter_name@));
                            assert forall|i: int, j: int|
                                0 <= i < after.len() && 0 <= j < after.len() && i != j implies after[i]
                                != after[j] by {
                                if i < before.len() && j < before.len() {
                                    assert(before[i] != before[j]);
                                } else if i < before.len() {
                                    assert(before.contains(before[i]));
                                } else {
                                    assert(before.contains(before[j]));
                                }
                            }
                            assert(after.to_set() =~= before.to_set().insert(adapter_name@)) by {
                                assert forall|n: Seq<char>|
                                    after.to_set().contains(n) <==> before.to_set().insert(
                                        adapter_name@,
                                    ).contains(n) by {
                                    if after.contains(n) {
                                        let i = choose|i: int| 0 <= i < after.len() && after[i] == n;
                                        if i < before.len() {
                                            assert(before[i] == n);
                                            assert(before.contains(n));
                                        }
                                    }
                                    if before.contains(n) {
                                        let i = choose|i: int|
                                            0 <= i < before.len() && before[i] == n;
                                        assert(after[i] == n);
                                    }
                                    if n == adapter_name@ {
                                        assert(after[before.len() as int] == n);
                                    }
                                }
                            }
                        }
                        (AdmissionState::Settled, AdmissionAction::SpawnPoller(address))
                    },
                }
            },
            _ => (AdmissionState::Settled, AdmissionAction::Dismiss),
        }
    }

    /// Takes the adapter of this name out of use.
    pub fn handle_remove_adapter(&mut self, adapter_name: &str)
        requires
            old(self).wf(),
        ensures
            final(self).wf(),
            final(self).accepted() == old(self).accepted().remove(adapter_name@),
            final(self).configuration() == old(self).configuration(),
            forall|device_address: Address|
                final(self).actor_of(device_address) == old(self).actor_of(device_address),
    {
        match position_of(&self.adapters, adapter_name) {
            Some(at) => {
                let ghost before = names_of(self.adapters@);
                self.adapters.remove(at);
                proof {
                    let after = names_of(self.adapters@);
                    assert(after =~= before.remove(at as int));
                    assert forall|i: int, j: int|
                        0 <= i < after.len() && 0 <= j < after.len() && i != j implies after[i]
                        != after[j] by {
                        let oi = if i < at {
                            i
                        } else {
                            i + 1
                        };
                        let oj = if j < at {
                            j
                        } else {
                            j + 1
                        };
                        assert(before[oi] != before[oj]);
                    }
                    assert forall|n: Seq<char>|
                        after.to_set().contains(n) <==> before.to_set().remove(
                            adapter_name@,
                        ).contains(n) by {
                        if after.contains(n) {
                            let i = choose|i: int| 0 <= i < after.len() && after[i] == n;
                            let oi = if i < at {
                                i
                            } else {
                                i + 1
                            };
                            assert(before[oi] == n);
                            assert(before.contains(n));
                            assert(before[oi] != before[at as int]);
                        }
                        if before.contains(n) && n != adapter_name@ {
                            let i = choose|i: int| 0 <= i < before.len() && before[i] == n;
                            let ni = if i < at {
                                i
                            } else {
                                i - 1
                            };
                            assert(after[ni] == n);
                        }
                    }
                    assert(after.to_set() =~= before.to_set().remove(adapter_name@));
                }
            },
            None => {
                assert(self.accepted().remove(adapter_name@) =~= self.accepted());
            },
        }
    }

    /// The actor of a device that an adapter has discovered: the one that stands
    /// for the device already, or else the one that `create` makes, which stands
    /// for the device from then on. No other device gets another actor by this.
    pub fn on_device_discovered<F: FnOnce() -> A>(
        &mut self,
        device_address: &Address,
        create: F,
    ) -> (actor: &A)
        requires
            old(self).wf(),
            create.requires(()),
        ensures
            final(self).wf(),
            final(self).accepted() == old(self).accepted(),
            final(self).configuration() == old(self).configuration(),
            final(self).actor_of(*device_address) == Some(*actor),
            match old(self).actor_of(*device_address) {
                Some(known) => *actor == known,
                None => create.ensures((), *actor),
            },
            forall|other: Address|
                other != *device_address ==> final(self).actor_of(other) == old(self).actor_of(
                    other,
                ),
    {
        let key = key_of(device_address);
        if !self.actors.contains_key(&key) {
            let actor = create();
            self.actors.insert(key, actor);
        }
        proof {
            assert forall|other: Address| other != *device_address implies self.actor_of(other)
                == old(self).actor_of(other) by {
                if address_key(other) == address_key(*device_address) {
                    lemma_key_is_injective(other, *device_address);
                }
            }
        }
        self.actors.get(&key).unwrap()
    }

    /// The actor of a device that an adapter has lost; none where the device was
    /// never discovered.
    pub fn on_device_lost(&self, device_address: &Address) -> (actor: Option<&A>)
        ensures
            match actor {
                Some(known) => self.actor_of(*device_address) == Some(*known),
                None => self.actor_of(*device_address) is None,
            },
    {
        let key = key_of(device_address);
        self.actors.get(&key)
    }
}

/// An adapter outside the allow-list is dismissed in whatever state its
/// admission stands, and is never taken into use. An adapter in use already
/// never gets a second poller. A poller is asked for only in the step that
/// takes the adapter into use.
pub proof fn law_adapter_is_admitted_once(
    allowed: bool,
    in_use: bool,
    state: AdmissionState,
    event: AdmissionEvent,
)
    ensures
        !allowed ==> admission_step(allowed, in_use, state, event).state is Settled
            && admission_step(allowed, in_use, state, event).action is Dismiss
            && !takes_into_use(allowed, state, event),
        in_use ==> !(admission_step(allowed, in_use, state, event).action is SpawnPoller),
        admission_step(allowed, in_use, state, event).action is SpawnPoller ==> takes_into_use(
            allowed,
            state,
            event,
        ),
{
}

/// Whether the event is a name that was read and is the name of an iTag.
pub open spec fn names_an_itag<E>(event: PollEvent<E>) -> bool {
    match event {
        PollEvent::NameRead(Ok(Some(name))) => itag_name(name@),
        _ => false,
    }
}

/// Whether the event is a signal strength that was read.
pub open spec fn reports_a_signal<E>(event: PollEvent<E>) -> bool {
    match event {
        PollEvent::SignalRead(Ok(Some(_))) => true,
        _ => false,
    }
}

/// A poller reports a device as discovered only in the step that reads a signal
/// strength for it, and it asks for the signal strength of a device only once
/// it has read a name for it that is the name of an iTag. A device that the
/// adapter no longer reports is reported as lost whatever else is known of it.
pub proof fn law_discovery_needs_name_and_signal<E>(
    state: PollState,
    event: PollEvent<E>,
    device: Address,
)
    ensures
        poll_step(state, event).action == PollAction::Discovered(device) ==> state
            == PollState::ReadingSignal(device) && reports_a_signal(event),
        poll_step(state, event).state == PollState::ReadingSignal(device) ==> state
            == PollState::ReadingSignal(device) || (state == PollState::ReadingName(device)
            && names_an_itag(event)),
        state is Listening && event == PollEvent::<E>::DeviceRemoved(device) ==> poll_step(
            state,
            event,
        ).action == PollAction::Lost(device),
{
}

} // verus!
