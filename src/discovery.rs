//! Client side: the decisions of the discovery and matching engine. The caller
//! consumes the radio's device events and performs the device queries; the
//! engine decides, one event at a time, what to ask next, when to retry
//! pairing or connecting, when to give a device up, and when to bind.
use vstd::prelude::*;
use crate::descriptor::{
    attribute_match, distinct, position, same_members, lemma_match_iff_same_members,
    ApplicationDescriptor, Rejection,
};
use crate::text::text_equals;

verus! {

/// Pairing attempts made on one device before it is given up.
pub const MAX_PAIR_ATTEMPTS: u8 = 5;

/// Connect attempts made on one device before it is given up.
pub const MAX_CONNECT_ATTEMPTS: u8 = 2;

/// Where the engine stands with the current device.
#[derive(Clone, Copy, Debug, PartialEq, Eq, Structural)]
pub enum Phase {
    /// Waiting for the next discovery event.
    AwaitingDevice,
    /// Reading the new device's alias and pairing state.
    Inspecting,
    /// Pairing attempt number `attempt` is under way.
    Pairing { attempt: u8 },
    /// Reading the service identifiers the device advertises.
    ReadingAdvertised,
    /// Asking whether the device is connected.
    CheckingConnection,
    /// Connect attempt number `attempt` is under way.
    Connecting { attempt: u8 },
    /// Listing the identifiers of the device's services.
    ListingServices,
    /// Listing the attribute identifiers of the service at this index.
    ListingAttributes { service: usize },
    /// Giving the device up (best-effort disconnect).
    Releasing { reason: Rejection },
    /// A device matched; its attributes are bound.
    Bound,
    /// Discovery ended without a match.
    Finished,
}

/// What the caller does next.
#[derive(Clone, Copy, Debug, PartialEq, Eq, Structural)]
pub enum DiscoveryAction {
    /// Wait for the next discovery event.
    NextEvent,
    /// Read the device's alias and whether it is paired.
    Inspect,
    /// Try to pair (this is attempt number `attempt`).
    Pair { attempt: u8 },
    /// Read the advertised service identifiers.
    ReadAdvertised,
    /// Ask whether the device is connected.
    CheckConnected,
    /// Try to connect (this is attempt number `attempt`).
    Connect { attempt: u8 },
    /// List the device's service identifiers.
    ListServices,
    /// List the attribute identifiers of the service at this index.
    ListAttributes { service: usize },
    /// Disconnect the device, best effort; after a failure (see
    /// [`crate::descriptor::is_failure`]) also forget it. Then report
    /// `Released`.
    Release { reason: Rejection },
    /// Bind the attributes given by [`DiscoveryEngine::bound_slots`] and stop
    /// discovery.
    Bind,
    /// Stop discovery: nothing matched.
    StopDiscovery,
}

/// The action that goes with a phase.
pub open spec fn pending(p: Phase) -> DiscoveryAction {
    match p {
        Phase::AwaitingDevice => DiscoveryAction::NextEvent,
        Phase::Inspecting => DiscoveryAction::Inspect,
        Phase::Pairing { attempt } => DiscoveryAction::Pair { attempt },
        Phase::ReadingAdvertised => DiscoveryAction::ReadAdvertised,
        Phase::CheckingConnection => DiscoveryAction::CheckConnected,
        Phase::Connecting { attempt } => DiscoveryAction::Connect { attempt },
        Phase::ListingServices => DiscoveryAction::ListServices,
        Phase::ListingAttributes { service } => DiscoveryAction::ListAttributes { service },
        Phase::Releasing { reason } => DiscoveryAction::Release { reason },
        Phase::Bound => DiscoveryAction::Bind,
        Phase::Finished => DiscoveryAction::StopDiscovery,
    }
}

/// What the caller observed.
pub enum DiscoveryEvent {
    /// The radio reported a new device.
    DeviceAdded,
    /// Any other discovery event (a device removed, a property changed).
    Ignored,
    /// The discovery event sequence ended.
    ScanEnded,
    /// The device's alias and pairing state.
    Inspected { alias: String, paired: bool },
    /// Outcome of a pairing attempt.
    PairResult { ok: bool },
    /// The service identifiers the device advertises.
    Advertised { ids: Vec<u128> },
    /// Whether the device is connected.
    ConnectionState { connected: bool },
    /// Outcome of a connect attempt.
    ConnectResult { ok: bool },
    /// The identifiers of the device's services, in the order listed.
    Services { ids: Vec<u128> },
    /// The attribute identifiers of the chosen service, in the order listed.
    Attributes { ids: Vec<u128> },
    /// A query on the device failed.
    DeviceError,
    /// The device was released.
    Released,
}

/// [`DiscoveryEvent`] with its text and lists as mathematical values.
pub enum EventModel {
    DeviceAdded,
    Ignored,
    ScanEnded,
    Inspected { alias: Seq<char>, paired: bool },
    PairResult { ok: bool },
    Advertised { ids: Seq<u128> },
    ConnectionState { connected: bool },
    ConnectResult { ok: bool },
    Services { ids: Seq<u128> },
    Attributes { ids: Seq<u128> },
    DeviceError,
    Released,
}

pub open spec fn event_model(e: &DiscoveryEvent) -> EventModel {
    match e {
        DiscoveryEvent::DeviceAdded => EventModel::DeviceAdded,
        DiscoveryEvent::Ignored => EventModel::Ignored,
        DiscoveryEvent::ScanEnded => EventModel::ScanEnded,
        DiscoveryEvent::Inspected { alias, paired } => EventModel::Inspected { alias: alias@, paired: *paired },
        DiscoveryEvent::PairResult { ok } => EventModel::PairResult { ok: *ok },
        DiscoveryEvent::Advertised { ids } => EventModel::Advertised { ids: ids@ },
        DiscoveryEvent::ConnectionState { connected } => EventModel::ConnectionState { connected: *connected },
        DiscoveryEvent::ConnectResult { ok } => EventModel::ConnectResult { ok: *ok },
        DiscoveryEvent::Services { ids } => EventModel::Services { ids: ids@ },
        DiscoveryEvent::Attributes { ids } => EventModel::Attributes { ids: ids@ },
        DiscoveryEvent::DeviceError => EventModel::DeviceError,
        DiscoveryEvent::Released => EventModel::Released,
    }
}

/// The engine as a mathematical value: what it was configured with, its
/// phase, and the bound attribute indices once a device matched.
pub struct DiscoveryModel {
    pub service_id: u128,
    pub attribute_ids: Seq<u128>,
    pub pair_first: Seq<Seq<char>>,
    pub phase: Phase,
    pub slots: Seq<usize>,
}

/// Index of the first occurrence of `x` in `s`, or -1.
pub open spec fn first_index(s: Seq<u128>, x: u128) -> int
    decreases s.len(),
{
    if s.len() == 0 {
        -1
    } else if s[0] == x {
        0
    } else {
        let r = first_index(s.skip(1), x);
        if r < 0 {
            -1
        } else {
            r + 1
        }
    }
}

pub open spec fn with_phase(s: DiscoveryModel, p: Phase) -> DiscoveryModel {
    DiscoveryModel { phase: p, ..s }
}

/// Pairing and connect attempt numbers stay within their bounds.
pub open spec fn attempts_bounded(p: Phase) -> bool {
    &&& p matches Phase::Pairing { attempt } ==> 1 <= attempt <= MAX_PAIR_ATTEMPTS
    &&& p matches Phase::Connecting { attempt } ==> 1 <= attempt <= MAX_CONNECT_ATTEMPTS
}

/// Number of the pairing attempt under way (0 outside pairing).
pub open spec fn pairing_attempt(p: Phase) -> int {
    match p {
        Phase::Pairing { attempt } => attempt as int,
        _ => 0,
    }
}

/// Number of the connect attempt under way (0 outside connecting).
pub open spec fn connect_attempt(p: Phase) -> int {
    match p {
        Phase::Connecting { attempt } => attempt as int,
        _ => 0,
    }
}

/// One decision of the engine. An event that does not belong to the current
/// phase changes nothing.
pub open spec fn transition(s: DiscoveryModel, e: EventModel) -> DiscoveryModel {
    match s.phase {
        Phase::AwaitingDevice => match e {
            EventModel::DeviceAdded => with_phase(s, Phase::Inspecting),
            EventModel::ScanEnded => with_phase(s, Phase::Finished),
            _ => s,
        },
        Phase::Inspecting => match e {
            EventModel::Inspected { alias, paired } => if s.pair_first.contains(alias) && !paired {
                with_phase(s, Phase::Pairing { attempt: 1 })
            } else {
                with_phase(s, Phase::ReadingAdvertised)
            },
            EventModel::DeviceError => with_phase(s, Phase::Releasing { reason: Rejection::StackFailure }),
            _ => s,
        },
        Phase::Pairing { attempt } => match e {
            EventModel::PairResult { ok } => if ok {
                with_phase(s, Phase::ReadingAdvertised)
            } else if attempt < MAX_PAIR_ATTEMPTS {
                with_phase(s, Phase::Pairing { attempt: (attempt + 1) as u8 })
            } else {
                with_phase(s, Phase::Releasing { reason: Rejection::PairingExhausted })
            },
            EventModel::DeviceError => with_phase(s, Phase::Releasing { reason: Rejection::StackFailure }),
            _ => s,
        },
        Phase::ReadingAdvertised => match e {
            EventModel::Advertised { ids } => if ids.contains(s.service_id) {
                with_phase(s, Phase::CheckingConnection)
            } else {
                with_phase(s, Phase::Releasing { reason: Rejection::ServiceNotAdvertised })
            },
            EventModel::DeviceError => with_phase(s, Phase::Releasing { reason: Rejection::StackFailure }),
            _ => s,
        },
        Phase::CheckingConnection => match e {
            EventModel::ConnectionState { connected } => if connected {
                with_phase(s, Phase::ListingServices)
            } else {
                with_phase(s, Phase::Connecting { attempt: 1 })
            },
            EventModel::DeviceError => with_phase(s, Phase::Releasing { reason: Rejection::StackFailure }),
            _ => s,
        },
        Phase::Connecting { attempt } => match e {
            EventModel::ConnectResult { ok } => if ok {
                with_phase(s, Phase::ListingServices)
            } else if attempt < MAX_CONNECT_ATTEMPTS {
                with_phase(s, Phase::Connecting { attempt: (attempt + 1) as u8 })
            } else {
                with_phase(s, Phase::Releasing { reason: Rejection::ConnectExhausted })
            },
            EventModel::DeviceError => with_phase(s, Phase::Releasing { reason: Rejection::StackFailure }),
            _ => s,
        },
        Phase::ListingServices => match e {
            EventModel::Services { ids } => if ids.contains(s.service_id) {
                with_phase(s, Phase::ListingAttributes { service: #[verifier::truncate] (first_index(ids, s.service_id) as usize) })
            } else {
                with_phase(s, Phase::Releasing { reason: Rejection::ServiceNotFound })
            },
            EventModel::DeviceError => with_phase(s, Phase::Releasing { reason: Rejection::StackFailure }),
            _ => s,
        },
        Phase::ListingAttributes { service } => match e {
            EventModel::Attributes { ids } => match attribute_match(s.attribute_ids, ids) {
                Ok(slots) => DiscoveryModel { phase: Phase::Bound, slots, ..s },
                Err(reason) => with_phase(s, Phase::Releasing { reason }),
            },
            EventModel::DeviceError => with_phase(s, Phase::Releasing { reason: Rejection::StackFailure }),
            _ => s,
        },
        Phase::Releasing { reason } => match e {
            EventModel::Released => with_phase(s, Phase::AwaitingDevice),
            _ => s,
        },
        Phase::Bound => s,
        Phase::Finished => s,
    }
}

/// The engine after a sequence of events.
pub open spec fn run(s: DiscoveryModel, evs: Seq<EventModel>) -> DiscoveryModel
    decreases evs.len(),
{
    if evs.len() == 0 {
        s
    } else {
        transition(run(s, evs.drop_last()), evs.last())
    }
}

/// The discovery and matching engine for one capability descriptor.
pub struct DiscoveryEngine {
    descriptor: ApplicationDescriptor,
    pair_first: Vec<String>,
    phase: Phase,
    slots: Vec<usize>,
}

impl View for DiscoveryEngine {
    type V = DiscoveryModel;

    closed spec fn view(&self) -> DiscoveryModel {
        DiscoveryModel {
            service_id: self.descriptor.service_id(),
            attribute_ids: self.descriptor.attribute_ids(),
            pair_first: self.pair_first@.map_values(|a: String| a@),
            phase: self.phase,
            slots: self.slots@,
        }
    }
}

impl DiscoveryEngine {
    pub closed spec fn wf(&self) -> bool {
        &&& self.descriptor.wf()
        &&& attempts_bounded(self.phase)
        &&& self.phase == Phase::Bound ==> self.slots@.len() == self.descriptor.attribute_ids().len()
    }

    pub closed spec fn descriptor_spec(&self) -> ApplicationDescriptor {
        self.descriptor
    }

    /// An engine waiting for the first device. `pair_first` lists the aliases
    /// of devices that must be paired before their services are read.
    pub fn new(descriptor: ApplicationDescriptor, pair_first: Vec<String>) -> (r: Self)
        requires
            descriptor.wf(),
        ensures
            r.wf(),
            r.descriptor_spec() == descriptor,
            r@.service_id == descriptor.service_id(),
            r@.attribute_ids == descriptor.attribute_ids(),
            r@.pair_first == pair_first@.map_values(|a: String| a@),
            r@.phase == Phase::AwaitingDevice,
            r@.slots.len() == 0,
    {
        DiscoveryEngine { descriptor, pair_first, phase: Phase::AwaitingDevice, slots: Vec::new() }
    }

    pub fn descriptor(&self) -> (r: &ApplicationDescriptor)
        ensures
            *r == self.descriptor_spec(),
            r.service_id() == self@.service_id,
            r.attribute_ids() == self@.attribute_ids,
    {
        &self.descriptor
    }

    pub fn phase(&self) -> (r: Phase)
        ensures
            r == self@.phase,
    {
        self.phase
    }

    /// For each declared attribute, the index of the exposed attribute bound
    /// to it (empty until a device matched).
    pub fn bound_slots(&self) -> (r: &Vec<usize>)
        ensures
            r@ == self@.slots,
    {
        &self.slots
    }

    /// A well-formed engine is never past its last pairing or connect attempt.
    pub proof fn lemma_attempts_bounded(&self)
        requires
            self.wf(),
        ensures
            attempts_bounded(self@.phase),
    {
    }

    /// Once bound, the descriptor is well formed and there is one bound index
    /// per declared attribute.
    pub proof fn lemma_bound_slots(&self)
        requires
            self.wf(),
        ensures
            self.descriptor_spec().wf(),
            distinct(self@.attribute_ids),
            self@.phase == Phase::Bound ==> self@.slots.len() == self@.attribute_ids.len(),
    {
    }

    /// Whether a device with this alias must be paired before its services
    /// are read.
    pub fn needs_pairing(&self, alias: &str) -> (r: bool)
        ensures
            r == self@.pair_first.contains(alias@),
    {
        let n = self.pair_first.len();
        let mut i: usize = 0;
        while i < n
            invariant
                n == self.pair_first@.len(),
                i <= n,
                forall|q: int| 0 <= q < i ==> self.pair_first@[q]@ != alias@,
            decreases n - i,
        {
            if text_equals(self.pair_first[i].as_str(), alias) {
                assert(self@.pair_first[i as int] == alias@);
                return true;
            }
            i = i + 1;
        }
        assert(!self@.pair_first.contains(alias@)) by {
            if self@.pair_first.contains(alias@) {
                let q = choose|q: int| 0 <= q < self@.pair_first.len() && self@.pair_first[q] == alias@;
                assert(self.pair_first@[q]@ == alias@);
            }
        }
        false
    }

    fn set_phase(&mut self, p: Phase)
        requires
            attempts_bounded(p),
            p != Phase::Bound,
            old(self).wf(),
        ensures
            final(self).wf(),
            final(self)@ == with_phase(old(self)@, p),
            final(self).descriptor_spec() == old(self).descriptor_spec(),
    {
        self.phase = p;
    }

    /// Takes one event, moves to the next phase and returns the action that
    /// goes with it. A device's failure or mismatch leads to its release and
    /// never ends discovery.
    pub fn step(&mut self, event: DiscoveryEvent) -> (r: DiscoveryAction)
        requires
            old(self).wf(),
        ensures
            final(self).wf(),
            final(self).descriptor_spec() == old(self).descriptor_spec(),
            final(self)@ == transition(old(self)@, event_model(&event)),
            r == pending(final(self)@.phase),
            attempts_bounded(final(self)@.phase),
            r matches DiscoveryAction::Pair { attempt } ==> 1 <= attempt <= MAX_PAIR_ATTEMPTS,
            r matches DiscoveryAction::Connect { attempt } ==> 1 <= attempt <= MAX_CONNECT_ATTEMPTS,
    {
        let sid = self.descriptor.service_uuid();
        match self.phase {
            Phase::AwaitingDevice => match event {
                DiscoveryEvent::DeviceAdded => self.set_phase(Phase::Inspecting),
                DiscoveryEvent::ScanEnded => self.set_phase(Phase::Finished),
                _ => {},
            },
            Phase::Inspecting => match event {
                DiscoveryEvent::Inspected { alias, paired } => {
                    if self.needs_pairing(alias.as_str()) && !paired {
                        self.set_phase(Phase::Pairing { attempt: 1 });
                    } else {
                        self.set_phase(Phase::ReadingAdvertised);
                    }
                },
                DiscoveryEvent::DeviceError => self.set_phase(Phase::Releasing { reason: Rejection::StackFailure }),
                _ => {},
            },
            Phase::Pairing { attempt } => match event {
                DiscoveryEvent::PairResult { ok } => {
                    if ok {
                        self.set_phase(Phase::ReadingAdvertised);
                    } else if attempt < MAX_PAIR_ATTEMPTS {
                        self.set_phase(Phase::Pairing { attempt: attempt + 1 });
                    } else {
                        self.set_phase(Phase::Releasing { reason: Rejection::PairingExhausted });
                    }
                },
                DiscoveryEvent::DeviceError => self.set_phase(Phase::Releasing { reason: Rejection::StackFailure }),
                _ => {},
            },
            Phase::ReadingAdvertised => match event {
                DiscoveryEvent::Advertised { ids } => {
                    if position(&ids, sid).is_some() {
                        self.set_phase(Phase::CheckingConnection);
                    } else {
                        self.set_phase(Phase::Releasing { reason: Rejection::ServiceNotAdvertised });
                    }
                },
                DiscoveryEvent::DeviceError => self.set_phase(Phase::Releasing { reason: Rejection::StackFailure }),
                _ => {},
            },
            Phase::CheckingConnection => match event {
                DiscoveryEvent::ConnectionState { connected } => {
                    if connected {
                        self.set_phase(Phase::ListingServices);
                    } else {
                        self.set_phase(Phase::Connecting { attempt: 1 });
                    }
                },
                DiscoveryEvent::DeviceError => self.set_phase(Phase::Releasing { reason: Rejection::StackFailure }),
                _ => {},
            },
            Phase::Connecting { attempt } => match event {
                DiscoveryEvent::ConnectResult { ok } => {
                    if ok {
                        self.set_phase(Phase::ListingServices);
                    } else if attempt < MAX_CONNECT_ATTEMPTS {
                        self.set_phase(Phase::Connecting { attempt: attempt + 1 });
                    } else {
                        self.set_phase(Phase::Releasing { reason: Rejection::ConnectExhausted });
                    }
                },
                DiscoveryEvent::DeviceError => self.set_phase(Phase::Releasing { reason: Rejection::StackFailure }),
                _ => {},
            },
            Phase::ListingServices => match event {
                DiscoveryEvent::Services { ids } => {
                    match position(&ids, sid) {
                        Some(p) => {
                            proof {
                                lemma_first_index(ids@, sid, p as int);
                            }
                            self.set_phase(Phase::ListingAttributes { service: p });
                        },
                        None => self.set_phase(Phase::Releasing { reason: Rejection::ServiceNotFound }),
                    }
                },
                DiscoveryEvent::DeviceError => self.set_phase(Phase::Releasing { reason: Rejection::StackFailure }),
                _ => {},
            },
            Phase::ListingAttributes { service } => match event {
                DiscoveryEvent::Attributes { ids } => {
                    match self.descriptor.match_attributes(&ids) {
                        Ok(slots) => {
                            self.slots = slots;
                            self.phase = Phase::Bound;
                        },
                        Err(reason) => self.set_phase(Phase::Releasing { reason }),
                    }
                },
                DiscoveryEvent::DeviceError => self.set_phase(Phase::Releasing { reason: Rejection::StackFailure }),
                _ => {},
            },
            Phase::Releasing { reason } => match event {
                DiscoveryEvent::Released => self.set_phase(Phase::AwaitingDevice),
                _ => {},
            },
            Phase::Bound => {},
            Phase::Finished => {},
        }
        self.action()
    }

    /// The action that goes with the current phase.
    pub fn action(&self) -> (r: DiscoveryAction)
        ensures
            r == pending(self@.phase),
    {
        match self.phase {
            Phase::AwaitingDevice => DiscoveryAction::NextEvent,
            Phase::Inspecting => DiscoveryAction::Inspect,
            Phase::Pairing { attempt } => DiscoveryAction::Pair { attempt },
            Phase::ReadingAdvertised => DiscoveryAction::ReadAdvertised,
            Phase::CheckingConnection => DiscoveryAction::CheckConnected,
            Phase::Connecting { attempt } => DiscoveryAction::Connect { attempt },
            Phase::ListingServices => DiscoveryAction::ListServices,
            Phase::ListingAttributes { service } => DiscoveryAction::ListAttributes { service },
            Phase::Releasing { reason } => DiscoveryAction::Release { reason },
            Phase::Bound => DiscoveryAction::Bind,
            Phase::Finished => DiscoveryAction::StopDiscovery,
        }
    }
}

proof fn lemma_first_index(s: Seq<u128>, x: u128, p: int)
    requires
        0 <= p < s.len(),
        s[p] == x,
        forall|q: int| 0 <= q < p ==> s[q] != x,
    ensures
        first_index(s, x) == p,
    decreases s.len(),
{
    if p > 0 {
        lemma_first_index(s.skip(1), x, p - 1);
    }
}

} // verus!

verus! {

/// Retry bound: pairing is attempted at most `MAX_PAIR_ATTEMPTS` times and
/// connecting at most `MAX_CONNECT_ATTEMPTS` times on one device. Each further
/// attempt follows a failed one and counts up, and a failure of the last
/// attempt always gives the device up with the matching exhaustion reason.
pub proof fn lemma_retry_bound(s: DiscoveryModel, e: EventModel)
    requires
        attempts_bounded(s.phase),
    ensures
        attempts_bounded(transition(s, e).phase),
        pairing_attempt(transition(s, e).phase) <= pairing_attempt(s.phase) + 1,
        connect_attempt(transition(s, e).phase) <= connect_attempt(s.phase) + 1,
        pairing_attempt(transition(s, e).phase) > 1 && transition(s, e).phase != s.phase
            ==> e == (EventModel::PairResult { ok: false }),
        connect_attempt(transition(s, e).phase) > 1 && transition(s, e).phase != s.phase
            ==> e == (EventModel::ConnectResult { ok: false }),
        pairing_attempt(s.phase) == MAX_PAIR_ATTEMPTS && e == (EventModel::PairResult { ok: false })
            ==> transition(s, e).phase == (Phase::Releasing { reason: Rejection::PairingExhausted }),
        connect_attempt(s.phase) == MAX_CONNECT_ATTEMPTS && e == (EventModel::ConnectResult {
            ok: false,
        }) ==> transition(s, e).phase == (Phase::Releasing { reason: Rejection::ConnectExhausted }),
{
}

pub proof fn lemma_run_concat(s: DiscoveryModel, a: Seq<EventModel>, b: Seq<EventModel>)
    ensures
        run(s, a + b) == run(run(s, a), b),
    decreases b.len(),
{
    if b.len() == 0 {
        assert(a + b =~= a);
    } else {
        assert((a + b).drop_last() =~= a + b.drop_last());
        assert((a + b).last() == b.last());
        lemma_run_concat(s, a, b.drop_last());
    }
}

/// Events never change what the engine was configured with, and the bound
/// attributes change only when a device is bound, after which nothing changes.
pub proof fn lemma_run_keeps_configuration(s: DiscoveryModel, evs: Seq<EventModel>)
    requires
        s.phase != Phase::Bound,
    ensures
        run(s, evs).service_id == s.service_id,
        run(s, evs).attribute_ids == s.attribute_ids,
        run(s, evs).pair_first == s.pair_first,
        run(s, evs).phase != Phase::Bound ==> run(s, evs).slots == s.slots,
    decreases evs.len(),
{
    if evs.len() > 0 {
        lemma_run_keeps_configuration(s, evs.drop_last());
    }
}

/// Device-failure isolation: once the engine is back to waiting after a
/// device (whatever made it fail or mismatch), it is exactly as it was before
/// that device, so what follows is handled as if that device had never been
/// seen.
pub proof fn lemma_failed_device_isolated(
    s: DiscoveryModel,
    failed: Seq<EventModel>,
    rest: Seq<EventModel>,
)
    requires
        s.phase == Phase::AwaitingDevice,
        run(s, failed).phase == Phase::AwaitingDevice,
    ensures
        run(s, failed) == s,
        run(s, failed + rest) == run(s, rest),
{
    lemma_run_keeps_configuration(s, failed);
    lemma_run_concat(s, failed, rest);
}

/// Events of a device that advertises `advertised`, is already paired and
/// connected, lists the services `services` and, under the chosen one, the
/// attributes `attributes`; `released` adds the release that follows a
/// rejection.
pub open spec fn device_events(
    alias: Seq<char>,
    advertised: Seq<u128>,
    services: Seq<u128>,
    attributes: Seq<u128>,
) -> Seq<EventModel> {
    seq![
        EventModel::DeviceAdded,
        EventModel::Inspected { alias, paired: true },
        EventModel::Advertised { ids: advertised },
        EventModel::ConnectionState { connected: true },
        EventModel::Services { ids: services },
        EventModel::Attributes { ids: attributes },
    ]
}

proof fn lemma_device_events_run(
    s: DiscoveryModel,
    alias: Seq<char>,
    advertised: Seq<u128>,
    services: Seq<u128>,
    attributes: Seq<u128>,
)
    requires
        s.phase == Phase::AwaitingDevice,
        advertised.contains(s.service_id),
        services.contains(s.service_id),
    ensures
        run(s, device_events(alias, advertised, services, attributes)) == transition(
            with_phase(s, Phase::ListingAttributes {
                service: #[verifier::truncate] (first_index(services, s.service_id) as usize),
            }),
            EventModel::Attributes { ids: attributes },
        ),
{
    let evs = device_events(alias, advertised, services, attributes);
    assert(evs.take(6) =~= evs);
    assert(run(s, evs.take(0)) == s);
    assert(evs.take(1).drop_last() =~= evs.take(0));
    assert(evs.take(2).drop_last() =~= evs.take(1));
    assert(evs.take(3).drop_last() =~= evs.take(2));
    assert(evs.take(4).drop_last() =~= evs.take(3));
    assert(evs.take(5).drop_last() =~= evs.take(4));
    assert(evs.take(6).drop_last() =~= evs.take(5));
    assert(run(s, evs.take(1)) == with_phase(s, Phase::Inspecting));
    assert(run(s, evs.take(2)) == with_phase(s, Phase::ReadingAdvertised));
    assert(run(s, evs.take(3)) == with_phase(s, Phase::CheckingConnection));
    assert(run(s, evs.take(4)) == with_phase(s, Phase::ListingServices));
    assert(run(s, evs.take(5)) == with_phase(s, Phase::ListingAttributes {
        service: #[verifier::truncate] (first_index(services, s.service_id) as usize),
    }));
}

/// A device that advertises and lists the service but whose attributes are
/// not exactly the declared ones is rejected, and once released does not
/// keep a later, fully matching device from being bound.
pub proof fn lemma_mismatch_then_match_binds(
    s: DiscoveryModel,
    alias1: Seq<char>,
    advertised1: Seq<u128>,
    services1: Seq<u128>,
    attributes1: Seq<u128>,
    alias2: Seq<char>,
    advertised2: Seq<u128>,
    services2: Seq<u128>,
    attributes2: Seq<u128>,
)
    requires
        s.phase == Phase::AwaitingDevice,
        distinct(s.attribute_ids),
        advertised1.contains(s.service_id),
        services1.contains(s.service_id),
        !same_members(s.attribute_ids, attributes1),
        advertised2.contains(s.service_id),
        services2.contains(s.service_id),
        same_members(s.attribute_ids, attributes2),
    ensures
        ({
            let failed = device_events(alias1, advertised1, services1, attributes1).push(
                EventModel::Released,
            );
            let good = device_events(alias2, advertised2, services2, attributes2);
            &&& run(s, failed).phase == Phase::AwaitingDevice
            &&& run(s, failed + good).phase == Phase::Bound
            &&& attribute_match(s.attribute_ids, attributes2) == Ok::<Seq<usize>, Rejection>(
                run(s, failed + good).slots,
            )
        }),
{
    let failed = device_events(alias1, advertised1, services1, attributes1).push(
        EventModel::Released,
    );
    let good = device_events(alias2, advertised2, services2, attributes2);
    lemma_match_iff_same_members(s.attribute_ids, attributes1);
    lemma_match_iff_same_members(s.attribute_ids, attributes2);
    lemma_device_events_run(s, alias1, advertised1, services1, attributes1);
    lemma_device_events_run(s, alias2, advertised2, services2, attributes2);
    assert(failed.drop_last() =~= device_events(alias1, advertised1, services1, attributes1));
    assert(run(s, failed).phase == Phase::AwaitingDevice);
    lemma_failed_device_isolated(s, failed, good);
}

} // verus!
