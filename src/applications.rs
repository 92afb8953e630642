//! The applications this engine serves and exercises: their capability
//! descriptors, the plan of the service a server publishes, the registry that
//! selects an application and a mode by name, and the requests the arithmetic
//! client sends.
use rand::Rng;
use vstd::prelude::*;
use vstd::string::StringExecFns;
use crate::descriptor::{ApplicationDescriptor, NotifyPolicy, ReadPolicy, WritePolicy};
use crate::server::CommandHandler;
use crate::text::{i128_text, int_text, lower_of, lowercase, text_equals};

verus! {

/// Service of the echo application.
pub const PING_PONG_SERVICE_UUID: u128 = 0x7c0f6a2e_6c3b_4f7e_9d36_5e4a0b8d1f01;

/// Command attribute of the echo application.
pub const PING_PONG_CHARACTERISTIC_UUID: u128 = 0x7c0f6a2e_6c3b_4f7e_9d36_5e4a0b8d1f02;

/// Service of the arithmetic application.
pub const ADDER_SERVICE_UUID: u128 = 0x7c0f6a2e_6c3b_4f7e_9d36_5e4a0b8d1f11;

/// Command attribute of the arithmetic application.
pub const ADDER_CHARACTERISTIC_UUID: u128 = 0x7c0f6a2e_6c3b_4f7e_9d36_5e4a0b8d1f12;

/// Current Time Service.
pub const CTS_SERVICE_UUID: u128 = 0x00001805_0000_1000_8000_00805f9b34fb;

/// Current Time attribute.
pub const CURRENT_TIME_CHARACTERISTIC_UUID: u128 = 0x00002a2b_0000_1000_8000_00805f9b34fb;

/// Heart Rate service.
pub const HEART_RATE_SERVICE_UUID: u128 = 0x0000180d_0000_1000_8000_00805f9b34fb;

/// Heart Rate Measurement attribute.
pub const HEART_RATE_MEASUREMENT_CHARACTERISTIC_UUID: u128 = 0x00002a37_0000_1000_8000_00805f9b34fb;

/// Read, write and notify behaviour of an attribute whose value a peer reads
/// and subscribes to but does not write.
pub open spec fn readable_notifying(d: ApplicationDescriptor) -> bool {
    &&& d.read_policies() == seq![Some(ReadPolicy { read: true })]
    &&& d.write_policies() == seq![
        Some(WritePolicy { write: false, write_without_response: false, io: false }),
    ]
    &&& d.notify_policies() == seq![Some(NotifyPolicy { notify: true, io: true })]
}

/// A well-formed one-attribute descriptor whose attribute peers read and
/// subscribe to.
pub open spec fn readable_descriptor(d: ApplicationDescriptor, service: u128, attribute: u128) -> bool {
    &&& d.wf()
    &&& d.service_id() == service
    &&& d.attribute_ids() == seq![attribute]
    &&& readable_notifying(d)
}

/// A one-attribute descriptor with no behaviour of its own.
pub open spec fn plain_descriptor(d: ApplicationDescriptor, service: u128, attribute: u128) -> bool {
    &&& d.wf()
    &&& d.service_id() == service
    &&& d.attribute_ids() == seq![attribute]
    &&& d.read_policies() == seq![None::<ReadPolicy>]
    &&& d.write_policies() == seq![None::<WritePolicy>]
    &&& d.notify_policies() == seq![None::<NotifyPolicy>]
}

fn one_attribute(service: u128, name: &str, attribute: u128) -> (r: ApplicationDescriptor)
    ensures
        plain_descriptor(r, service, attribute),
        r.name() == name@,
{
    let ids = vec![attribute];
    let r = ApplicationDescriptor::default_descriptor(service, name, ids);
    assert(r.read_policies()[0] is None);
    assert(r.attribute_ids() =~= seq![attribute]);
    assert(r.read_policies() =~= seq![None::<ReadPolicy>]);
    assert(r.write_policies() =~= seq![None::<WritePolicy>]);
    assert(r.notify_policies() =~= seq![None::<NotifyPolicy>]);
    r
}

fn readable_attribute(service: u128, name: &str, attribute: u128) -> (r: ApplicationDescriptor)
    ensures
        readable_descriptor(r, service, attribute),
        r.name() == name@,
{
    let ids = vec![attribute];
    let reads = vec![Some(ReadPolicy { read: true })];
    let writes = vec![Some(WritePolicy { write: false, write_without_response: false, io: false })];
    let notifies = vec![ApplicationDescriptor::default_notify()];
    let r = ApplicationDescriptor::new(service, name, ids, reads, writes, notifies);
    assert(r.attribute_ids() =~= seq![attribute]);
    assert(r.read_policies() =~= seq![Some(ReadPolicy { read: true })]);
    assert(r.write_policies() =~= seq![
        Some(WritePolicy { write: false, write_without_response: false, io: false }),
    ]);
    assert(r.notify_policies() =~= seq![Some(NotifyPolicy { notify: true, io: true })]);
    r
}

/// The echo application: `ping` answers `pong` and back.
#[derive(Clone, Copy, Debug, Default)]
pub struct PingPong;

impl PingPong {
    pub fn application_descriptor(&self) -> (r: ApplicationDescriptor)
        ensures
            plain_descriptor(r, PING_PONG_SERVICE_UUID, PING_PONG_CHARACTERISTIC_UUID),
            r.name() == "Ping Pong"@,
    {
        one_attribute(PING_PONG_SERVICE_UUID, "Ping Pong", PING_PONG_CHARACTERISTIC_UUID)
    }

    pub fn gatt_application(&self) -> (r: GattApplication)
        ensures
            r.wf(),
            plain_descriptor(r.descriptor_spec(), PING_PONG_SERVICE_UUID, PING_PONG_CHARACTERISTIC_UUID),
    {
        GattApplication::from(self.application_descriptor())
    }

    /// The requests the client sends, in order.
    pub fn client_messages(&self) -> (r: Vec<String>)
        ensures
            r@.len() == 4,
            r@[0]@ == "ping"@,
            r@[1]@ == "pong"@,
            r@[2]@ == "random"@,
            r@[3]@ == "exit"@,
    {
        vec![
            String::from_str("ping"),
            String::from_str("pong"),
            String::from_str("random"),
            String::from_str("exit"),
        ]
    }
}

/// The arithmetic application: requests are integers to add up.
#[derive(Clone, Copy, Debug, Default)]
pub struct Adder;

impl Adder {
    pub fn application_descriptor(&self) -> (r: ApplicationDescriptor)
        ensures
            plain_descriptor(r, ADDER_SERVICE_UUID, ADDER_CHARACTERISTIC_UUID),
            r.name() == "Adder"@,
    {
        one_attribute(ADDER_SERVICE_UUID, "Adder", ADDER_CHARACTERISTIC_UUID)
    }

    pub fn gatt_application(&self) -> (r: GattApplication)
        ensures
            r.wf(),
            plain_descriptor(r.descriptor_spec(), ADDER_SERVICE_UUID, ADDER_CHARACTERISTIC_UUID),
    {
        GattApplication::from(self.application_descriptor())
    }
}

/// The current-time application: peers read the server's clock.
#[derive(Clone, Copy, Debug, Default)]
pub struct CTS;

impl CTS {
    pub fn application_descriptor(&self) -> (r: ApplicationDescriptor)
        ensures
            readable_descriptor(r, CTS_SERVICE_UUID, CURRENT_TIME_CHARACTERISTIC_UUID),
            r.name() == "Current Time Service"@,
    {
        readable_attribute(CTS_SERVICE_UUID, "Current Time Service", CURRENT_TIME_CHARACTERISTIC_UUID)
    }

    pub fn gatt_application(&self) -> (r: GattApplication)
        ensures
            r.wf(),
            readable_descriptor(r.descriptor_spec(), CTS_SERVICE_UUID, CURRENT_TIME_CHARACTERISTIC_UUID),
            r.descriptor_spec().name() == "Current Time Service"@,
    {
        GattApplication::from(self.application_descriptor())
    }
}

/// The heart-rate application: the server streams a simulated measurement.
#[derive(Clone, Copy, Debug, Default)]
pub struct HeartRate;

impl HeartRate {
    pub fn application_descriptor(&self) -> (r: ApplicationDescriptor)
        ensures
            readable_descriptor(r, HEART_RATE_SERVICE_UUID, HEART_RATE_MEASUREMENT_CHARACTERISTIC_UUID),
            r.name() == "Heart Rate"@,
    {
        readable_attribute(HEART_RATE_SERVICE_UUID, "Heart Rate", HEART_RATE_MEASUREMENT_CHARACTERISTIC_UUID)
    }

    pub fn gatt_application(&self) -> (r: GattApplication)
        ensures
            r.wf(),
            readable_descriptor(r.descriptor_spec(), HEART_RATE_SERVICE_UUID, HEART_RATE_MEASUREMENT_CHARACTERISTIC_UUID),
            r.descriptor_spec().name() == "Heart Rate"@,
    {
        GattApplication::from(self.application_descriptor())
    }
}

/// One attribute of the service a server publishes: its identifier, its
/// behaviour, and the index of the control channel that carries its events.
#[derive(Clone, Copy, Debug, PartialEq, Eq, Structural)]
pub struct CharacteristicPlan {
    pub uuid: u128,
    pub read: Option<ReadPolicy>,
    pub write: Option<WritePolicy>,
    pub notify: Option<NotifyPolicy>,
    pub control: usize,
}

/// The service a server publishes for a descriptor: one primary service with
/// the descriptor's identifier and, in order, one attribute per declared
/// identifier, each with its own behaviour and control channel.
pub struct GattApplication {
    characteristics: Vec<CharacteristicPlan>,
    descriptor: ApplicationDescriptor,
}

impl GattApplication {
    pub closed spec fn descriptor_spec(&self) -> ApplicationDescriptor {
        self.descriptor
    }

    pub closed spec fn plan(&self) -> Seq<CharacteristicPlan> {
        self.characteristics@
    }

    pub open spec fn wf(&self) -> bool {
        let d = self.descriptor_spec();
        &&& d.wf()
        &&& self.plan().len() == d.attribute_ids().len()
        &&& forall|i: int|
            0 <= i < self.plan().len() ==> (#[trigger] self.plan()[i]).uuid == d.attribute_ids()[i]
                && self.plan()[i].read == d.read_policies()[i] && self.plan()[i].write
                == d.write_policies()[i] && self.plan()[i].notify == d.notify_policies()[i]
                && self.plan()[i].control == i
    }

    /// Lays out the service of a descriptor.
    pub fn from(application_descriptor: ApplicationDescriptor) -> (r: GattApplication)
        requires
            application_descriptor.wf(),
        ensures
            r.wf(),
            r.descriptor_spec() == application_descriptor,
    {
        let n = application_descriptor.characteristics_uuids().len();
        let mut characteristics: Vec<CharacteristicPlan> = Vec::new();
        let mut i: usize = 0;
        while i < n
            invariant
                application_descriptor.wf(),
                n == application_descriptor.attribute_ids().len(),
                i <= n,
                characteristics@.len() == i,
                forall|j: int|
                    0 <= j < i ==> (#[trigger] characteristics@[j]).uuid
                        == application_descriptor.attribute_ids()[j] && characteristics@[j].read
                        == application_descriptor.read_policies()[j] && characteristics@[j].write
                        == application_descriptor.write_policies()[j] && characteristics@[j].notify
                        == application_descriptor.notify_policies()[j] && characteristics@[j].control == j,
            decreases n - i,
        {
            let uuid = application_descriptor.characteristics_uuids()[i];
            characteristics.push(CharacteristicPlan {
                uuid,
                read: application_descriptor.read_policy(i),
                write: application_descriptor.write_policy(i),
                notify: application_descriptor.notify_policy(i),
                control: i,
            });
            i = i + 1;
        }
        GattApplication { characteristics, descriptor: application_descriptor }
    }

    pub fn service_uuid(&self) -> (r: u128)
        ensures
            r == self.descriptor_spec().service_id(),
    {
        self.descriptor.service_uuid()
    }

    pub fn service_name(&self) -> (r: &str)
        ensures
            r@ == self.descriptor_spec().name(),
    {
        self.descriptor.service_name()
    }

    /// The attributes of the service, in order.
    pub fn application_definition(&self) -> (r: &Vec<CharacteristicPlan>)
        ensures
            r@ == self.plan(),
    {
        &self.characteristics
    }

    /// Number of control channels the service needs: one per attribute.
    pub fn characteristics_controls(&self) -> (r: usize)
        ensures
            r == self.plan().len(),
    {
        self.characteristics.len()
    }

    pub fn application_descriptor(&self) -> (r: &ApplicationDescriptor)
        ensures
            *r == self.descriptor_spec(),
    {
        &self.descriptor
    }
}

/// The applications the registry knows by name.
#[derive(Clone, Copy, Debug, PartialEq, Eq, Structural)]
pub enum ApplicationKind {
    PingPong,
    Adder,
    Cts,
    HeartRate,
}

/// Application selected by a name, compared without regard to case.
pub open spec fn kind_of(lowered: Seq<char>) -> Option<ApplicationKind> {
    if lowered == "ping_pong"@ {
        Some(ApplicationKind::PingPong)
    } else if lowered == "adder"@ {
        Some(ApplicationKind::Adder)
    } else if lowered == "cts"@ {
        Some(ApplicationKind::Cts)
    } else if lowered == "heart_rate"@ {
        Some(ApplicationKind::HeartRate)
    } else {
        None
    }
}

/// Selects an application by name (`ping_pong`, `adder`, `cts` or
/// `heart_rate`, in any case).
pub fn get_blt_application(name: &str) -> (r: Option<ApplicationKind>)
    ensures
        r == kind_of(lower_of(name@)),
{
    let value = lowercase(name);
    if text_equals(value.as_str(), "ping_pong") {
        Some(ApplicationKind::PingPong)
    } else if text_equals(value.as_str(), "adder") {
        Some(ApplicationKind::Adder)
    } else if text_equals(value.as_str(), "cts") {
        Some(ApplicationKind::Cts)
    } else if text_equals(value.as_str(), "heart_rate") {
        Some(ApplicationKind::HeartRate)
    } else {
        None
    }
}

/// The descriptor each application declares.
pub open spec fn kind_descriptor(k: ApplicationKind, d: ApplicationDescriptor) -> bool {
    match k {
        ApplicationKind::PingPong => plain_descriptor(d, PING_PONG_SERVICE_UUID, PING_PONG_CHARACTERISTIC_UUID)
            && d.name() == "Ping Pong"@,
        ApplicationKind::Adder => plain_descriptor(d, ADDER_SERVICE_UUID, ADDER_CHARACTERISTIC_UUID)
            && d.name() == "Adder"@,
        ApplicationKind::Cts => readable_descriptor(d, CTS_SERVICE_UUID, CURRENT_TIME_CHARACTERISTIC_UUID)
            && d.name() == "Current Time Service"@,
        ApplicationKind::HeartRate => readable_descriptor(
            d,
            HEART_RATE_SERVICE_UUID,
            HEART_RATE_MEASUREMENT_CHARACTERISTIC_UUID,
        ) && d.name() == "Heart Rate"@,
    }
}

impl ApplicationKind {
    /// The descriptor of this application.
    pub fn application_descriptor(&self) -> (r: ApplicationDescriptor)
        ensures
            r.wf(),
            kind_descriptor(*self, r),
    {
        match self {
            ApplicationKind::PingPong => PingPong.application_descriptor(),
            ApplicationKind::Adder => Adder.application_descriptor(),
            ApplicationKind::Cts => CTS.application_descriptor(),
            ApplicationKind::HeartRate => HeartRate.application_descriptor(),
        }
    }

    /// The service a server publishes for this application.
    pub fn gatt_application(&self) -> (r: GattApplication)
        ensures
            r.wf(),
            kind_descriptor(*self, r.descriptor_spec()),
    {
        GattApplication::from(self.application_descriptor())
    }

    /// The handler the server's command loop dispatches to, for the
    /// applications that answer requests.
    pub fn command_handler(&self) -> (r: Option<CommandHandler>)
        ensures
            *self == ApplicationKind::PingPong ==> r == Some(CommandHandler::Echo),
            *self == ApplicationKind::Adder ==> r == Some(CommandHandler::Arithmetic),
            *self == ApplicationKind::Cts ==> r is None,
            *self == ApplicationKind::HeartRate ==> r is None,
    {
        match self {
            ApplicationKind::PingPong => Some(CommandHandler::Echo),
            ApplicationKind::Adder => Some(CommandHandler::Arithmetic),
            ApplicationKind::Cts => None,
            ApplicationKind::HeartRate => None,
        }
    }
}

/// Which side of the exchange a process plays.
#[derive(Clone, Copy, Debug, PartialEq, Eq, Structural)]
pub enum ApplicationMode {
    Client,
    Server,
}

/// Mode selected by a name, compared without regard to case.
pub open spec fn mode_of(lowered: Seq<char>) -> Option<ApplicationMode> {
    if lowered == "client"@ {
        Some(ApplicationMode::Client)
    } else if lowered == "server"@ {
        Some(ApplicationMode::Server)
    } else {
        None
    }
}

impl ApplicationMode {
    /// Reads a mode: `client` or `server`, in any case.
    pub fn parse(input: &str) -> (r: Option<ApplicationMode>)
        ensures
            r == mode_of(lower_of(input@)),
    {
        let value = lowercase(input);
        if text_equals(value.as_str(), "client") {
            Some(ApplicationMode::Client)
        } else if text_equals(value.as_str(), "server") {
            Some(ApplicationMode::Server)
        } else {
            None
        }
    }
}

impl core::str::FromStr for ApplicationMode {
    type Err = ();

    fn from_str(input: &str) -> Result<ApplicationMode, ()> {
        match ApplicationMode::parse(input) {
            Some(m) => Ok(m),
            None => Err(()),
        }
    }
}

/// Values joined by single spaces, in decimal.
pub open spec fn joined(values: Seq<int>) -> Seq<char>
    decreases values.len(),
{
    if values.len() <= 1 {
        if values.len() == 0 { Seq::<char>::empty() } else { int_text(values[0]) }
    } else {
        joined(values.drop_last()) + " "@ + int_text(values.last())
    }
}

pub open spec fn as_ints(values: Seq<u32>) -> Seq<int> {
    values.map_values(|v: u32| v as int)
}

/// A request of the arithmetic client: the values in decimal, separated by
/// single spaces.
pub fn entry_text(values: &Vec<u32>) -> (r: String)
    ensures
        r@ == joined(as_ints(values@)),
{
    let n = values.len();
    let mut r = String::new();
    let mut i: usize = 0;
    proof {
        assert(as_ints(values@).take(0) =~= Seq::<int>::empty());
    }
    while i < n
        invariant
            n == values@.len(),
            i <= n,
            r@ == joined(as_ints(values@).take(i as int)),
        decreases n - i,
    {
        let t = i128_text(values[i] as i128);
        let ghost before = as_ints(values@).take(i as int);
        proof {
            assert(as_ints(values@).take(i + 1) =~= before.push(values@[i as int] as int));
            assert(as_ints(values@).take(i + 1).drop_last() =~= before);
        }
        if i > 0 {
            r.append(" ");
        }
        r.append(t.as_str());
        proof {
            if i == 0 {
                assert(r@ =~= int_text(values@[0] as int));
            } else {
                assert(r@ =~= joined(before) + " "@ + int_text(values@[i as int] as int));
            }
        }
        i = i + 1;
    }
    proof {
        assert(as_ints(values@).take(n as int) =~= as_ints(values@));
    }
    r
}

/// Relies on rand's `thread_rng` and `Rng::gen_range`: a value in
/// `low..high`, which must not be empty.
#[verifier::external_body]
fn random_in(low: u32, high: u32) -> (r: u32)
    requires
        low < high,
    ensures
        low <= r < high,
{
    rand::thread_rng().gen_range(low..high)
}

/// A random request of the arithmetic client: one to four values from 0 to
/// 10.
pub open spec fn random_entry(t: Seq<char>) -> bool {
    exists|values: Seq<int>|
        1 <= values.len() <= 4 && (forall|i: int| 0 <= i < values.len() ==> 0 <= #[trigger] values[i] <= 10)
            && t == joined(values)
}

/// The requests of the arithmetic client: one to nine random entries, then an
/// invalid entry and the terminating request.
pub fn generate_random_entries() -> (r: Vec<String>)
    ensures
        3 <= r@.len() <= 11,
        r@[r@.len() - 2]@ == "1 a"@,
        r@[r@.len() - 1]@ == "exit"@,
        forall|k: int| 0 <= k < r@.len() - 2 ==> random_entry(#[trigger] r@[k]@),
{
    let mut entries: Vec<String> = Vec::new();
    let count = random_in(1, 10);
    let mut e: u32 = 0;
    while e < count
        invariant
            count < 10,
            e <= count,
            entries@.len() == e,
            forall|k: int| 0 <= k < entries@.len() ==> random_entry(#[trigger] entries@[k]@),
        decreases count - e,
    {
        let width = random_in(1, 5);
        let mut values: Vec<u32> = Vec::new();
        let mut v: u32 = 0;
        while v < width
            invariant
                width < 5,
                v <= width,
                values@.len() == v,
                forall|i: int| 0 <= i < values@.len() ==> #[trigger] values@[i] <= 10,
            decreases width - v,
        {
            values.push(random_in(0, 11));
            v = v + 1;
        }
        let text = entry_text(&values);
        proof {
            let vals = as_ints(values@);
            assert(1 <= vals.len() <= 4 && (forall|i: int| 0 <= i < vals.len() ==> 0 <= #[trigger] vals[i] <= 10) && text@ == joined(vals));
        }
        entries.push(text);
        e = e + 1;
    }
    entries.push(String::from_str("1 a"));
    entries.push(String::from_str("exit"));
    entries
}

} // verus!
