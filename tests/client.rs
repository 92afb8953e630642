use blt::channels::{flush_continues, AttributeNotFound, ChannelSet, FlushRead};
use blt::descriptor::{ApplicationDescriptor, Rejection};
use blt::discovery::{DiscoveryAction, DiscoveryEngine, DiscoveryEvent, Phase};

const SERVICE: u128 = 0x0000180d_0000_1000_8000_00805f9b34fb;
const A: u128 = 0x00002a37_0000_1000_8000_00805f9b34fb;
const B: u128 = 0x00002a38_0000_1000_8000_00805f9b34fb;
const C: u128 = 0x00002a39_0000_1000_8000_00805f9b34fb;

fn descriptor() -> ApplicationDescriptor {
    ApplicationDescriptor::default_descriptor(SERVICE, "Heart Rate", vec![A, B])
}

#[test]
fn match_accepts_equal_sets_only() {
    let d = descriptor();
    assert_eq!(d.match_attributes(&vec![A, B]), Ok(vec![0, 1]));
    assert_eq!(d.match_attributes(&vec![B, A]), Ok(vec![1, 0]));
    assert_eq!(d.match_attributes(&vec![A, B, A]), Ok(vec![2, 1]));
    assert_eq!(d.match_attributes(&vec![A, B, C]), Err(Rejection::UnknownAttribute));
    assert_eq!(d.match_attributes(&vec![C]), Err(Rejection::UnknownAttribute));
    assert_eq!(d.match_attributes(&vec![A]), Err(Rejection::MissingAttribute));
    assert_eq!(d.match_attributes(&vec![]), Err(Rejection::MissingAttribute));
}

#[test]
fn descriptor_accessors() {
    let d = descriptor();
    assert_eq!(d.service_uuid(), SERVICE);
    assert_eq!(d.service_name(), "Heart Rate");
    assert_eq!(d.characteristics_uuids(), &vec![A, B]);
    assert_eq!(d.read_policy(1), None);
    assert_eq!(ApplicationDescriptor::default_read(), None);
    assert!(ApplicationDescriptor::default_notify().unwrap().notify);
    assert!(ApplicationDescriptor::default_write().unwrap().write_without_response);
}

fn step(e: &mut DiscoveryEngine, ev: DiscoveryEvent) -> DiscoveryAction {
    e.step(ev)
}

fn walk_to_attributes(e: &mut DiscoveryEngine) {
    assert_eq!(step(e, DiscoveryEvent::DeviceAdded), DiscoveryAction::Inspect);
    let a = step(e, DiscoveryEvent::Inspected { alias: "dev".to_string(), paired: false });
    assert_eq!(a, DiscoveryAction::ReadAdvertised);
    let a = step(e, DiscoveryEvent::Advertised { ids: vec![7, SERVICE] });
    assert_eq!(a, DiscoveryAction::CheckConnected);
    assert_eq!(step(e, DiscoveryEvent::ConnectionState { connected: true }), DiscoveryAction::ListServices);
    let a = step(e, DiscoveryEvent::Services { ids: vec![5, SERVICE, SERVICE] });
    assert_eq!(a, DiscoveryAction::ListAttributes { service: 1 });
}

#[test]
fn failed_device_does_not_block_next_match() {
    let mut e = DiscoveryEngine::new(descriptor(), Vec::new());
    assert_eq!(e.action(), DiscoveryAction::NextEvent);
    walk_to_attributes(&mut e);
    let a = step(&mut e, DiscoveryEvent::Attributes { ids: vec![A, B, C] });
    assert_eq!(a, DiscoveryAction::Release { reason: Rejection::UnknownAttribute });
    assert_eq!(step(&mut e, DiscoveryEvent::Released), DiscoveryAction::NextEvent);
    assert_eq!(step(&mut e, DiscoveryEvent::Ignored), DiscoveryAction::NextEvent);
    walk_to_attributes(&mut e);
    assert_eq!(step(&mut e, DiscoveryEvent::Attributes { ids: vec![B, A] }), DiscoveryAction::Bind);
    assert_eq!(e.phase(), Phase::Bound);
    assert_eq!(e.bound_slots(), &vec![1, 0]);
    let set = ChannelSet::from_engine(&e).unwrap();
    assert_eq!(set.lookup(B), Ok(0));
    assert_eq!(set.lookup(A), Ok(1));
    assert_eq!(set.lookup(C), Err(AttributeNotFound { uuid: C }));
    assert_eq!(set.attribute_ids(), &vec![A, B]);
}

#[test]
fn scan_end_without_match_stops_discovery() {
    let mut e = DiscoveryEngine::new(descriptor(), Vec::new());
    assert!(ChannelSet::from_engine(&e).is_none());
    assert_eq!(step(&mut e, DiscoveryEvent::DeviceAdded), DiscoveryAction::Inspect);
    let a = step(&mut e, DiscoveryEvent::Inspected { alias: "x".to_string(), paired: true });
    assert_eq!(a, DiscoveryAction::ReadAdvertised);
    let a = step(&mut e, DiscoveryEvent::Advertised { ids: vec![1, 2] });
    assert_eq!(a, DiscoveryAction::Release { reason: Rejection::ServiceNotAdvertised });
    step(&mut e, DiscoveryEvent::Released);
    assert_eq!(step(&mut e, DiscoveryEvent::ScanEnded), DiscoveryAction::StopDiscovery);
    assert_eq!(e.phase(), Phase::Finished);
}

#[test]
fn pairing_is_retried_five_times_at_most() {
    let mut e = DiscoveryEngine::new(descriptor(), vec!["Band".to_string()]);
    assert!(e.needs_pairing("Band"));
    assert!(!e.needs_pairing("band"));
    step(&mut e, DiscoveryEvent::DeviceAdded);
    let a = step(&mut e, DiscoveryEvent::Inspected { alias: "Band".to_string(), paired: false });
    assert_eq!(a, DiscoveryAction::Pair { attempt: 1 });
    for n in 2..=5u8 {
        assert_eq!(step(&mut e, DiscoveryEvent::PairResult { ok: false }), DiscoveryAction::Pair { attempt: n });
    }
    let a = step(&mut e, DiscoveryEvent::PairResult { ok: false });
    assert_eq!(a, DiscoveryAction::Release { reason: Rejection::PairingExhausted });
}

#[test]
fn already_paired_device_skips_pairing() {
    let mut e = DiscoveryEngine::new(descriptor(), vec!["Band".to_string()]);
    step(&mut e, DiscoveryEvent::DeviceAdded);
    let a = step(&mut e, DiscoveryEvent::Inspected { alias: "Band".to_string(), paired: true });
    assert_eq!(a, DiscoveryAction::ReadAdvertised);
}

#[test]
fn connect_is_retried_twice_at_most() {
    let mut e = DiscoveryEngine::new(descriptor(), Vec::new());
    step(&mut e, DiscoveryEvent::DeviceAdded);
    step(&mut e, DiscoveryEvent::Inspected { alias: "x".to_string(), paired: false });
    step(&mut e, DiscoveryEvent::Advertised { ids: vec![SERVICE] });
    let a = step(&mut e, DiscoveryEvent::ConnectionState { connected: false });
    assert_eq!(a, DiscoveryAction::Connect { attempt: 1 });
    assert_eq!(step(&mut e, DiscoveryEvent::ConnectResult { ok: false }), DiscoveryAction::Connect { attempt: 2 });
    let a = step(&mut e, DiscoveryEvent::ConnectResult { ok: false });
    assert_eq!(a, DiscoveryAction::Release { reason: Rejection::ConnectExhausted });
}

#[test]
fn connect_success_after_retry_and_missing_service() {
    let mut e = DiscoveryEngine::new(descriptor(), Vec::new());
    step(&mut e, DiscoveryEvent::DeviceAdded);
    step(&mut e, DiscoveryEvent::Inspected { alias: "x".to_string(), paired: false });
    step(&mut e, DiscoveryEvent::Advertised { ids: vec![SERVICE] });
    step(&mut e, DiscoveryEvent::ConnectionState { connected: false });
    step(&mut e, DiscoveryEvent::ConnectResult { ok: false });
    assert_eq!(step(&mut e, DiscoveryEvent::ConnectResult { ok: true }), DiscoveryAction::ListServices);
    let a = step(&mut e, DiscoveryEvent::Services { ids: vec![1] });
    assert_eq!(a, DiscoveryAction::Release { reason: Rejection::ServiceNotFound });
}

#[test]
fn device_error_releases_device() {
    let mut e = DiscoveryEngine::new(descriptor(), Vec::new());
    step(&mut e, DiscoveryEvent::DeviceAdded);
    let a = step(&mut e, DiscoveryEvent::DeviceError);
    assert_eq!(a, DiscoveryAction::Release { reason: Rejection::StackFailure });
    assert_eq!(step(&mut e, DiscoveryEvent::DeviceAdded), DiscoveryAction::Release { reason: Rejection::StackFailure });
    assert_eq!(step(&mut e, DiscoveryEvent::Released), DiscoveryAction::NextEvent);
}

#[test]
fn missing_attribute_rejects() {
    let mut e = DiscoveryEngine::new(descriptor(), Vec::new());
    walk_to_attributes(&mut e);
    let a = step(&mut e, DiscoveryEvent::Attributes { ids: vec![A] });
    assert_eq!(a, DiscoveryAction::Release { reason: Rejection::MissingAttribute });
}

#[test]
fn attribute_not_found_names_identifier() {
    let e = AttributeNotFound { uuid: 0xa1a2a3a4b1b2c1c2d1d2d3d4d5d6d7d8 };
    assert_eq!(e.message(), "Characteristic 'a1a2a3a4-b1b2-c1c2-d1d2-d3d4d5d6d7d8' not found.");
    let e = AttributeNotFound { uuid: A };
    assert_eq!(e.message(), "Characteristic '00002a37-0000-1000-8000-00805f9b34fb' not found.");
}

#[test]
fn flush_stops_when_nothing_arrives() {
    assert!(!flush_continues(FlushRead::TimedOut));
    assert!(!flush_continues(FlushRead::Failed));
    assert!(!flush_continues(FlushRead::Data { len: 0 }));
    assert!(flush_continues(FlushRead::Data { len: 12 }));
}
