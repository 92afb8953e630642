use blt::applications::{
    entry_text, generate_random_entries, get_blt_application, Adder, ApplicationKind,
    ApplicationMode, HeartRate, PingPong, CTS, ADDER_CHARACTERISTIC_UUID, ADDER_SERVICE_UUID,
    CTS_SERVICE_UUID, CURRENT_TIME_CHARACTERISTIC_UUID, PING_PONG_SERVICE_UUID,
};
use blt::cts::{
    clock_sync_write, date_time_to_vector, needs_clock_sync, vector_to_naive_date_time,
    CalendarTime, ClockError, DateTimeFields, ValidTime,
};
use blt::descriptor::ApplicationDescriptor;
use blt::server::CommandHandler;
use std::str::FromStr;

fn fields(year: u16, month: u8, day: u8, hour: u8, minute: u8, second: u8) -> DateTimeFields {
    DateTimeFields { year, month, day, hour, minute, second }
}

#[test]
fn timestamp_of_known_day() {
    let t = ValidTime::from_fields(fields(2015, 5, 15, 0, 0, 0)).unwrap();
    assert_eq!(t.timestamp, 1431648000);
    let t = ValidTime::from_fields(fields(1970, 1, 1, 0, 0, 1)).unwrap();
    assert_eq!(t.timestamp, 1);
    let t = ValidTime::from_fields(fields(2024, 2, 29, 23, 59, 59)).unwrap();
    assert_eq!(t.timestamp, 1709251199);
}

#[test]
fn invalid_days_and_times_are_rejected() {
    assert!(ValidTime::from_fields(fields(2023, 2, 29, 0, 0, 0)).is_none());
    assert!(ValidTime::from_fields(fields(2023, 4, 31, 0, 0, 0)).is_none());
    assert!(ValidTime::from_fields(fields(2023, 13, 1, 0, 0, 0)).is_none());
    assert!(ValidTime::from_fields(fields(2023, 1, 1, 24, 0, 0)).is_none());
    assert!(ValidTime::from_fields(fields(2023, 1, 1, 0, 0, 60)).is_none());
}

#[test]
fn wire_time_round_trip() {
    let now = CalendarTime::from_fields(fields(2026, 10, 19, 9, 30, 5)).unwrap();
    assert_eq!(now.weekday, 1);
    let bytes = date_time_to_vector(&now);
    assert_eq!(bytes, vec![0xea, 0x07, 10, 19, 9, 30, 5, 1, 0]);
    let back = vector_to_naive_date_time(&bytes).unwrap();
    assert_eq!(back.fields, now.date_time);
    assert!(vector_to_naive_date_time(&[0xe7, 0x07, 2, 30, 0, 0, 0]).is_none());
}

fn at(minute: u8) -> CalendarTime {
    CalendarTime::from_fields(fields(2026, 10, 19, 12, minute, 0)).unwrap()
}

#[test]
fn weekday_of_dates() {
    assert_eq!(CalendarTime::from_fields(fields(1970, 1, 1, 0, 0, 0)).unwrap().weekday, 4);
    assert_eq!(CalendarTime::from_fields(fields(2000, 2, 29, 23, 0, 0)).unwrap().weekday, 2);
    assert_eq!(CalendarTime::from_fields(fields(1, 1, 1, 0, 0, 0)).unwrap().weekday, 1);
    assert_eq!(CalendarTime::from_fields(fields(0, 1, 1, 0, 0, 0)).unwrap().weekday, 6);
    assert!(CalendarTime::from_fields(fields(2023, 2, 29, 0, 0, 0)).is_none());
}

#[test]
fn clock_sync_rewrites_beyond_ten_minutes() {
    let peer = date_time_to_vector(&at(0));
    let local = at(11);
    assert_eq!(clock_sync_write(&peer, &local), Ok(Some(date_time_to_vector(&local))));
    let peer = date_time_to_vector(&at(30));
    assert_eq!(clock_sync_write(&peer, &at(19)), Ok(Some(date_time_to_vector(&at(19)))));
}

#[test]
fn clock_sync_keeps_close_clocks() {
    let peer = date_time_to_vector(&at(0));
    assert_eq!(clock_sync_write(&peer, &at(9)), Ok(None));
    assert_eq!(clock_sync_write(&peer, &at(10)), Ok(None));
    assert_eq!(clock_sync_write(&peer, &at(0)), Ok(None));
}

#[test]
fn clock_sync_errors() {
    assert_eq!(clock_sync_write(&[1, 2, 3], &at(0)), Err(ClockError::InvalidServiceTime));
    let bad = vec![0xea, 0x07, 2, 30, 0, 0, 0, 1, 0];
    assert_eq!(clock_sync_write(&bad, &at(0)), Err(ClockError::InvalidServiceTime));
    let peer = date_time_to_vector(&at(0));
    // Month 0 names no day; the weekday is the one the day formula gives.
    let local = CalendarTime { date_time: fields(2026, 0, 1, 0, 0, 0), weekday: 1 };
    assert_eq!(clock_sync_write(&peer, &local), Err(ClockError::InvalidLocalTime));
}

#[test]
fn skew_threshold() {
    let a = ValidTime::from_fields(fields(2026, 1, 1, 0, 0, 0)).unwrap();
    let b = ValidTime::from_fields(fields(2026, 1, 1, 0, 10, 1)).unwrap();
    let c = ValidTime::from_fields(fields(2026, 1, 1, 0, 10, 0)).unwrap();
    assert!(needs_clock_sync(&a, &b));
    assert!(needs_clock_sync(&b, &a));
    assert!(!needs_clock_sync(&a, &c));
}

#[test]
fn registry_selects_by_name() {
    assert_eq!(get_blt_application("ping_pong"), Some(ApplicationKind::PingPong));
    assert_eq!(get_blt_application("PING_PONG"), Some(ApplicationKind::PingPong));
    assert_eq!(get_blt_application("Adder"), Some(ApplicationKind::Adder));
    assert_eq!(get_blt_application("CTS"), Some(ApplicationKind::Cts));
    assert_eq!(get_blt_application("Heart_Rate"), Some(ApplicationKind::HeartRate));
    assert_eq!(get_blt_application("heart"), None);
    assert_eq!(ApplicationKind::HeartRate.command_handler(), None);
    assert_eq!(ApplicationKind::Adder.command_handler(), Some(CommandHandler::Arithmetic));
    assert_eq!(ApplicationKind::PingPong.command_handler(), Some(CommandHandler::Echo));
    assert_eq!(ApplicationKind::Cts.command_handler(), None);
}

#[test]
fn mode_parsing() {
    assert_eq!(ApplicationMode::parse("Client"), Some(ApplicationMode::Client));
    assert_eq!(ApplicationMode::parse("SERVER"), Some(ApplicationMode::Server));
    assert_eq!(ApplicationMode::parse("peer"), None);
    assert_eq!(ApplicationMode::from_str("server"), Ok(ApplicationMode::Server));
    assert_eq!(ApplicationMode::from_str("x"), Err(()));
}

#[test]
fn descriptors_of_applications() {
    let d = PingPong.application_descriptor();
    assert_eq!(d.service_uuid(), PING_PONG_SERVICE_UUID);
    assert_eq!(d.characteristics_uuids().len(), 1);
    let d = Adder.application_descriptor();
    assert_eq!(d.service_uuid(), ADDER_SERVICE_UUID);
    assert_eq!(d.characteristics_uuids(), &vec![ADDER_CHARACTERISTIC_UUID]);
    let d = CTS.application_descriptor();
    assert_eq!(d.service_uuid(), CTS_SERVICE_UUID);
    assert!(d.read_policy(0).unwrap().read);
    assert!(!d.write_policy(0).unwrap().write);
    assert!(d.notify_policy(0).unwrap().notify);
    assert_eq!(HeartRate.application_descriptor().service_name(), "Heart Rate");
    assert_eq!(ApplicationKind::Cts.application_descriptor().service_uuid(), CTS_SERVICE_UUID);
    assert_eq!(ApplicationKind::Adder.application_descriptor().service_uuid(), ADDER_SERVICE_UUID);
    assert_eq!(ApplicationKind::PingPong.gatt_application().service_uuid(), PING_PONG_SERVICE_UUID);
    assert_eq!(ApplicationKind::HeartRate.gatt_application().service_name(), "Heart Rate");
}

#[test]
fn gatt_plan_follows_descriptor() {
    let d = ApplicationDescriptor::new(
        7,
        "Two",
        vec![10, 20],
        vec![None, ApplicationDescriptor::default_read()],
        vec![ApplicationDescriptor::default_write(), None],
        vec![None, ApplicationDescriptor::default_notify()],
    );
    let g = blt::applications::GattApplication::from(d);
    assert_eq!(g.service_uuid(), 7);
    assert_eq!(g.service_name(), "Two");
    assert_eq!(g.characteristics_controls(), 2);
    let plan = g.application_definition();
    assert_eq!(plan[0].uuid, 10);
    assert_eq!(plan[1].uuid, 20);
    assert_eq!(plan[0].write, ApplicationDescriptor::default_write());
    assert_eq!(plan[1].notify, ApplicationDescriptor::default_notify());
    assert_eq!(plan[1].control, 1);
    let g = CTS.gatt_application();
    assert_eq!(g.application_definition()[0].uuid, CURRENT_TIME_CHARACTERISTIC_UUID);
}

#[test]
fn client_requests() {
    assert_eq!(PingPong.client_messages(), vec!["ping", "pong", "random", "exit"]);
    assert_eq!(entry_text(&vec![1, 10, 0]), "1 10 0");
    assert_eq!(entry_text(&vec![4]), "4");
    let entries = generate_random_entries();
    let n = entries.len();
    assert!((3..=11).contains(&n));
    assert_eq!(entries[n - 2], "1 a");
    assert_eq!(entries[n - 1], "exit");
    for e in &entries[..n - 2] {
        let values: Vec<&str> = e.split(' ').collect();
        assert!((1..=4).contains(&values.len()));
        for v in values {
            let x: u32 = v.parse().unwrap();
            assert!(x <= 10);
        }
    }
}
