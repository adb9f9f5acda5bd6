use chrono::TimeZone;
use octopower::inverter_points::{inverter_to_point, inverters_to_points};
use octopower::inverters::Inverter;
use octopower::point::{FieldValue, Point};

fn inverter(serial_number: &str, last_report_date: i64, last_report_watts: u32, max_report_watts: u32) -> Inverter {
    Inverter {
        serial_number: serial_number.to_string(),
        last_report_date,
        dev_type: 1,
        last_report_watts,
        max_report_watts,
    }
}

fn inverter_point(serial_number: &str, timestamp: i64, last_watts: i64, max_watts: i64) -> Point {
    Point::new("inverter")
        .add_timestamp(timestamp)
        .add_tag("serial_number", serial_number)
        .add_field("last_watts", FieldValue::Integer(last_watts))
        .add_field("max_watts", FieldValue::Integer(max_watts))
}

#[test]
fn test_inverters_to_points() {
    let last_report_date = chrono::Utc
        .with_ymd_and_hms(2025, 1, 1, 10, 30, 0)
        .unwrap()
        .timestamp();
    let last_report_date_old = chrono::Utc
        .with_ymd_and_hms(2025, 1, 1, 2, 30, 0)
        .unwrap()
        .timestamp();
    assert_eq!(inverters_to_points(&[], &[]), vec![]);
    let inverter1 = inverter("1", last_report_date, 42, 66);
    let inverter2_old = inverter("2", last_report_date_old, 22, 600);
    let inverter2 = inverter("2", last_report_date, 33, 600);
    assert_eq!(
        inverters_to_points(&[inverter1.clone()], &[]),
        vec![inverter_point("1", last_report_date, 42, 66)]
    );
    assert_eq!(
        inverters_to_points(&[inverter1.clone(), inverter2.clone()], &[]),
        vec![
            inverter_point("1", last_report_date, 42, 66),
            inverter_point("2", last_report_date, 33, 600),
        ]
    );
    assert_eq!(
        inverters_to_points(&[inverter1.clone(), inverter2], &[inverter1, inverter2_old]),
        vec![inverter_point("2", last_report_date, 33, 600)]
    );
}

#[test]
fn first_poll_emits_everything() {
    let current = [inverter("a", 10, 1, 2), inverter("b", 11, 3, 4), inverter("c", 12, 5, 6)];
    let points = inverters_to_points(&current, &[]);
    assert_eq!(
        points,
        vec![
            inverter_point("a", 10, 1, 2),
            inverter_point("b", 11, 3, 4),
            inverter_point("c", 12, 5, 6),
        ]
    );
}

#[test]
fn identical_snapshots_suppressed() {
    let readings = [inverter("a", 10, 1, 2), inverter("b", 11, 3, 4)];
    assert_eq!(inverters_to_points(&readings, &readings), vec![]);
}

#[test]
fn new_report_time_counts_as_change() {
    let previous = [inverter("a", 10, 1, 2), inverter("b", 11, 3, 4)];
    // Same watts everywhere; only "b" re-reported at a later time.
    let current = [inverter("a", 10, 1, 2), inverter("b", 19, 3, 4)];
    assert_eq!(
        inverters_to_points(&current, &previous),
        vec![inverter_point("b", 19, 3, 4)]
    );
}

#[test]
fn changed_watts_count_as_change() {
    let previous = [inverter("a", 10, 1, 2)];
    let current = [inverter("a", 10, 7, 7)];
    assert_eq!(
        inverters_to_points(&current, &previous),
        vec![inverter_point("a", 10, 7, 7)]
    );
}

#[test]
fn unknown_serial_counts_as_change() {
    let previous = [inverter("a", 10, 1, 2)];
    let current = [inverter("a", 10, 1, 2), inverter("d", 13, 9, 9)];
    assert_eq!(
        inverters_to_points(&current, &previous),
        vec![inverter_point("d", 13, 9, 9)]
    );
}

#[test]
fn inverter_point_shape() {
    let point = inverter_to_point(&inverter("77", 1234, 250, 300));
    assert_eq!(point.measurement, "inverter");
    assert_eq!(point.timestamp, Some(1234));
    assert_eq!(point.tags, vec![("serial_number".to_string(), "77".to_string())]);
    assert_eq!(
        point.fields,
        vec![
            ("last_watts".to_string(), FieldValue::Integer(250)),
            ("max_watts".to_string(), FieldValue::Integer(300)),
        ]
    );
}

#[test]
fn same_reading_compares_every_field() {
    let a = inverter("a", 10, 1, 2);
    assert!(a.same_reading(&inverter("a", 10, 1, 2)));
    assert!(!a.same_reading(&inverter("b", 10, 1, 2)));
    assert!(!a.same_reading(&inverter("a", 11, 1, 2)));
    assert!(!a.same_reading(&inverter("a", 10, 2, 2)));
    assert!(!a.same_reading(&inverter("a", 10, 1, 3)));
    let mut other_type = inverter("a", 10, 1, 2);
    other_type.dev_type = 2;
    assert!(!a.same_reading(&other_type));
}
