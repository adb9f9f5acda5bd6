use chrono::TimeZone;
use octopower::point::{FieldValue, Point};
use octopower::production::{AcBatteryState, Details, Device, DeviceType, MeasurementType, Production};
use octopower::production_points::{device_production_to_point, production_to_points, tag_for_measurement_type};
use octopower::values::FloatBits;

fn fb(value: f64) -> FloatBits {
    FloatBits { bits: value.to_bits() }
}

fn float_field(value: f64) -> FieldValue {
    FieldValue::Float(fb(value))
}

fn eim_device(measurement_type: Option<MeasurementType>, reading_time: i64, w_now: f64, details: Option<Details>) -> Device {
    Device {
        type_: DeviceType::Eim,
        active_count: 0,
        measurement_type,
        reading_time,
        w_now: fb(w_now),
        wh_now: None,
        state: None,
        lines: None,
        details,
    }
}

#[test]
fn test_production_to_points() {
    let reading_time = chrono::Utc
        .with_ymd_and_hms(2025, 1, 1, 10, 30, 0)
        .unwrap()
        .timestamp();
    assert_eq!(
        production_to_points(&Production {
            production: vec![
                Device {
                    type_: DeviceType::Inverters,
                    active_count: 6,
                    measurement_type: None,
                    reading_time,
                    w_now: fb(123.0),
                    wh_now: None,
                    state: None,
                    lines: None,
                    details: None,
                },
                eim_device(
                    Some(MeasurementType::Production),
                    reading_time,
                    66.0,
                    Some(Details { wh_lifetime: fb(4242.0), ..Default::default() }),
                ),
            ],
            consumption: vec![
                eim_device(
                    Some(MeasurementType::TotalConsumption),
                    reading_time,
                    61.0,
                    Some(Details { wh_lifetime: fb(1371.0), ..Default::default() }),
                ),
                eim_device(
                    Some(MeasurementType::NetConsumption),
                    reading_time,
                    -1.0,
                    Some(Details { wh_lifetime: fb(0.001), ..Default::default() }),
                ),
            ],
            storage: vec![Device {
                type_: DeviceType::Acb,
                active_count: 0,
                measurement_type: None,
                reading_time: 0,
                w_now: fb(0.0),
                wh_now: Some(fb(0.0)),
                state: Some(AcBatteryState::Idle),
                details: None,
                lines: None,
            }],
        }),
        vec![
            Point::new("inverters")
                .add_timestamp(reading_time)
                .add_field("w_now", float_field(123.0)),
            Point::new("eim")
                .add_timestamp(reading_time)
                .add_tag("measurement_type", "producing")
                .add_field("w_now", float_field(66.0))
                .add_field("wh_lifetime", float_field(4242.0)),
            Point::new("eim")
                .add_timestamp(reading_time)
                .add_tag("measurement_type", "consuming")
                .add_field("w_now", float_field(61.0))
                .add_field("wh_lifetime", float_field(1371.0)),
            Point::new("eim")
                .add_timestamp(reading_time)
                .add_tag("measurement_type", "net")
                .add_field("w_now", float_field(-1.0))
                .add_field("wh_lifetime", float_field(0.001)),
        ]
    );
}

#[test]
fn eim_missing_measurement_type_skipped() {
    let device = eim_device(None, 17, 55.5, Some(Details::default()));
    assert_eq!(device_production_to_point(&device), None);
}

#[test]
fn eim_missing_details_skipped() {
    let device = eim_device(Some(MeasurementType::Production), 17, 55.5, None);
    assert_eq!(device_production_to_point(&device), None);
}

#[test]
fn unsupported_kinds_skipped() {
    for type_ in [DeviceType::Acb, DeviceType::Rgms, DeviceType::Pmus] {
        let device = Device {
            type_,
            active_count: 1,
            measurement_type: Some(MeasurementType::Production),
            reading_time: 17,
            w_now: fb(5.0),
            wh_now: None,
            state: None,
            lines: None,
            details: Some(Details::default()),
        };
        assert_eq!(device_production_to_point(&device), None);
    }
}

#[test]
fn mapper_keeps_source_order_and_count() {
    let snapshot = Production {
        production: vec![
            eim_device(None, 1, 1.0, None),
            eim_device(Some(MeasurementType::Production), 2, 2.0, Some(Details::default())),
        ],
        consumption: vec![
            eim_device(Some(MeasurementType::NetConsumption), 3, 3.0, Some(Details::default())),
            eim_device(Some(MeasurementType::TotalConsumption), 4, 4.0, None),
        ],
        storage: vec![],
    };
    let points = production_to_points(&snapshot);
    // Four readings, two skipped (one missing details, one missing the
    // measurement role), and the kept points keep source order.
    assert_eq!(points.len(), 2);
    assert_eq!(points[0].timestamp, Some(2));
    assert_eq!(points[1].timestamp, Some(3));
}

#[test]
fn empty_snapshot_maps_to_nothing() {
    let snapshot = Production { production: vec![], consumption: vec![], storage: vec![] };
    assert_eq!(production_to_points(&snapshot), vec![]);
}

#[test]
fn measurement_type_tags() {
    assert_eq!(tag_for_measurement_type(MeasurementType::Production), "producing");
    assert_eq!(tag_for_measurement_type(MeasurementType::TotalConsumption), "consuming");
    assert_eq!(tag_for_measurement_type(MeasurementType::NetConsumption), "net");
}

#[test]
fn details_default_is_all_zero() {
    let details = Details::default();
    assert_eq!(details.wh_lifetime, fb(0.0));
    assert_eq!(details.rms_voltage, fb(0.0));
    assert_eq!(details.varh_lag_today, fb(0.0));
}
