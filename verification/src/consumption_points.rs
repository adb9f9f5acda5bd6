//! Maps consumption records to time-series points.

use vstd::prelude::*;

use crate::api::{meter_type_label, MeterType};
use crate::consumption::Consumption;
use crate::point::{points_view, FieldValue, Point, PointV};

verus! {

/// The point one consumption record maps to: tagged with the meter type,
/// meter point and serial number, stamped with the end of its interval.
pub open spec fn reading_point(
    measurement: Seq<char>,
    meter_type: MeterType,
    mpxn: Seq<char>,
    serial: Seq<char>,
    reading: Consumption,
) -> PointV {
    PointV {
        measurement,
        timestamp: Some(reading.interval_end),
        tags: seq![
            ("type"@, meter_type_label(meter_type)),
            ("mpxn"@, mpxn),
            ("serial"@, serial),
        ],
        fields: seq![("consumption"@, FieldValue::Float(reading.consumption))],
    }
}

/// Maps one consumption record to its point.
pub fn point_for_reading(
    measurement: &str,
    meter_type: MeterType,
    mpxn: &str,
    serial: &str,
    reading: Consumption,
) -> (r: Point)
    ensures
        r@ == reading_point(measurement@, meter_type, mpxn@, serial@, reading),
{
    let point = Point::new(measurement)
        .add_timestamp(reading.interval_end)
        .add_tag("type", meter_type.as_str())
        .add_tag("mpxn", mpxn)
        .add_tag("serial", serial)
        .add_field("consumption", FieldValue::Float(reading.consumption));
    proof {
        assert(point@ =~= reading_point(measurement@, meter_type, mpxn@, serial@, reading));
    }
    point
}

/// Maps a page of consumption records to points, one per record, in
/// source order.
pub fn readings_to_points(
    measurement: &str,
    meter_type: MeterType,
    mpxn: &str,
    serial: &str,
    readings: &[Consumption],
) -> (points: Vec<Point>)
    ensures
        points_view(points@) == readings@.map_values(
            |c: Consumption| reading_point(measurement@, meter_type, mpxn@, serial@, c),
        ),
{
    let ghost to_point = |c: Consumption| reading_point(measurement@, meter_type, mpxn@, serial@, c);
    let mut points: Vec<Point> = Vec::new();
    let mut i: usize = 0;
    while i < readings.len()
        invariant
            i <= readings@.len(),
            points_view(points@) == readings@.take(i as int).map_values(to_point),
            to_point == (|c: Consumption| reading_point(measurement@, meter_type, mpxn@, serial@, c)),
        decreases readings@.len() - i,
    {
        let ghost points_before = points@;
        points.push(point_for_reading(measurement, meter_type, mpxn, serial, readings[i]));
        proof {
            assert(points_before.len() == readings@.take(i as int).map_values(to_point).len());
            assert(points_before.len() == i);
            assert(points@ == points_before.push(points@.last()));
            assert(points@.last()@ == to_point(readings@[i as int]));
            assert forall|idx: int| 0 <= idx < points@.len() implies points_view(points@)[idx]
                == to_point(readings@.take(i + 1)[idx]) by {
                if idx < points_before.len() {
                    assert(points@[idx] == points_before[idx]);
                    assert(points_view(points_before)[idx] == to_point(readings@.take(i as int)[idx]));
                    assert(readings@.take(i as int)[idx] == readings@.take(i + 1)[idx]);
                }
            }
            assert(points_view(points@) =~= readings@.take(i + 1).map_values(to_point));
        }
        i += 1;
    }
    proof {
        assert(readings@.take(readings@.len() as int) =~= readings@);
    }
    points
}

} // verus!
