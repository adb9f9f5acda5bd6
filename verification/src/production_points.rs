//! The record-to-point mapper: turns each device reading of a production
//! snapshot into zero or one time-series point.
//!
//! Aggregate meter readings need both a measurement role and a detail bag;
//! a reading missing either is skipped, as is every unsupported device kind.
//! Points come out in the same relative order as the readings appear in the
//! snapshot: production entries first, then consumption entries.

use vstd::prelude::*;

use crate::point::{points_view, FieldValue, Point, PointV};
use crate::production::{Device, DeviceType, MeasurementType, Production};

verus! {

/// The tag value recorded for an aggregate meter's measurement role.
pub open spec fn measurement_type_tag(measurement_type: MeasurementType) -> Seq<char> {
    match measurement_type {
        MeasurementType::Production => "producing"@,
        MeasurementType::TotalConsumption => "consuming"@,
        MeasurementType::NetConsumption => "net"@,
    }
}

/// The point a single device reading maps to, or `None` for an incomplete
/// aggregate meter reading or an unsupported device kind.
pub open spec fn device_point(device: Device) -> Option<PointV> {
    match device.type_ {
        DeviceType::Eim => if device.measurement_type is Some && device.details is Some {
            Some(PointV {
                measurement: "eim"@,
                timestamp: Some(device.reading_time),
                tags: seq![("measurement_type"@, measurement_type_tag(device.measurement_type->0))],
                fields: seq![
                    ("w_now"@, FieldValue::Float(device.w_now)),
                    ("wh_lifetime"@, FieldValue::Float(device.details->0.wh_lifetime)),
                ],
            })
        } else {
            None
        },
        DeviceType::Inverters => Some(PointV {
            measurement: "inverters"@,
            timestamp: Some(device.reading_time),
            tags: Seq::empty(),
            fields: seq![("w_now"@, FieldValue::Float(device.w_now))],
        }),
        _ => None,
    }
}

/// Whether a reading maps to a point at all.
pub open spec fn emits_point(device: Device) -> bool {
    device_point(device) is Some
}

/// The points of a reading sequence, in source order.
pub open spec fn points_of(devices: Seq<Device>) -> Seq<PointV>
    decreases devices.len(),
{
    if devices.len() == 0 {
        Seq::empty()
    } else {
        points_of(devices.drop_last()) + match device_point(devices.last()) {
            Some(p) => seq![p],
            None => Seq::empty(),
        }
    }
}

/// The points of a whole snapshot: production entries first, then
/// consumption entries, each in source order. Storage entries carry no
/// supported kind and are never mapped.
pub open spec fn snapshot_points(production: Production) -> Seq<PointV> {
    points_of(production.production@ + production.consumption@)
}

/// The tag string for a measurement role.
pub fn tag_for_measurement_type(measurement_type: MeasurementType) -> (r: &'static str)
    ensures
        r@ == measurement_type_tag(measurement_type),
{
    match measurement_type {
        MeasurementType::Production => "producing",
        MeasurementType::TotalConsumption => "consuming",
        MeasurementType::NetConsumption => "net",
    }
}

/// Maps one device reading to its point, or `None` if the reading is
/// incomplete or of an unsupported kind.
pub fn device_production_to_point(device: &Device) -> (r: Option<Point>)
    ensures
        r is Some <==> emits_point(*device),
        r matches Some(p) ==> p@ == device_point(*device)->0,
{
    match device.type_ {
        DeviceType::Eim => {
            let measurement_type = match device.measurement_type {
                Some(measurement_type) => measurement_type,
                None => {
                    return None;
                },
            };
            let details = match &device.details {
                Some(details) => details,
                None => {
                    return None;
                },
            };
            let point = Point::new("eim")
                .add_timestamp(device.reading_time)
                .add_tag("measurement_type", tag_for_measurement_type(measurement_type))
                .add_field("w_now", FieldValue::Float(device.w_now))
                .add_field("wh_lifetime", FieldValue::Float(details.wh_lifetime));
            proof {
                assert(point@ =~= device_point(*device)->0);
            }
            Some(point)
        },
        DeviceType::Inverters => {
            let point = Point::new("inverters")
                .add_timestamp(device.reading_time)
                .add_field("w_now", FieldValue::Float(device.w_now));
            proof {
                assert(point@ =~= device_point(*device)->0);
            }
            Some(point)
        },
        _ => None,
    }
}

/// Maps a whole snapshot to its points: production entries first, then
/// consumption entries, skipping incomplete and unsupported readings.
pub fn production_to_points(production: &Production) -> (points: Vec<Point>)
    ensures
        points_view(points@) == snapshot_points(*production),
{
    let ghost prod: Seq<Device> = production.production@;
    let ghost cons: Seq<Device> = production.consumption@;
    let mut points: Vec<Point> = Vec::new();

    let mut i: usize = 0;
    while i < production.production.len()
        invariant
            i <= prod.len(),
            prod == production.production@,
            points_view(points@) == points_of(prod.take(i as int)),
        decreases prod.len() - i,
    {
        let ghost points_before = points@;
        match device_production_to_point(&production.production[i]) {
            Some(point) => points.push(point),
            None => {},
        }
        proof {
            assert(prod.take(i + 1).drop_last() =~= prod.take(i as int));
            assert(prod.take(i + 1).last() == prod[i as int]);
            assert(points_view(points@) =~= points_of(prod.take(i + 1)));
        }
        i += 1;
    }

    proof {
        assert(prod.take(prod.len() as int) =~= prod);
        assert((prod + cons.take(0)) =~= prod);
    }

    let mut j: usize = 0;
    while j < production.consumption.len()
        invariant
            j <= cons.len(),
            prod == production.production@,
            cons == production.consumption@,
            points_view(points@) == points_of(prod + cons.take(j as int)),
        decreases cons.len() - j,
    {
        let ghost points_before = points@;
        match device_production_to_point(&production.consumption[j]) {
            Some(point) => points.push(point),
            None => {},
        }
        proof {
            assert((prod + cons.take(j + 1)).drop_last() =~= prod + cons.take(j as int));
            assert((prod + cons.take(j + 1)).last() == cons[j as int]);
            assert(points_view(points@) =~= points_of(prod + cons.take(j + 1)));
        }
        j += 1;
    }

    proof {
        assert(prod + cons.take(cons.len() as int) =~= prod + cons);
    }
    points
}

/// An aggregate meter reading missing its measurement role, or missing its
/// detail bag, yields no point, regardless of its other fields.
pub proof fn lemma_incomplete_meter_reading_skipped(device: Device)
    requires
        device.type_ is Eim,
        device.measurement_type is None || device.details is None,
    ensures
        device_point(device) is None,
{
}

/// The mapper keeps source order and drops exactly the skipped readings:
/// the point sequence is the in-order image of the readings that map to a
/// point, so its length is the reading count minus the skipped count.
pub proof fn lemma_mapper_order_and_count(devices: Seq<Device>)
    ensures
        points_of(devices) == devices.filter(|d: Device| emits_point(d)).map_values(
            |d: Device| device_point(d)->0,
        ),
        points_of(devices).len() == devices.len() - devices.filter(
            |d: Device| !emits_point(d),
        ).len(),
    decreases devices.len(),
{
    reveal(Seq::filter);
    let kept = |d: Device| emits_point(d);
    let dropped = |d: Device| !emits_point(d);
    let to_point = |d: Device| device_point(d)->0;
    if devices.len() == 0 {
        assert(devices.filter(kept) =~= Seq::<Device>::empty());
        assert(devices.filter(dropped) =~= Seq::<Device>::empty());
        assert(points_of(devices) =~= devices.filter(kept).map_values(to_point));
    } else {
        let rest = devices.drop_last();
        lemma_mapper_order_and_count(rest);
        if emits_point(devices.last()) {
            assert(devices.filter(kept) == rest.filter(kept).push(devices.last()));
            assert(devices.filter(dropped) == rest.filter(dropped));
            assert(devices.filter(kept).map_values(to_point) =~= rest.filter(kept).map_values(
                to_point,
            ) + seq![to_point(devices.last())]);
        } else {
            assert(devices.filter(kept) == rest.filter(kept));
            assert(devices.filter(dropped) == rest.filter(dropped).push(devices.last()));
        }
        assert(points_of(devices) =~= devices.filter(kept).map_values(to_point));
    }
}

} // verus!
