//! The per-inverter change-detection filter: given the current list of
//! inverter readings and the previous poll's list, emit a point only for
//! readings that changed.
//!
//! A current reading is matched against the first previous reading with the
//! same serial number. It counts as changed when no such previous reading
//! exists or when any field differs — a new report time with the same watts
//! still counts, so that liveness changes reach the sink.

use vstd::prelude::*;

use crate::inverters::Inverter;
use crate::point::{points_view, FieldValue, Point, PointV};

verus! {

/// The first previous reading with the given serial number, if any.
pub open spec fn find_previous(previous: Seq<Inverter>, serial_number: Seq<char>) -> Option<
    Inverter,
>
    decreases previous.len(),
{
    if previous.len() == 0 {
        None
    } else if previous[0].serial_number@ == serial_number {
        Some(previous[0])
    } else {
        find_previous(previous.drop_first(), serial_number)
    }
}

/// Whether a current reading counts as changed against the previous poll:
/// no previous reading has its serial number, or the first one that does
/// differs in some field.
pub open spec fn reading_changed(previous: Seq<Inverter>, reading: Inverter) -> bool {
    match find_previous(previous, reading.serial_number@) {
        None => true,
        Some(p) => p@ != reading@,
    }
}

/// The current readings that count as changed, in current-list order.
pub open spec fn changed_readings(current: Seq<Inverter>, previous: Seq<Inverter>) -> Seq<Inverter>
    decreases current.len(),
{
    if current.len() == 0 {
        Seq::empty()
    } else {
        changed_readings(current.drop_last(), previous) + if reading_changed(
            previous,
            current.last(),
        ) {
            seq![current.last()]
        } else {
            Seq::empty()
        }
    }
}

/// The point one inverter reading maps to.
pub open spec fn inverter_point(reading: Inverter) -> PointV {
    PointV {
        measurement: "inverter"@,
        timestamp: Some(reading.last_report_date),
        tags: seq![("serial_number"@, reading.serial_number@)],
        fields: seq![
            ("last_watts"@, FieldValue::Integer(reading.last_report_watts as i64)),
            ("max_watts"@, FieldValue::Integer(reading.max_report_watts as i64)),
        ],
    }
}

/// The points of the changed readings, in current-list order.
pub open spec fn inverter_points(current: Seq<Inverter>, previous: Seq<Inverter>) -> Seq<PointV> {
    changed_readings(current, previous).map_values(|r: Inverter| inverter_point(r))
}

/// The first previous reading with the given serial number, by linear
/// search.
fn find_by_serial<'a>(previous: &'a [Inverter], serial_number: &String) -> (r: Option<
    &'a Inverter,
>)
    ensures
        match r {
            Some(p) => find_previous(previous@, serial_number@) == Some(*p),
            None => find_previous(previous@, serial_number@) is None,
        },
{
    proof {
        assert(previous@.skip(0) =~= previous@);
    }
    let mut j: usize = 0;
    while j < previous.len()
        invariant
            j <= previous@.len(),
            find_previous(previous@, serial_number@) == find_previous(
                previous@.skip(j as int),
                serial_number@,
            ),
        decreases previous@.len() - j,
    {
        proof {
            assert(previous@.skip(j as int)[0] == previous@[j as int]);
        }
        if previous[j].serial_number == *serial_number {
            return Some(&previous[j]);
        }
        proof {
            assert(previous@.skip(j as int).drop_first() =~= previous@.skip(j + 1));
        }
        j += 1;
    }
    proof {
        assert(previous@.skip(previous@.len() as int) =~= Seq::<Inverter>::empty());
    }
    None
}

/// Maps one inverter reading to its point.
pub fn inverter_to_point(inverter: &Inverter) -> (r: Point)
    ensures
        r@ == inverter_point(*inverter),
{
    let point = Point::new("inverter")
        .add_timestamp(inverter.last_report_date)
        .add_tag("serial_number", inverter.serial_number.as_str())
        .add_field("last_watts", FieldValue::Integer(inverter.last_report_watts as i64))
        .add_field("max_watts", FieldValue::Integer(inverter.max_report_watts as i64));
    proof {
        assert(point@ =~= inverter_point(*inverter));
    }
    point
}

/// Maps the current readings to points, suppressing every reading that is
/// unchanged since the previous poll. Output order matches the current
/// list, filtered.
pub fn inverters_to_points(inverters: &[Inverter], last_inverters: &[Inverter]) -> (points: Vec<
    Point,
>)
    ensures
        points_view(points@) == inverter_points(inverters@, last_inverters@),
{
    let mut points: Vec<Point> = Vec::new();
    let mut i: usize = 0;
    while i < inverters.len()
        invariant
            i <= inverters@.len(),
            points_view(points@) == inverter_points(inverters@.take(i as int), last_inverters@),
        decreases inverters@.len() - i,
    {
        let ghost points_before = points@;
        let inverter = &inverters[i];
        proof {
            assert(*inverter == inverters@[i as int]);
        }
        let changed = match find_by_serial(last_inverters, &inverter.serial_number) {
            None => true,
            Some(previous) => !previous.same_reading(inverter),
        };
        if changed {
            points.push(inverter_to_point(inverter));
        }
        proof {
            assert(changed == reading_changed(last_inverters@, inverters@[i as int]));
            assert(inverters@.take(i + 1).drop_last() =~= inverters@.take(i as int));
            assert(inverters@.take(i + 1).last() == inverters@[i as int]);
            assert(changed_readings(inverters@.take(i + 1), last_inverters@)
                == changed_readings(inverters@.take(i as int), last_inverters@) + (if changed {
                seq![inverters@[i as int]]
            } else {
                Seq::empty()
            }));
            if changed {
                assert(points@ == points_before.push(points@.last()));
                assert(points@.last()@ == inverter_point(inverters@[i as int]));
            } else {
                assert(points@ == points_before);
            }
            let cur = changed_readings(inverters@.take(i + 1), last_inverters@);
            let prev_changed = changed_readings(inverters@.take(i as int), last_inverters@);
            assert(points_view(points_before) == prev_changed.map_values(
                |r: Inverter| inverter_point(r),
            ));
            assert(points_view(points_before).len() == prev_changed.len());
            assert(points@.len() == cur.len());
            assert forall|idx: int| 0 <= idx < cur.len() implies points_view(points@)[idx]
                == inverter_point(cur[idx]) by {
                if idx < prev_changed.len() {
                    assert(points@[idx] == points_before[idx]);
                    assert(cur[idx] == prev_changed[idx]);
                    assert(points_view(points_before)[idx] == inverter_point(prev_changed[idx]));
                } else {
                    assert(cur[idx] == inverters@[i as int]);
                    assert(points@[idx] == points@.last());
                }
            }
            assert(points_view(points@) =~= inverter_points(
                inverters@.take(i + 1),
                last_inverters@,
            ));
        }
        i += 1;
    }
    proof {
        assert(inverters@.take(inverters@.len() as int) =~= inverters@);
    }
    points
}

/// First poll: with no previous readings, every current reading counts as
/// changed, so filtering returns the current list unchanged.
pub proof fn lemma_empty_previous_keeps_all(current: Seq<Inverter>)
    ensures
        changed_readings(current, Seq::empty()) == current,
        inverter_points(current, Seq::empty()) == current.map_values(
            |r: Inverter| inverter_point(r),
        ),
    decreases current.len(),
{
    if current.len() == 0 {
        assert(changed_readings(current, Seq::empty()) =~= current);
    } else {
        lemma_empty_previous_keeps_all(current.drop_last());
        assert(changed_readings(current, Seq::empty()) =~= current);
    }
}

/// Whether every pair of readings carries a different serial number — the
/// snapshot invariant for per-inverter readings.
pub open spec fn distinct_serials(readings: Seq<Inverter>) -> bool {
    forall|i: int, j: int|
        0 <= i < j < readings.len() ==> readings[i].serial_number@ != readings[j].serial_number@
}

/// With distinct serial numbers, looking a reading's own serial number up
/// finds exactly that reading.
proof fn lemma_find_previous_distinct(readings: Seq<Inverter>, k: int)
    requires
        distinct_serials(readings),
        0 <= k < readings.len(),
    ensures
        find_previous(readings, readings[k].serial_number@) == Some(readings[k]),
    decreases k,
{
    if k > 0 {
        let rest = readings.drop_first();
        assert forall|i: int, j: int| 0 <= i < j < rest.len() implies rest[i].serial_number@
            != rest[j].serial_number@ by {
            assert(rest[i] == readings[i + 1]);
            assert(rest[j] == readings[j + 1]);
        }
        lemma_find_previous_distinct(rest, k - 1);
        assert(rest[k - 1] == readings[k]);
    }
}

/// An unchanged snapshot is fully suppressed: filtering a current list that
/// equals the previous list (all fields equal per serial number, serial
/// numbers distinct) returns nothing.
pub proof fn lemma_identical_snapshot_suppressed(readings: Seq<Inverter>)
    requires
        distinct_serials(readings),
    ensures
        changed_readings(readings, readings) == Seq::<Inverter>::empty(),
        inverter_points(readings, readings) == Seq::<PointV>::empty(),
{
    lemma_prefix_of_identical_suppressed(readings, readings.len() as int);
    assert(readings.take(readings.len() as int) =~= readings);
    assert(inverter_points(readings, readings) =~= Seq::<PointV>::empty());
}

/// Every prefix of an unchanged snapshot filters to nothing.
proof fn lemma_prefix_of_identical_suppressed(readings: Seq<Inverter>, m: int)
    requires
        distinct_serials(readings),
        0 <= m <= readings.len(),
    ensures
        changed_readings(readings.take(m), readings) == Seq::<Inverter>::empty(),
    decreases m,
{
    if m == 0 {
        assert(changed_readings(readings.take(m), readings) =~= Seq::<Inverter>::empty());
    } else {
        lemma_prefix_of_identical_suppressed(readings, m - 1);
        lemma_find_previous_distinct(readings, m - 1);
        assert(readings.take(m).drop_last() =~= readings.take(m - 1));
        assert(readings.take(m).last() == readings[m - 1]);
        assert(changed_readings(readings.take(m), readings) =~= Seq::<Inverter>::empty());
    }
}

/// A reading whose matched previous entry exists still reaches the output
/// whenever the previous report time differs, even with all other fields
/// equal: liveness changes count as changes.
pub proof fn lemma_new_report_time_still_emitted(
    current: Seq<Inverter>,
    previous: Seq<Inverter>,
    k: int,
)
    requires
        0 <= k < current.len(),
        find_previous(previous, current[k].serial_number@) matches Some(p) && p.last_report_date
            != current[k].last_report_date,
    ensures
        changed_readings(current, previous).contains(current[k]),
        inverter_points(current, previous).contains(inverter_point(current[k])),
{
    let p = find_previous(previous, current[k].serial_number@)->0;
    assert(p@.last_report_date != current[k]@.last_report_date);
    lemma_changed_reading_in_output(current, previous, k);
    let out = changed_readings(current, previous);
    let i = choose|i: int| 0 <= i < out.len() && out[i] == current[k];
    assert(inverter_points(current, previous)[i] == inverter_point(current[k]));
}

/// Every reading that counts as changed appears in the filter's output.
proof fn lemma_changed_reading_in_output(current: Seq<Inverter>, previous: Seq<Inverter>, k: int)
    requires
        0 <= k < current.len(),
        reading_changed(previous, current[k]),
    ensures
        changed_readings(current, previous).contains(current[k]),
    decreases current.len(),
{
    let out = changed_readings(current, previous);
    if k == current.len() - 1 {
        assert(out[out.len() - 1] == current[k]);
    } else {
        lemma_changed_reading_in_output(current.drop_last(), previous, k);
        assert(current.drop_last()[k] == current[k]);
        let sub = changed_readings(current.drop_last(), previous);
        let i = choose|i: int| 0 <= i < sub.len() && sub[i] == current[k];
        assert(out[i] == current[k]);
    }
}

} // verus!
