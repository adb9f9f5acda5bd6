use vstd::prelude::*;

use crate::values::FloatBits;

verus! {

/// A numeric field value on a time-series point.
///
/// The sink stores either a 64-bit float (carried here as its bit pattern)
/// or a 64-bit signed integer.
#[derive(Clone, Copy, Debug, PartialEq, Eq, Structural)]
pub enum FieldValue {
    Float(FloatBits),
    Integer(i64),
}

/// The mathematical value of a [`Point`]: measurement name, optional
/// timestamp in whole seconds, and the tag and field lists in insertion
/// order.
#[verifier::ext_equal]
pub ghost struct PointV {
    pub measurement: Seq<char>,
    pub timestamp: Option<i64>,
    pub tags: Seq<(Seq<char>, Seq<char>)>,
    pub fields: Seq<(Seq<char>, FieldValue)>,
}

/// One row destined for the time-series sink: a measurement name, an
/// optional timestamp (epoch seconds), string tags used for indexing, and
/// numeric fields. Built once by the mappers and never mutated afterwards.
#[derive(Clone, Debug, PartialEq)]
pub struct Point {
    pub measurement: String,
    pub timestamp: Option<i64>,
    pub tags: Vec<(String, String)>,
    pub fields: Vec<(String, FieldValue)>,
}

impl View for Point {
    type V = PointV;

    open spec fn view(&self) -> PointV {
        PointV {
            measurement: self.measurement@,
            timestamp: self.timestamp,
            tags: self.tags@.map_values(|t: (String, String)| (t.0@, t.1@)),
            fields: self.fields@.map_values(|f: (String, FieldValue)| (f.0@, f.1)),
        }
    }
}

/// The views of a sequence of points, in order.
pub open spec fn points_view(s: Seq<Point>) -> Seq<PointV> {
    s.map_values(|p: Point| p@)
}

impl Point {
    /// A fresh point for the given measurement, with no timestamp, tags or
    /// fields yet.
    pub fn new(measurement: &str) -> (p: Point)
        ensures
            p@ == (PointV {
                measurement: measurement@,
                timestamp: None::<i64>,
                tags: Seq::<(Seq<char>, Seq<char>)>::empty(),
                fields: Seq::<(Seq<char>, FieldValue)>::empty(),
            }),
    {
        let p = Point {
            measurement: measurement.to_owned(),
            timestamp: None,
            tags: Vec::new(),
            fields: Vec::new(),
        };
        proof {
            assert(p@ =~= PointV {
                measurement: measurement@,
                timestamp: None::<i64>,
                tags: Seq::<(Seq<char>, Seq<char>)>::empty(),
                fields: Seq::<(Seq<char>, FieldValue)>::empty(),
            });
        }
        p
    }

    /// The same point with its timestamp set to the given epoch seconds.
    pub fn add_timestamp(self, timestamp: i64) -> (p: Point)
        ensures
            p@ == (PointV { timestamp: Some(timestamp), ..self@ }),
    {
        let p = Point { timestamp: Some(timestamp), ..self };
        proof {
            assert(p@ =~= PointV { timestamp: Some(timestamp), ..self@ });
        }
        p
    }

    /// The same point with one more tag appended.
    pub fn add_tag(self, tag: &str, value: &str) -> (p: Point)
        ensures
            p@ == (PointV { tags: self@.tags.push((tag@, value@)), ..self@ }),
    {
        let ghost old_self = self;
        let Point { measurement, timestamp, mut tags, fields } = self;
        tags.push((tag.to_owned(), value.to_owned()));
        let p = Point { measurement, timestamp, tags, fields };
        proof {
            assert(p@.tags =~= old_self@.tags.push((tag@, value@)));
            assert(p@ =~= PointV { tags: old_self@.tags.push((tag@, value@)), ..old_self@ });
        }
        p
    }

    /// The same point with one more numeric field appended.
    pub fn add_field(self, field: &str, value: FieldValue) -> (p: Point)
        ensures
            p@ == (PointV { fields: self@.fields.push((field@, value)), ..self@ }),
    {
        let ghost old_self = self;
        let Point { measurement, timestamp, tags, mut fields } = self;
        fields.push((field.to_owned(), value));
        let p = Point { measurement, timestamp, tags, fields };
        proof {
            assert(p@.fields =~= old_self@.fields.push((field@, value)));
            assert(p@ =~= PointV { fields: old_self@.fields.push((field@, value)), ..old_self@ });
        }
        p
    }
}

} // verus!
