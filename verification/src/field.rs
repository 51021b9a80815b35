//! Fields (stretches of river with a route) and the kinds of spots on them.

use vstd::prelude::*;

verus! {

/// A field: a named route, stored as `Array<[long, lat]>` JSON text.
#[derive(Debug, Clone, PartialEq, Eq)]
pub struct Field {
    pub field_id: i64,
    pub field_name: String,
    pub description: String,
    pub route: String,
    pub created_at: i64,
    pub updated_at: i64,
}

/// The CSV form of a field: its name, description and route.
#[derive(Debug, Clone, PartialEq, Eq)]
pub struct FieldCsv {
    pub field_name: String,
    pub description: String,
    pub route: String,
}

impl From<Field> for FieldCsv {
    /// Keeps the fields the CSV form has and drops the ids and times.
    fn from(field: Field) -> (r: Self) {
        FieldCsv { field_name: field.field_name, description: field.description, route: field.route }
    }
}

impl vstd::std_specs::convert::FromSpecImpl<Field> for FieldCsv {
    open spec fn obeys_from_spec() -> bool {
        true
    }

    open spec fn from_spec(field: Field) -> Self {
        FieldCsv { field_name: field.field_name, description: field.description, route: field.route }
    }
}

/// The kind of a spot on a river.
#[derive(Debug, Clone, Copy, PartialEq, Eq, Structural)]
pub enum SpotType {
    Port,
    Bridge,
    Flow,
    Landmrk,
    Rapids,
    Note,
    Station,
    RoadsideStation,
    Parking,
    Toilet,
    Other,
}

} // verus!
