//! A sample keyed entity: a location with a stable string key, usable with
//! either cursor provider, plus a small fixed data set for exercising them.

use vstd::prelude::*;

use crate::cursor_provider::CursorByKey;

verus! {

/// A backing-store row for a location.
#[derive(Debug, Clone)]
pub struct LocationRow {
    pub id: String,
    pub name: String,
}

/// The domain object for a location.
#[derive(Debug, Clone)]
pub struct Location {
    pub id: String,
    pub name: String,
}

impl From<LocationRow> for Location {
    fn from(row: LocationRow) -> (r: Self) {
        Location { id: row.id, name: row.name }
    }
}

impl vstd::std_specs::convert::FromSpecImpl<LocationRow> for Location {
    open spec fn obeys_from_spec() -> bool {
        true
    }

    open spec fn from_spec(row: LocationRow) -> Self {
        Location { id: row.id, name: row.name }
    }
}

impl CursorByKey for Location {
    open spec fn key_spec(&self) -> Seq<char> {
        self.id@
    }

    fn cursor_key(&self) -> (r: String) {
        self.id.clone()
    }
}

/// A small fixed set of location rows.
pub fn get_location_test_data() -> (r: Vec<LocationRow>)
    ensures
        r@.len() == 3,
        r@[0].id@ == "lumiere"@ && r@[0].name@ == "Lumi√©re"@,
        r@[1].id@ == "esquies-nest"@ && r@[1].name@ == "Esquie's Nest"@,
        r@[2].id@ == "monocos-station"@ && r@[2].name@ == "Monoco's Station"@,
{
    let mut r: Vec<LocationRow> = Vec::new();
    r.push(LocationRow { id: "lumiere".to_owned(), name: "Lumi√©re".to_owned() });
    r.push(LocationRow { id: "esquies-nest".to_owned(), name: "Esquie's Nest".to_owned() });
    r.push(
        LocationRow { id: "monocos-station".to_owned(), name: "Monoco's Station".to_owned() },
    );
    r
}

} // verus!
