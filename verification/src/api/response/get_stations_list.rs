//! The answer to a listing of the stations.

use crate::json;
use crate::json::{json_of, Json};
use crate::model::{views, Quantity, QuantityView};
use serde_json::Value;
use vstd::prelude::*;

verus! {

/// One station of the listing. The capacity is in megawatt hours.
#[derive(Debug, Clone)]
pub struct Data {
    pub station_code: String,
    pub station_name: String,
    pub capacity: Quantity,
}

/// The mathematical content of a [`Data`].
pub struct DataView {
    pub station_code: Seq<char>,
    pub station_name: Seq<char>,
    pub capacity: QuantityView,
}

impl View for Data {
    type V = DataView;

    open spec fn view(&self) -> DataView {
        DataView {
            station_code: self.station_code@,
            station_name: self.station_name@,
            capacity: self.capacity@,
        }
    }
}

impl Data {
    /// The station that a document describes: an object whose members
    /// `stationCode` and `stationName` are strings and whose member
    /// `capacity` is a number.
    pub open spec fn decoded(document: Json) -> Option<DataView> {
        match (
            document.member("stationCode"@),
            document.member("stationName"@),
            document.member("capacity"@),
        ) {
            (Some(code), Some(name), Some(capacity)) => match (
                code.string(),
                name.string(),
                capacity.numeral(),
            ) {
                (Some(station_code), Some(station_name), Some(numeral)) => Some(
                    DataView {
                        station_code,
                        station_name,
                        capacity: QuantityView::plain(numeral),
                    },
                ),
                _ => None,
            },
            _ => None,
        }
    }

    /// Decodes one station.
    pub fn decode(value: &Value) -> (r: Option<Data>)
        ensures
            match r {
                Some(data) => Self::decoded(json_of(*value)) == Some(data@),
                None => Self::decoded(json_of(*value)) is None,
            },
    {
        let code = match json::member(value, "stationCode") {
            Some(member) => json::string(member),
            None => None,
        };
        let name = match json::member(value, "stationName") {
            Some(member) => json::string(member),
            None => None,
        };
        let capacity = match json::member(value, "capacity") {
            Some(member) => json::numeral(member),
            None => None,
        };
        match (code, name, capacity) {
            (Some(station_code), Some(station_name), Some(numeral)) => Some(
                Data { station_code, station_name, capacity: Quantity::plain(numeral) },
            ),
            _ => None,
        }
    }
}

/// The listing of the stations.
#[derive(Debug, Clone)]
pub struct GetStationsList {
    pub data: Vec<Data>,
}

impl View for GetStationsList {
    type V = Seq<DataView>;

    open spec fn view(&self) -> Seq<DataView> {
        views(self.data@)
    }
}

impl GetStationsList {
    /// The listing that a document holds: an object whose member `data` is an
    /// array of stations.
    pub open spec fn decoded(document: Json) -> Option<Seq<DataView>> {
        match document.member("data"@) {
            Some(data) => match data.elements() {
                Some(items) => if forall|i: int|
                    0 <= i < items.len() ==> (#[trigger] Data::decoded(items[i])) is Some {
                    Some(Seq::new(items.len(), |i: int| Data::decoded(items[i])->0))
                } else {
                    None
                },
                None => None,
            },
            None => None,
        }
    }

    /// Decodes the listing.
    pub fn decode(value: &Value) -> (r: Option<GetStationsList>)
        ensures
            match r {
                Some(list) => Self::decoded(json_of(*value)) == Some(list@),
                None => Self::decoded(json_of(*value)) is None,
            },
    {
        let items = match json::member(value, "data") {
            Some(data) => match json::elements(data) {
                Some(items) => items,
                None => {
                    return None;
                },
            },
            None => {
                return None;
            },
        };
        let ghost documents = Seq::new(items@.len(), |i: int| json_of(items@[i]));
        let mut data: Vec<Data> = Vec::new();
        let mut i: usize = 0;
        while i < items.len()
            invariant
                i <= items.len(),
                data@.len() == i,
                documents.len() == items@.len(),
                forall|j: int| 0 <= j < items@.len() ==> documents[j] == json_of(#[trigger] items@[j]),
                json_of(*value).member("data"@) matches Some(member) && member.elements() == Some(
                    documents,
                ),
                forall|j: int|
                    0 <= j < i ==> (#[trigger] Data::decoded(documents[j])) == Some(data@[j]@),
            decreases items.len() - i,
        {
            match Data::decode(&items[i]) {
                Some(item) => {
                    data.push(item);
                },
                None => {
                    return None;
                },
            }
            i += 1;
        }
        let list = GetStationsList { data };
        Some(list)
    }
}

/// The capacities of a listing are as the API sent them: no unit has been
/// converted yet.
pub proof fn listed_capacities_are_plain(document: Json)
    requires
        GetStationsList::decoded(document) is Some,
    ensures
        forall|i: int|
            0 <= i < GetStationsList::decoded(document)->0.len() ==> (
            #[trigger] GetStationsList::decoded(document)->0[i]).capacity.scale == 0,
{
    let items = document.member("data"@)->0.elements()->0;
    assert forall|i: int| 0 <= i < GetStationsList::decoded(document)->0.len() implies (
    #[trigger] GetStationsList::decoded(document)->0[i]).capacity.scale == 0 by {
        assert(Data::decoded(items[i]) is Some);
    }
}

} // verus!
