//! The answer to a query for the key figures of stations.

use crate::json;
use crate::json::{json_of, Json};
use crate::model::{views, Quantity, QuantityView};
use serde_json::Value;
use vstd::prelude::*;

verus! {

/// The key figures of a station. The yield of the day is in kilowatt hours.
#[derive(Debug, Clone)]
pub struct DataItemMap {
    pub day_power: Quantity,
}

impl View for DataItemMap {
    type V = QuantityView;

    open spec fn view(&self) -> QuantityView {
        self.day_power@
    }
}

impl DataItemMap {
    /// The key figures that a document holds: an object whose member
    /// `day_power` is a number.
    pub open spec fn decoded(document: Json) -> Option<QuantityView> {
        match document.member("day_power"@) {
            Some(day_power) => match day_power.numeral() {
                Some(numeral) => Some(QuantityView::plain(numeral)),
                None => None,
            },
            None => None,
        }
    }

    /// Decodes the key figures of a station.
    pub fn decode(value: &Value) -> (r: Option<DataItemMap>)
        ensures
            match r {
                Some(map) => Self::decoded(json_of(*value)) == Some(map@),
                None => Self::decoded(json_of(*value)) is None,
            },
    {
        match json::member(value, "day_power") {
            Some(member) => match json::numeral(member) {
                Some(numeral) => Some(DataItemMap { day_power: Quantity::plain(numeral) }),
                None => None,
            },
            None => None,
        }
    }
}

/// The key figures of one station, with the station's code.
#[derive(Debug, Clone)]
pub struct Data {
    pub data_item_map: DataItemMap,
    pub station_code: String,
}

/// The mathematical content of a [`Data`].
pub struct DataView {
    pub day_power: QuantityView,
    pub station_code: Seq<char>,
}

impl View for Data {
    type V = DataView;

    open spec fn view(&self) -> DataView {
        DataView { day_power: self.data_item_map@, station_code: self.station_code@ }
    }
}

impl Data {
    /// The entry that a document holds: an object whose member `dataItemMap`
    /// holds key figures and whose member `stationCode` is a string.
    pub open spec fn decoded(document: Json) -> Option<DataView> {
        match (document.member("dataItemMap"@), document.member("stationCode"@)) {
            (Some(map), Some(code)) => match (DataItemMap::decoded(map), code.string()) {
                (Some(day_power), Some(station_code)) => Some(DataView { day_power, station_code }),
                _ => None,
            },
            _ => None,
        }
    }

    /// Decodes one entry.
    pub fn decode(value: &Value) -> (r: Option<Data>)
        ensures
            match r {
                Some(data) => Self::decoded(json_of(*value)) == Some(data@),
                None => Self::decoded(json_of(*value)) is None,
            },
    {
        let map = match json::member(value, "dataItemMap") {
            Some(member) => DataItemMap::decode(member),
            None => None,
        };
        let code = match json::member(value, "stationCode") {
            Some(member) => json::string(member),
            None => None,
        };
        match (map, code) {
            (Some(data_item_map), Some(station_code)) => Some(Data { data_item_map, station_code }),
            _ => None,
        }
    }
}

/// The key figures of the stations that were asked for.
#[derive(Debug, Clone)]
pub struct GetStationRealKpi {
    pub data: Vec<Data>,
}

impl View for GetStationRealKpi {
    type V = Seq<DataView>;

    open spec fn view(&self) -> Seq<DataView> {
        views(self.data@)
    }
}

impl GetStationRealKpi {
    /// The answer that a document holds: an object whose member `data` is an
    /// array of entries.
    pub open spec fn decoded(document: Json) -> Option<Seq<DataView>> {
        match document.member("data"@) {
            Some(data) => match data.elements() {
                Some(items) => if forall|i: int|
                    0 <= i < items.len() ==> (#[trigger] Data::decoded(items[i])) is Some {
                    Some(Seq::new(items.len(), |i: int| Data::decoded(items[i])->0))
                } else {
                    None
                },
                None => None,
            },
            None => None,
        }
    }

    /// Decodes the answer.
    pub fn decode(value: &Value) -> (r: Option<GetStationRealKpi>)
        ensures
            match r {
                Some(list) => Self::decoded(json_of(*value)) == Some(list@),
                None => Self::decoded(json_of(*value)) is None,
            },
    {
        let items = match json::member(value, "data") {
            Some(data) => match json::elements(data) {
                Some(items) => items,
                None => {
                    return None;
                },
            },
            None => {
                return None;
            },
        };
        let ghost documents = Seq::new(items@.len(), |i: int| json_of(items@[i]));
        let mut data: Vec<Data> = Vec::new();
        let mut i: usize = 0;
        while i < items.len()
            invariant
                i <= items.len(),
                data@.len() == i,
                documents.len() == items@.len(),
                forall|j: int| 0 <= j < items@.len() ==> documents[j] == json_of(#[trigger] items@[j]),
                json_of(*value).member("data"@) matches Some(member) && member.elements() == Some(
                    documents,
                ),
                forall|j: int|
                    0 <= j < i ==> (#[trigger] Data::decoded(documents[j])) == Some(data@[j]@),
            decreases items.len() - i,
        {
            match Data::decode(&items[i]) {
                Some(item) => {
                    data.push(item);
                },
                None => {
                    return None;
                },
            }
            i += 1;
        }
        let list = GetStationRealKpi { data };
        Some(list)
    }
}

} // verus!
