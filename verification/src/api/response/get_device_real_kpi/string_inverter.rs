//! Device type 1, string inverter: the shape of a telemetry record.

use crate::json;
use crate::json::{json_of, Json};
use crate::model::{Quantity, QuantityView};
use serde_json::Value;
use vstd::prelude::*;

verus! {

/// The telemetry of a string inverter.
#[derive(Debug, Clone)]
pub struct DataItemMap {
    pub temperature: Quantity,
    pub active_power: Quantity,
    pub mppt_power: Quantity,
}

/// The mathematical content of a [`DataItemMap`].
pub struct DataItemMapView {
    pub temperature: QuantityView,
    pub active_power: QuantityView,
    pub mppt_power: QuantityView,
}

impl View for DataItemMap {
    type V = DataItemMapView;

    open spec fn view(&self) -> DataItemMapView {
        DataItemMapView {
            temperature: self.temperature@,
            active_power: self.active_power@,
            mppt_power: self.mppt_power@,
        }
    }
}

impl DataItemMap {
    /// The telemetry that a document holds: an object whose members
    /// `temperature`, `active_power` and `mppt_power` are numbers.
    pub open spec fn decoded(document: Json) -> Option<DataItemMapView> {
        match (
            document.member("temperature"@),
            document.member("active_power"@),
            document.member("mppt_power"@),
        ) {
            (Some(temperature), Some(active_power), Some(mppt_power)) => match (
                temperature.numeral(),
                active_power.numeral(),
                mppt_power.numeral(),
            ) {
                (Some(temperature), Some(active_power), Some(mppt_power)) => Some(
                    DataItemMapView {
                        temperature: QuantityView::plain(temperature),
                        active_power: QuantityView::plain(active_power),
                        mppt_power: QuantityView::plain(mppt_power),
                    },
                ),
                _ => None,
            },
            _ => None,
        }
    }

    /// Decodes the telemetry of a string inverter.
    pub fn decode(value: &Value) -> (r: Option<DataItemMap>)
        ensures
            match r {
                Some(map) => Self::decoded(json_of(*value)) == Some(map@),
                None => Self::decoded(json_of(*value)) is None,
            },
    {
        let temperature = match json::member(value, "temperature") {
            Some(member) => json::numeral(member),
            None => None,
        };
        let active_power = match json::member(value, "active_power") {
            Some(member) => json::numeral(member),
            None => None,
        };
        let mppt_power = match json::member(value, "mppt_power") {
            Some(member) => json::numeral(member),
            None => None,
        };
        match (temperature, active_power, mppt_power) {
            (Some(temperature), Some(active_power), Some(mppt_power)) => Some(
                DataItemMap {
                    temperature: Quantity::plain(temperature),
                    active_power: Quantity::plain(active_power),
                    mppt_power: Quantity::plain(mppt_power),
                },
            ),
            _ => None,
        }
    }
}

/// The telemetry of one string inverter, with the device's id.
#[derive(Debug, Clone)]
pub struct Data {
    pub dev_id: u64,
    pub data_item_map: DataItemMap,
}

/// The mathematical content of a [`Data`].
pub struct DataView {
    pub dev_id: u64,
    pub data_item_map: DataItemMapView,
}

impl View for Data {
    type V = DataView;

    open spec fn view(&self) -> DataView {
        DataView { dev_id: self.dev_id, data_item_map: self.data_item_map@ }
    }
}

impl Data {
    /// The record that a document holds: an object whose member `devId` is a
    /// non-negative integer and whose member `dataItemMap` holds the
    /// telemetry of a string inverter.
    pub open spec fn decoded(document: Json) -> Option<DataView> {
        match (document.member("devId"@), document.member("dataItemMap"@)) {
            (Some(id), Some(map)) => match (id.unsigned(), DataItemMap::decoded(map)) {
                (Some(dev_id), Some(data_item_map)) => Some(DataView { dev_id, data_item_map }),
                _ => None,
            },
            _ => None,
        }
    }

    /// Decodes one record.
    pub fn decode(value: &Value) -> (r: Option<Data>)
        ensures
            match r {
                Some(data) => Self::decoded(json_of(*value)) == Some(data@),
                None => Self::decoded(json_of(*value)) is None,
            },
    {
        let id = match json::member(value, "devId") {
            Some(member) => json::unsigned(member),
            None => None,
        };
        let map = match json::member(value, "dataItemMap") {
            Some(member) => DataItemMap::decode(member),
            None => None,
        };
        match (id, map) {
            (Some(dev_id), Some(data_item_map)) => Some(Data { dev_id, data_item_map }),
            _ => None,
        }
    }
}

} // verus!
