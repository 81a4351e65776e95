//! The answer to a listing of the devices of a station.

use crate::api::response::device_type;
use crate::json;
use crate::json::{json_of, Json};
use crate::model::{views, DeviceTypeId};
use serde_json::Value;
use vstd::prelude::*;

verus! {

/// One device of the listing.
#[derive(Debug, Clone)]
pub struct Data {
    pub dev_name: String,
    pub id: u64,
    pub dev_type_id: DeviceTypeId,
}

/// The mathematical content of a [`Data`].
pub struct DataView {
    pub dev_name: Seq<char>,
    pub id: u64,
    pub dev_type_id: DeviceTypeId,
}

impl View for Data {
    type V = DataView;

    open spec fn view(&self) -> DataView {
        DataView { dev_name: self.dev_name@, id: self.id, dev_type_id: self.dev_type_id }
    }
}

impl Data {
    /// The device that a document describes: an object whose member `devName`
    /// is a string and whose members `id` and `devTypeId` are non-negative
    /// integers. The device type is the one that the API means by the code,
    /// known or not.
    pub open spec fn decoded(document: Json) -> Option<DataView> {
        match (document.member("devName"@), document.member("id"@), document.member("devTypeId"@)) {
            (Some(name), Some(id), Some(type_id)) => match (
                name.string(),
                id.unsigned(),
                type_id.unsigned(),
            ) {
                (Some(dev_name), Some(id), Some(code)) => Some(
                    DataView { dev_name, id, dev_type_id: DeviceTypeId::of(code) },
                ),
                _ => None,
            },
            _ => None,
        }
    }

    /// Decodes one device.
    pub fn decode(value: &Value) -> (r: Option<Data>)
        ensures
            match r {
                Some(data) => Self::decoded(json_of(*value)) == Some(data@),
                None => Self::decoded(json_of(*value)) is None,
            },
    {
        let name = match json::member(value, "devName") {
            Some(member) => json::string(member),
            None => None,
        };
        let id = match json::member(value, "id") {
            Some(member) => json::unsigned(member),
            None => None,
        };
        let type_id = match json::member(value, "devTypeId") {
            Some(member) => json::unsigned(member),
            None => None,
        };
        match (name, id, type_id) {
            (Some(dev_name), Some(id), Some(code)) => Some(
                Data { dev_name, id, dev_type_id: device_type::from_u64(code) },
            ),
            _ => None,
        }
    }
}

/// The listing of the devices of a station.
#[derive(Debug, Clone)]
pub struct GetDevicesList {
    pub data: Vec<Data>,
}

impl View for GetDevicesList {
    type V = Seq<DataView>;

    open spec fn view(&self) -> Seq<DataView> {
        views(self.data@)
    }
}

impl GetDevicesList {
    /// The listing that a document holds: an object whose member `data` is an
    /// array of devices.
    pub open spec fn decoded(document: Json) -> Option<Seq<DataView>> {
        match document.member("data"@) {
            Some(data) => match data.elements() {
                Some(items) => if forall|i: int|
                    0 <= i < items.len() ==> (#[trigger] Data::decoded(items[i])) is Some {
                    Some(Seq::new(items.len(), |i: int| Data::decoded(items[i])->0))
                } else {
                    None
                },
                None => None,
            },
            None => None,
        }
    }

    /// Decodes the listing.
    pub fn decode(value: &Value) -> (r: Option<GetDevicesList>)
        ensures
            match r {
                Some(list) => Self::decoded(json_of(*value)) == Some(list@),
                None => Self::decoded(json_of(*value)) is None,
            },
    {
        let items = match json::member(value, "data") {
            Some(data) => match json::elements(data) {
                Some(items) => items,
                None => {
                    return None;
                },
            },
            None => {
                return None;
            },
        };
        let ghost documents = Seq::new(items@.len(), |i: int| json_of(items@[i]));
        let mut data: Vec<Data> = Vec::new();
        let mut i: usize = 0;
        while i < items.len()
            invariant
                i <= items.len(),
                data@.len() == i,
                documents.len() == items@.len(),
                forall|j: int| 0 <= j < items@.len() ==> documents[j] == json_of(#[trigger] items@[j]),
                json_of(*value).member("data"@) matches Some(member) && member.elements() == Some(
                    documents,
                ),
                forall|j: int|
                    0 <= j < i ==> (#[trigger] Data::decoded(documents[j])) == Some(data@[j]@),
            decreases items.len() - i,
        {
            match Data::decode(&items[i]) {
                Some(item) => {
                    data.push(item);
                },
                None => {
                    return None;
                },
            }
            i += 1;
        }
        let list = GetDevicesList { data };
        Some(list)
    }
}

} // verus!
