//! The answer to a query for the telemetry of devices. All devices of one
//! answer have the same type; the answer names it outside of the records, and
//! the shape of the records depends on it.

use crate::api::error::{Error, ErrorView};
use crate::api::response::device_type;
use crate::json;
use crate::json::{json_of, Json};
use crate::model::{views, DeviceTypeId, SupportedDeviceTypeId};
use serde_json::Value;
use vstd::prelude::*;

pub mod string_inverter;

verus! {

/// The telemetry of some string inverters.
#[derive(Debug, Clone)]
pub struct StringInverter {
    pub data: Vec<string_inverter::Data>,
}

impl View for StringInverter {
    type V = Seq<string_inverter::DataView>;

    open spec fn view(&self) -> Seq<string_inverter::DataView> {
        views(self.data@)
    }
}

impl StringInverter {
    /// The answer that a document holds: an object whose member `data` is an
    /// array of string inverter records.
    pub open spec fn decoded(document: Json) -> Option<Seq<string_inverter::DataView>> {
        match document.member("data"@) {
            Some(data) => match data.elements() {
                Some(items) => if forall|i: int|
                    0 <= i < items.len() ==> (#[trigger] string_inverter::Data::decoded(
                        items[i],
                    )) is Some {
                    Some(Seq::new(items.len(), |i: int| string_inverter::Data::decoded(items[i])->0))
                } else {
                    None
                },
                None => None,
            },
            None => None,
        }
    }

    /// Decodes the answer as string inverter records.
    pub fn decode(value: &Value) -> (r: Option<StringInverter>)
        ensures
            match r {
                Some(list) => Self::decoded(json_of(*value)) == Some(list@),
                None => Self::decoded(json_of(*value)) is None,
            },
    {
        let items = match json::member(value, "data") {
            Some(data) => match json::elements(data) {
                Some(items) => items,
                None => {
                    return None;
                },
            },
            None => {
                return None;
            },
        };
        let ghost documents = Seq::new(items@.len(), |i: int| json_of(items@[i]));
        let mut data: Vec<string_inverter::Data> = Vec::new();
        let mut i: usize = 0;
        while i < items.len()
            invariant
                i <= items.len(),
                data@.len() == i,
                documents.len() == items@.len(),
                forall|j: int| 0 <= j < items@.len() ==> documents[j] == json_of(#[trigger] items@[j]),
                json_of(*value).member("data"@) matches Some(member) && member.elements() == Some(
                    documents,
                ),
                forall|j: int|
                    0 <= j < i ==> (#[trigger] string_inverter::Data::decoded(documents[j])) == Some(
                        data@[j]@,
                    ),
            decreases items.len() - i,
        {
            match string_inverter::Data::decode(&items[i]) {
                Some(item) => {
                    data.push(item);
                },
                None => {
                    return None;
                },
            }
            i += 1;
        }
        let list = StringInverter { data };
        Some(list)
    }
}

/// The telemetry of some devices, by the type of the devices.
#[derive(Debug, Clone)]
pub enum GetDeviceRealKpi {
    StringInverter(StringInverter),
}

/// The mathematical content of a [`GetDeviceRealKpi`].
pub enum GetDeviceRealKpiView {
    StringInverter(Seq<string_inverter::DataView>),
}

impl View for GetDeviceRealKpi {
    type V = GetDeviceRealKpiView;

    open spec fn view(&self) -> GetDeviceRealKpiView {
        match *self {
            GetDeviceRealKpi::StringInverter(list) => GetDeviceRealKpiView::StringInverter(list@),
        }
    }
}

/// The content of the outcome of decoding an answer.
pub open spec fn outcome_view(outcome: Result<GetDeviceRealKpi, Error>) -> Result<
    GetDeviceRealKpiView,
    ErrorView,
> {
    match outcome {
        Ok(answer) => Ok(answer@),
        Err(error) => Err(error@),
    }
}

impl GetDeviceRealKpi {
    /// The code of the device type that an answer names: the member
    /// `devTypeId` of its member `params`, a non-negative integer.
    pub open spec fn tag(document: Json) -> Option<u64> {
        match document.member("params"@) {
            Some(params) => match params.member("devTypeId"@) {
                Some(code) => code.unsigned(),
                None => None,
            },
            None => None,
        }
    }

    /// What an answer decodes to. The device type that the answer names
    /// selects the shape of the records:
    /// - an answer that names no device type is not of the expected shape;
    /// - a device type that the client does not know is reported with its
    ///   code;
    /// - for string inverters, the records are decoded as string inverter
    ///   records; an answer whose records are of another shape is not of the
    ///   expected shape.
    pub open spec fn decoded(document: Json) -> Result<GetDeviceRealKpiView, ErrorView> {
        match Self::tag(document) {
            None => Err(ErrorView::UnexpectedApiResponse),
            Some(code) => match DeviceTypeId::of(code) {
                DeviceTypeId::UnsupportedDeviceTypeId(code) => Err(
                    ErrorView::UnknownDeviceType(code),
                ),
                DeviceTypeId::SupportedDeviceTypeId(SupportedDeviceTypeId::StringInverter) => {
                    match StringInverter::decoded(document) {
                        Some(records) => Ok(GetDeviceRealKpiView::StringInverter(records)),
                        None => Err(ErrorView::UnexpectedApiResponse),
                    }
                },
            },
        }
    }

    /// Decodes an answer by the device type that it names.
    pub fn decode(value: &Value) -> (r: Result<GetDeviceRealKpi, Error>)
        ensures
            outcome_view(r) == Self::decoded(json_of(*value)),
    {
        let tag = match json::member(value, "params") {
            Some(params) => match json::member(params, "devTypeId") {
                Some(code) => json::unsigned(code),
                None => None,
            },
            None => None,
        };
        match tag {
            None => Err(Error::UnexpectedApiResponse),
            Some(code) => match device_type::from_u64(code) {
                DeviceTypeId::UnsupportedDeviceTypeId(code) => Err(Error::UnknownDeviceType(code)),
                DeviceTypeId::SupportedDeviceTypeId(SupportedDeviceTypeId::StringInverter) => {
                    match StringInverter::decode(value) {
                        Some(records) => Ok(GetDeviceRealKpi::StringInverter(records)),
                        None => Err(Error::UnexpectedApiResponse),
                    }
                },
            },
        }
    }
}

/// An answer that names string inverters is decoded as string inverter
/// records, and as nothing else.
pub proof fn string_inverter_answers_hold_string_inverter_records(document: Json)
    requires
        GetDeviceRealKpi::tag(document) == Some(crate::model::STRING_INVERTER),
    ensures
        match GetDeviceRealKpi::decoded(document) {
            Ok(GetDeviceRealKpiView::StringInverter(records)) => StringInverter::decoded(document)
                == Some(records),
            Err(error) => error == ErrorView::UnexpectedApiResponse && StringInverter::decoded(
                document,
            ) is None,
        },
{
}

/// An answer that names a device type that the client does not know is
/// reported as such, with the code that it names, whatever else it holds.
pub proof fn unknown_device_types_are_reported(document: Json, code: u64)
    requires
        GetDeviceRealKpi::tag(document) == Some(code),
        code != crate::model::STRING_INVERTER,
    ensures
        GetDeviceRealKpi::decoded(document) == Err::<GetDeviceRealKpiView, ErrorView>(
            ErrorView::UnknownDeviceType(code),
        ),
{
}

} // verus!
