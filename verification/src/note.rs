//! What a walk passes over. A walk goes on where a single station or device
//! yields nothing; it keeps a note of each such case, so that nothing is
//! dropped in silence.

use crate::api::error::{Error, ErrorView};
use vstd::prelude::*;

verus! {

/// Something that a walk passed over.
#[derive(Debug, Clone)]
pub enum Note {
    /// The API holds no key figures for the station.
    NoStationKpi { station_code: String },
    /// The API holds no telemetry for the device.
    NoDeviceKpi { device_id: u64, station_code: String },
    /// The answer for the device holds no raw telemetry.
    NoDataItemMap { device_type_id: u64, device_id: u64, response: String },
    /// The device was passed over because of a failure.
    DeviceSkipped { device_id: u64, station_code: String, error: Error },
    /// The station was passed over because of a failure.
    StationSkipped { station_code: String, error: Error },
}

/// The mathematical content of a [`Note`].
pub enum NoteView {
    NoStationKpi { station_code: Seq<char> },
    NoDeviceKpi { device_id: u64, station_code: Seq<char> },
    NoDataItemMap { device_type_id: u64, device_id: u64, response: Seq<char> },
    DeviceSkipped { device_id: u64, station_code: Seq<char>, error: ErrorView },
    StationSkipped { station_code: Seq<char>, error: ErrorView },
}

impl View for Note {
    type V = NoteView;

    open spec fn view(&self) -> NoteView {
        match *self {
            Note::NoStationKpi { station_code } => NoteView::NoStationKpi {
                station_code: station_code@,
            },
            Note::NoDeviceKpi { device_id, station_code } => NoteView::NoDeviceKpi {
                device_id,
                station_code: station_code@,
            },
            Note::NoDataItemMap { device_type_id, device_id, response } => NoteView::NoDataItemMap {
                device_type_id,
                device_id,
                response: response@,
            },
            Note::DeviceSkipped { device_id, station_code, error } => NoteView::DeviceSkipped {
                device_id,
                station_code: station_code@,
                error: error@,
            },
            Note::StationSkipped { station_code, error } => NoteView::StationSkipped {
                station_code: station_code@,
                error: error@,
            },
        }
    }
}

} // verus!
