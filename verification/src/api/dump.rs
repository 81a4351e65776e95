//! The dump of raw telemetry: a walk over all devices of all stations that
//! keeps, for each device type that it meets, the telemetry of one device as
//! the API sent it. It serves to find out what the devices report.
//!
//! Like the collection of metrics, the walk says which request to send and
//! is handed what came back. Once the stations are known it goes on to the
//! end: a station or a device that yields nothing is passed over with a
//! note.

use crate::api;
use crate::api::error::{Error, ErrorView};
use crate::api::exchange::{Reply, ReplyView, Request, RequestView};
use crate::api::{asked, device_asked, devices_of, endpoint, posted, station_asked, stations_of};
use crate::json;
use crate::json::{json_of, rendered, Json};
use crate::model::{views, Device, LoggedInApi, LoggedInApiView, Station, StationView};
use crate::note::{Note, NoteView};
use serde_json::Value;
use std::collections::HashMap;
use vstd::prelude::*;

pub mod traversal;

verus! {

broadcast use vstd::std_specs::hash::group_hash_axioms;

/// The raw telemetry of the first device of an answer: the member
/// `dataItemMap` of the first element of the member `data`.
pub open spec fn raw_telemetry(document: Json) -> Option<Json> {
    match document.member("data"@) {
        Some(data) => match data.elements() {
            Some(items) => if items.len() > 0 {
                items[0].member("dataItemMap"@)
            } else {
                None
            },
            None => None,
        },
        None => None,
    }
}

/// Picks the raw telemetry of the first device out of an answer.
pub fn data_item_map(value: &Value) -> (r: Option<Value>)
    ensures
        match r {
            Some(found) => raw_telemetry(json_of(*value)) == Some(json_of(found)),
            None => raw_telemetry(json_of(*value)) is None,
        },
{
    match json::member(value, "data") {
        Some(data) => match json::elements(data) {
            Some(items) => if items.len() > 0 {
                match json::member(&items[0], "dataItemMap") {
                    Some(found) => Some(json::duplicate(found)),
                    None => None,
                }
            } else {
                None
            },
            None => None,
        },
        None => None,
    }
}

/// The documents that a dump holds, by the code of the device type.
pub open spec fn documents(dump: Map<u64, Value>) -> Map<u64, Json> {
    Map::new(|code: u64| dump.contains_key(code), |code: u64| json_of(dump[code]))
}

/// What a dump walk is waiting for.
#[derive(Debug, Clone, Copy, PartialEq, Eq, Structural)]
pub enum Awaiting {
    /// The listing of the stations.
    Stations,
    /// The listing of the devices of the current station.
    Devices,
    /// The telemetry of the current device.
    DeviceKpi,
}

/// A dump walk that waits for the answer to a request.
pub struct Dump {
    awaiting: Awaiting,
    stations: Vec<Station>,
    station: usize,
    devices: Vec<Device>,
    device: usize,
    dump: HashMap<u64, Value>,
    notes: Vec<Note>,
}

/// The mathematical content of a [`Dump`].
pub struct DumpView {
    pub awaiting: Awaiting,
    /// The stations of the account, once they are known.
    pub stations: Seq<StationView>,
    /// The index of the current station.
    pub station: nat,
    /// The devices of the current station, once they are known.
    pub devices: Seq<Device>,
    /// The index of the current device.
    pub device: nat,
    /// The raw telemetry gathered so far, by the code of the device type.
    pub dump: Map<u64, Json>,
    /// What was passed over so far.
    pub notes: Seq<NoteView>,
}

/// How a dump walk ended: with the raw telemetry by the code of the device
/// type, or with the failure to list the stations.
pub struct Outcome {
    pub result: Result<HashMap<u64, Value>, Error>,
    pub notes: Vec<Note>,
}

/// The mathematical content of an [`Outcome`].
pub struct OutcomeView {
    pub result: Result<Map<u64, Json>, ErrorView>,
    pub notes: Seq<NoteView>,
}

impl View for Outcome {
    type V = OutcomeView;

    open spec fn view(&self) -> OutcomeView {
        OutcomeView {
            result: match self.result {
                Ok(dump) => Ok(documents(dump@)),
                Err(error) => Err(error@),
            },
            notes: views(self.notes@),
        }
    }
}

/// Where a dump walk stands after a step.
pub enum Progress {
    /// The walk goes on: send the request and hand what comes back to
    /// [`Dump::advance`].
    Send(Dump, Request),
    /// The walk is over.
    Finished(Outcome),
}

/// The mathematical content of a [`Progress`].
pub enum ProgressView {
    Send(DumpView, RequestView),
    Finished(OutcomeView),
}

impl View for Progress {
    type V = ProgressView;

    open spec fn view(&self) -> ProgressView {
        match *self {
            Progress::Send(dump, request) => ProgressView::Send(dump@, request@),
            Progress::Finished(outcome) => ProgressView::Finished(outcome@),
        }
    }
}

impl DumpView {
    /// What holds of every walk that waits for an answer: there is a current
    /// station once the stations are known, and a current device once the
    /// devices are.
    pub open spec fn wf(self) -> bool {
        match self.awaiting {
            Awaiting::Stations => true,
            Awaiting::Devices => self.station < self.stations.len(),
            Awaiting::DeviceKpi => self.station < self.stations.len() && self.device
                < self.devices.len(),
        }
    }

    /// The walk turns to the station at `index`: it asks for the station's
    /// devices, and forgets those of the station before. After the last
    /// station the walk is over, and yields what it gathered.
    pub open spec fn enter_station(self, api: LoggedInApiView, index: nat) -> ProgressView {
        if index < self.stations.len() {
            ProgressView::Send(
                DumpView {
                    awaiting: Awaiting::Devices,
                    station: index,
                    devices: Seq::empty(),
                    device: 0,
                    ..self
                },
                asked(api, endpoint::DEVICES@, Some(station_asked(self.stations[index as int]))),
            )
        } else {
            ProgressView::Finished(OutcomeView { result: Ok(self.dump), notes: self.notes })
        }
    }

    /// The walk turns to the device at `index` of the current station: it
    /// asks for the device's telemetry, whether the client knows the
    /// device's type or not. After the last device the walk turns to the
    /// next station.
    pub open spec fn enter_device(self, api: LoggedInApiView, index: nat) -> ProgressView {
        if index < self.devices.len() {
            ProgressView::Send(
                DumpView { awaiting: Awaiting::DeviceKpi, device: index, ..self },
                asked(
                    api,
                    endpoint::DEVICE_REAL_KPI@,
                    Some(device_asked(self.devices[index as int])),
                ),
            )
        } else {
            self.enter_station(api, self.station + 1)
        }
    }

    /// The step that the walk takes on an answer.
    ///
    /// - The listing of the stations: a failure ends the walk; otherwise the
    ///   walk turns to the first station.
    /// - The listing of the devices of a station: on a failure the station
    ///   is passed over with a note; otherwise the walk turns to the
    ///   station's first device.
    /// - The telemetry of a device: on a failure the device is passed over
    ///   with a note. Otherwise the raw telemetry of the answer is kept under
    ///   the code of the device's type, in the place of what was kept there
    ///   before; an answer that holds none is passed over with a note.
    ///   Either way the walk turns to the next device.
    pub open spec fn advanced(self, api: LoggedInApiView, reply: ReplyView) -> ProgressView {
        let station = self.stations[self.station as int];
        let device = self.devices[self.device as int];
        match self.awaiting {
            Awaiting::Stations => match stations_of(reply) {
                Ok(stations) => DumpView { stations, ..self }.enter_station(api, 0),
                Err(error) => ProgressView::Finished(
                    OutcomeView { result: Err(error), notes: self.notes },
                ),
            },
            Awaiting::Devices => match devices_of(reply) {
                Ok(devices) => DumpView { devices, ..self }.enter_device(api, 0),
                Err(error) => DumpView {
                    notes: self.notes.push(
                        NoteView::StationSkipped { station_code: station.code, error },
                    ),
                    ..self
                }.enter_station(api, self.station + 1),
            },
            Awaiting::DeviceKpi => match posted(reply) {
                Ok(document) => match raw_telemetry(document) {
                    Some(telemetry) => DumpView {
                        dump: self.dump.insert(device.type_id.code(), telemetry),
                        ..self
                    }.enter_device(api, self.device + 1),
                    None => DumpView {
                        notes: self.notes.push(
                            NoteView::NoDataItemMap {
                                device_type_id: device.type_id.code(),
                                device_id: device.id,
                                response: rendered(document),
                            },
                        ),
                        ..self
                    }.enter_device(api, self.device + 1),
                },
                Err(error) => DumpView {
                    notes: self.notes.push(
                        NoteView::DeviceSkipped {
                            device_id: device.id,
                            station_code: station.code,
                            error,
                        },
                    ),
                    ..self
                }.enter_device(api, self.device + 1),
            },
        }
    }
}

impl View for Dump {
    type V = DumpView;

    closed spec fn view(&self) -> DumpView {
        DumpView {
            awaiting: self.awaiting,
            stations: views(self.stations@),
            station: self.station as nat,
            devices: self.devices@,
            device: self.device as nat,
            dump: documents(self.dump@),
            notes: views(self.notes@),
        }
    }
}

/// What a dump walk starts with: nothing is known, nothing is gathered, and
/// the listing of the stations is asked for.
pub open spec fn started(api: LoggedInApiView) -> ProgressView {
    ProgressView::Send(
        DumpView {
            awaiting: Awaiting::Stations,
            stations: Seq::empty(),
            station: 0,
            devices: Seq::empty(),
            device: 0,
            dump: Map::empty(),
            notes: Seq::empty(),
        },
        asked(api, endpoint::STATIONS@, None),
    )
}

/// Starts a dump walk.
pub fn dump_devices(api: &LoggedInApi) -> (r: Progress)
    ensures
        r@ == started(api@),
{
    let dump = Dump {
        awaiting: Awaiting::Stations,
        stations: Vec::new(),
        station: 0,
        devices: Vec::new(),
        device: 0,
        dump: HashMap::new(),
        notes: Vec::new(),
    };
    assert(dump@.stations =~= Seq::empty());
    assert(dump@.dump =~= Map::empty());
    assert(dump@.notes =~= Seq::empty());
    Progress::Send(dump, api::stations_request(api))
}

impl Dump {
    #[verifier::type_invariant]
    spec fn well_formed(self) -> bool {
        self@.wf()
    }

    fn enter_station(self, api: &LoggedInApi, index: usize) -> (r: Progress)
        ensures
            r@ == self@.enter_station(api@, index as nat),
    {
        if index < self.stations.len() {
            let request = api::devices_request(api, &self.stations[index]);
            Progress::Send(
                Dump {
                    awaiting: Awaiting::Devices,
                    stations: self.stations,
                    station: index,
                    devices: Vec::new(),
                    device: 0,
                    dump: self.dump,
                    notes: self.notes,
                },
                request,
            )
        } else {
            Progress::Finished(Outcome { result: Ok(self.dump), notes: self.notes })
        }
    }

    fn enter_device(self, api: &LoggedInApi, index: usize) -> (r: Progress)
        requires
            self.station < self.stations.len(),
        ensures
            r@ == self@.enter_device(api@, index as nat),
    {
        if index < self.devices.len() {
            let request = api::post_request(
                api,
                endpoint::DEVICE_REAL_KPI,
                Some(api::device_data(&self.devices[index])),
            );
            Progress::Send(
                Dump {
                    awaiting: Awaiting::DeviceKpi,
                    stations: self.stations,
                    station: self.station,
                    devices: self.devices,
                    device: index,
                    dump: self.dump,
                    notes: self.notes,
                },
                request,
            )
        } else {
            let next = self.station + 1;
            self.enter_station(api, next)
        }
    }

    /// Takes the next step of the walk: `reply` is what came back for the
    /// request that the walk asked for last.
    pub fn advance(self, api: &LoggedInApi, reply: Reply) -> (r: Progress)
        ensures
            r@ == self@.advanced(api@, reply@),
    {
        proof {
            use_type_invariant(&self);
        }
        match self.awaiting {
            Awaiting::Stations => match api::stations(reply) {
                Ok(stations) => {
                    let Dump { awaiting, stations: _, station, devices, device, dump, notes } = self;
                    Dump { awaiting, stations, station, devices, device, dump, notes }.enter_station(
                        api,
                        0,
                    )
                },
                Err(error) => Progress::Finished(Outcome { result: Err(error), notes: self.notes }),
            },
            Awaiting::Devices => match api::devices(reply) {
                Ok(devices) => {
                    let Dump { awaiting, stations, station, devices: _, device, dump, notes } = self;
                    assert(views(devices@) =~= devices@);
                    Dump { awaiting, stations, station, devices, device, dump, notes }.enter_device(
                        api,
                        0,
                    )
                },
                Err(error) => {
                    let Dump { awaiting, stations, station, devices, device, dump, mut notes } = self;
                    let ghost notes_before = notes@;
                    assert(station < stations.len());
                    notes.push(
                        Note::StationSkipped { station_code: stations[station].code.clone(), error },
                    );
                    assert(views(notes@) =~= views(notes_before).push(
                        NoteView::StationSkipped {
                            station_code: stations@[station as int]@.code,
                            error: error@,
                        },
                    ));
                    let next = station + 1;
                    Dump { awaiting, stations, station, devices, device, dump, notes }.enter_station(
                        api,
                        next,
                    )
                },
            },
            Awaiting::DeviceKpi => {
                let Dump { awaiting: _, stations, station, devices, device, mut dump, mut notes } = self;
                let ghost dump_before = dump@;
                let ghost notes_before = notes@;
                assert(device < devices.len());
                let code = devices[device].type_id.code();
                match api::post(reply) {
                    Ok(value) => match data_item_map(&value) {
                        Some(telemetry) => {
                            dump.insert(code, telemetry);
                            assert(documents(dump@) =~= documents(dump_before).insert(
                                code,
                                json_of(telemetry),
                            ));
                        },
                        None => {
                            notes.push(
                                Note::NoDataItemMap {
                                    device_type_id: code,
                                    device_id: devices[device].id,
                                    response: json::render(&value),
                                },
                            );
                            assert(views(notes@) =~= views(notes_before).push(
                                NoteView::NoDataItemMap {
                                    device_type_id: code,
                                    device_id: devices@[device as int].id,
                                    response: rendered(json_of(value)),
                                },
                            ));
                        },
                    },
                    Err(error) => {
                        notes.push(
                            Note::DeviceSkipped {
                                device_id: devices[device].id,
                                station_code: stations[station].code.clone(),
                                error,
                            },
                        );
                        assert(views(notes@) =~= views(notes_before).push(
                            NoteView::DeviceSkipped {
                                device_id: devices@[device as int].id,
                                station_code: stations@[station as int]@.code,
                                error: error@,
                            },
                        ));
                    },
                }
                let next = device + 1;
                Dump {
                    awaiting: Awaiting::Devices,
                    stations,
                    station,
                    devices,
                    device,
                    dump,
                    notes,
                }.enter_device(api, next)
            },
        }
    }
}

/// A walk that goes on is well formed again.
pub proof fn a_step_keeps_the_walk_well_formed(walk: DumpView, api: LoggedInApiView, reply: ReplyView)
    requires
        walk.wf(),
    ensures
        walk.advanced(api, reply) matches ProgressView::Send(next, _) ==> next.wf(),
{
}

/// Once the stations are known the walk does not fail: whatever comes back
/// for a request, the walk goes on or ends with what it gathered.
pub proof fn a_walk_under_way_does_not_fail(walk: DumpView, api: LoggedInApiView, reply: ReplyView)
    requires
        walk.wf(),
        walk.awaiting != Awaiting::Stations,
    ensures
        !(walk.advanced(api, reply) matches ProgressView::Finished(outcome) && outcome.result is Err),
{
}

/// A failure to list the stations ends the walk, and the walk reports the
/// failure as it is.
pub proof fn a_failed_listing_of_the_stations_ends_the_walk(
    walk: DumpView,
    api: LoggedInApiView,
    reply: ReplyView,
)
    requires
        walk.awaiting == Awaiting::Stations,
        stations_of(reply) is Err,
    ensures
        walk.advanced(api, reply) == ProgressView::Finished(
            OutcomeView { result: Err(stations_of(reply)->Err_0), notes: walk.notes },
        ),
{
}

} // verus!
