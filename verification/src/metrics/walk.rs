//! The collection walk: for every station its yield of the day, and for
//! every device of the station its telemetry.
//!
//! The walk does not call the API itself. It says which request to send, is
//! handed what came back, and says what to do next, until it is done.

use crate::api;
use crate::api::error::{Error, ErrorView};
use crate::api::exchange::{LoginReply, Reply, ReplyView, Request, RequestView};
use crate::api::{
    asked, device_asked, device_real_kpi_of, devices_of, endpoint, station_asked,
    station_real_kpi_of, stations_of,
};
use crate::metrics::{
    copy_of, day_power_sample, device_samples, process_device_real_kpi, Gauge, Sample, SampleView,
};
use crate::model::{
    views, Api, Device, DeviceRealKpiView, LoggedInApi, LoggedInApiView, Station,
    StationRealKpiView, StationView,
};
use crate::note::{Note, NoteView};
use vstd::prelude::*;

verus! {

/// What a walk is waiting for.
#[derive(Debug, Clone, Copy, PartialEq, Eq, Structural)]
pub enum Awaiting {
    /// The listing of the stations.
    Stations,
    /// The key figures of the current station.
    StationKpi,
    /// The listing of the devices of the current station.
    Devices,
    /// The telemetry of the current device.
    DeviceKpi,
}

/// A collection walk that waits for the answer to a request.
pub struct Collection {
    awaiting: Awaiting,
    stations: Vec<Station>,
    station: usize,
    devices: Vec<Device>,
    device: usize,
    samples: Vec<Sample>,
    notes: Vec<Note>,
}

/// The mathematical content of a [`Collection`].
pub struct CollectionView {
    pub awaiting: Awaiting,
    /// The stations of the account, once they are known.
    pub stations: Seq<StationView>,
    /// The index of the current station.
    pub station: nat,
    /// The devices of the current station, once they are known.
    pub devices: Seq<Device>,
    /// The index of the current device.
    pub device: nat,
    /// The samples gathered so far.
    pub samples: Seq<SampleView>,
    /// What was passed over so far.
    pub notes: Seq<NoteView>,
}

/// How a walk ended, and what it gathered until then.
#[derive(Debug)]
pub struct Outcome {
    pub result: Result<(), Error>,
    pub samples: Vec<Sample>,
    pub notes: Vec<Note>,
}

/// The mathematical content of an [`Outcome`].
pub struct OutcomeView {
    pub result: Result<(), ErrorView>,
    pub samples: Seq<SampleView>,
    pub notes: Seq<NoteView>,
}

impl View for Outcome {
    type V = OutcomeView;

    open spec fn view(&self) -> OutcomeView {
        OutcomeView {
            result: api::unit_view(self.result),
            samples: views(self.samples@),
            notes: views(self.notes@),
        }
    }
}

/// Where a walk stands after a step.
pub enum Progress {
    /// The walk goes on: send the request and hand what comes back to
    /// [`Collection::advance`].
    Send(Collection, Request),
    /// The walk is over.
    Finished(Outcome),
}

/// The mathematical content of a [`Progress`].
pub enum ProgressView {
    Send(CollectionView, RequestView),
    Finished(OutcomeView),
}

impl View for Progress {
    type V = ProgressView;

    open spec fn view(&self) -> ProgressView {
        match *self {
            Progress::Send(collection, request) => ProgressView::Send(collection@, request@),
            Progress::Finished(outcome) => ProgressView::Finished(outcome@),
        }
    }
}

/// The index of the first device from `from` on whose type the client knows;
/// the number of devices if there is none.
pub open spec fn first_supported(devices: Seq<Device>, from: nat) -> nat
    decreases devices.len() - from,
{
    if from >= devices.len() {
        devices.len()
    } else if devices[from as int].type_id is SupportedDeviceTypeId {
        from
    } else {
        first_supported(devices, from + 1)
    }
}

/// The note by which a device is passed over whose type the client does not
/// know.
pub open spec fn unknown_type_note(station: StationView, device: Device) -> NoteView {
    NoteView::DeviceSkipped {
        device_id: device.id,
        station_code: station.code,
        error: ErrorView::UnknownDeviceType(device.type_id.code()),
    }
}

/// The notes for the devices from `from` up to `to`, none of whose types the
/// client knows.
pub open spec fn unknown_type_notes(
    station: StationView,
    devices: Seq<Device>,
    from: nat,
    to: nat,
) -> Seq<NoteView> {
    Seq::new((to - from) as nat, |i: int| unknown_type_note(station, devices[from + i]))
}

impl CollectionView {
    /// What holds of every walk that waits for an answer: there is a current
    /// station once the stations are known, and the current device is one
    /// whose type the client knows.
    pub open spec fn wf(self) -> bool {
        match self.awaiting {
            Awaiting::Stations => true,
            Awaiting::StationKpi => self.station < self.stations.len(),
            Awaiting::Devices => self.station < self.stations.len(),
            Awaiting::DeviceKpi => {
                &&& self.station < self.stations.len()
                &&& self.device < self.devices.len()
                &&& self.devices[self.device as int].type_id is SupportedDeviceTypeId
            },
        }
    }

    /// The walk ends with `result`. What was gathered is kept.
    pub open spec fn finished(self, result: Result<(), ErrorView>) -> ProgressView {
        ProgressView::Finished(OutcomeView { result, samples: self.samples, notes: self.notes })
    }

    /// The walk turns to the station at `index`: it asks for the station's
    /// key figures, and forgets the devices of the station before. After the
    /// last station the walk is over.
    pub open spec fn enter_station(self, api: LoggedInApiView, index: nat) -> ProgressView {
        if index < self.stations.len() {
            ProgressView::Send(
                CollectionView {
                    awaiting: Awaiting::StationKpi,
                    station: index,
                    devices: Seq::empty(),
                    device: 0,
                    ..self
                },
                asked(
                    api,
                    endpoint::STATION_REAL_KPI@,
                    Some(station_asked(self.stations[index as int])),
                ),
            )
        } else {
            self.finished(Ok(()))
        }
    }

    /// The walk turns to the devices of the current station from `from` on:
    /// it passes over those whose type the client does not know, with a note
    /// for each, and asks for the telemetry of the first whose type it
    /// knows. After the last device the walk turns to the next station.
    pub open spec fn enter_device(self, api: LoggedInApiView, from: nat) -> ProgressView {
        let at = first_supported(self.devices, from);
        let station = self.stations[self.station as int];
        let noted = CollectionView {
            notes: self.notes + unknown_type_notes(station, self.devices, from, at),
            ..self
        };
        if at < self.devices.len() {
            ProgressView::Send(
                CollectionView { awaiting: Awaiting::DeviceKpi, device: at, ..noted },
                asked(api, endpoint::DEVICE_REAL_KPI@, Some(device_asked(self.devices[at as int]))),
            )
        } else {
            noted.enter_station(api, self.station + 1)
        }
    }

    /// The step that the walk takes on an answer.
    ///
    /// - The listing of the stations: a failure ends the walk; otherwise the
    ///   walk turns to the first station.
    /// - The key figures of a station: a failure ends the walk. The first
    ///   entry gives the sample of the day's yield; where there is none, the
    ///   station's yield is passed over with a note. Either way the walk asks
    ///   for the station's devices.
    /// - The listing of the devices of a station: a failure ends the walk;
    ///   otherwise the walk turns to the first device.
    /// - The telemetry of a device: the first entry gives the device's
    ///   samples; where there is none, the device is passed over with a
    ///   note, and so it is where the answer names a device type that the
    ///   client does not know. Any other failure ends the walk. Otherwise
    ///   the walk turns to the next device.
    pub open spec fn advanced(self, api: LoggedInApiView, reply: ReplyView) -> ProgressView {
        let station = self.stations[self.station as int];
        let device = self.devices[self.device as int];
        match self.awaiting {
            Awaiting::Stations => match stations_of(reply) {
                Ok(stations) => CollectionView { stations, ..self }.enter_station(api, 0),
                Err(error) => self.finished(Err(error)),
            },
            Awaiting::StationKpi => match station_real_kpi_of(reply) {
                Ok(figures) => {
                    let noted = if figures.len() > 0 {
                        CollectionView {
                            samples: self.samples.push(day_power_sample(station, figures[0])),
                            ..self
                        }
                    } else {
                        CollectionView {
                            notes: self.notes.push(
                                NoteView::NoStationKpi { station_code: station.code },
                            ),
                            ..self
                        }
                    };
                    ProgressView::Send(
                        CollectionView { awaiting: Awaiting::Devices, ..noted },
                        asked(api, endpoint::DEVICES@, Some(station_asked(station))),
                    )
                },
                Err(error) => self.finished(Err(error)),
            },
            Awaiting::Devices => match devices_of(reply) {
                Ok(devices) => CollectionView { devices, ..self }.enter_device(api, 0),
                Err(error) => self.finished(Err(error)),
            },
            Awaiting::DeviceKpi => match device_real_kpi_of(reply) {
                Ok(telemetry) => if telemetry.len() > 0 {
                    CollectionView {
                        samples: self.samples + device_samples(telemetry[0], station, device),
                        ..self
                    }.enter_device(api, self.device + 1)
                } else {
                    CollectionView {
                        notes: self.notes.push(
                            NoteView::NoDeviceKpi {
                                device_id: device.id,
                                station_code: station.code,
                            },
                        ),
                        ..self
                    }.enter_device(api, self.device + 1)
                },
                Err(error) => if error.skippable() {
                    CollectionView {
                        notes: self.notes.push(
                            NoteView::DeviceSkipped {
                                device_id: device.id,
                                station_code: station.code,
                                error,
                            },
                        ),
                        ..self
                    }.enter_device(api, self.device + 1)
                } else {
                    self.finished(Err(error))
                },
            },
        }
    }
}

impl View for Collection {
    type V = CollectionView;

    closed spec fn view(&self) -> CollectionView {
        CollectionView {
            awaiting: self.awaiting,
            stations: views(self.stations@),
            station: self.station as nat,
            devices: self.devices@,
            device: self.device as nat,
            samples: views(self.samples@),
            notes: views(self.notes@),
        }
    }
}

/// What a walk starts with: nothing is known, nothing is gathered, and the
/// listing of the stations is asked for.
pub open spec fn started(api: LoggedInApiView) -> ProgressView {
    ProgressView::Send(
        CollectionView {
            awaiting: Awaiting::Stations,
            stations: Seq::empty(),
            station: 0,
            devices: Seq::empty(),
            device: 0,
            samples: Seq::empty(),
            notes: Seq::empty(),
        },
        asked(api, endpoint::STATIONS@, None),
    )
}

/// Starts a collection walk: for every station its yield of the day, and
/// for every device of the station its telemetry.
pub fn collect_day_power(api: &LoggedInApi) -> (r: Progress)
    ensures
        r@ == started(api@),
{
    let collection = Collection {
        awaiting: Awaiting::Stations,
        stations: Vec::new(),
        station: 0,
        devices: Vec::new(),
        device: 0,
        samples: Vec::new(),
        notes: Vec::new(),
    };
    assert(collection@.stations =~= Seq::empty());
    assert(collection@.samples =~= Seq::empty());
    assert(collection@.notes =~= Seq::empty());
    Progress::Send(collection, api::stations_request(api))
}

impl Collection {
    #[verifier::type_invariant]
    spec fn well_formed(self) -> bool {
        self@.wf()
    }

    fn finish(self, result: Result<(), Error>) -> (r: Progress)
        ensures
            r@ == self@.finished(api::unit_view(result)),
    {
        Progress::Finished(Outcome { result, samples: self.samples, notes: self.notes })
    }

    fn enter_station(self, api: &LoggedInApi, index: usize) -> (r: Progress)
        ensures
            r@ == self@.enter_station(api@, index as nat),
    {
        if index < self.stations.len() {
            let request = api::station_real_kpi_request(api, &self.stations[index]);
            Progress::Send(
                Collection {
                    awaiting: Awaiting::StationKpi,
                    stations: self.stations,
                    station: index,
                    devices: Vec::new(),
                    device: 0,
                    samples: self.samples,
                    notes: self.notes,
                },
                request,
            )
        } else {
            self.finish(Ok(()))
        }
    }

    /// Starts the walk over the devices of the current station, or goes on
    /// with it, from the device at `from`.
    #[verifier::loop_isolation(false)]
    fn collect_station_devices(self, api: &LoggedInApi, from: usize) -> (r: Progress)
        requires
            self.station < self.stations.len(),
            from <= self.devices.len(),
        ensures
            r@ == self@.enter_device(api@, from as nat),
    {
        let Collection { awaiting: _, stations, station, devices, device, samples, mut notes } = self;
        let ghost before = notes@;
        let ghost place = stations@[station as int]@;
        let mut at: usize = from;
        while at < devices.len()
            invariant
                from <= at <= devices.len(),
                station < stations.len(),
                place == stations@[station as int]@,
                first_supported(devices@, from as nat) == first_supported(devices@, at as nat),
                views(notes@) == views(before) + unknown_type_notes(
                    place,
                    devices@,
                    from as nat,
                    at as nat,
                ),
            decreases devices.len() - at,
        {
            match api::device_real_kpi_request(api, &devices[at]) {
                Ok(request) => {
                    return Progress::Send(
                        Collection {
                            awaiting: Awaiting::DeviceKpi,
                            stations,
                            station,
                            devices,
                            device: at,
                            samples,
                            notes,
                        },
                        request,
                    );
                },
                Err(error) => {
                    let ghost so_far = notes@;
                    notes.push(
                        Note::DeviceSkipped {
                            device_id: devices[at].id,
                            station_code: stations[station].code.clone(),
                            error,
                        },
                    );
                    assert(views(notes@) =~= views(so_far).push(
                        unknown_type_note(place, devices@[at as int]),
                    ));
                },
            }
            at += 1;
        }
        let next = station + 1;
        Collection {
            awaiting: Awaiting::Devices,
            stations,
            station,
            devices,
            device,
            samples,
            notes,
        }.enter_station(api, next)
    }

    /// Takes the next step of the walk: `reply` is what came back for the
    /// request that the walk asked for last.
    pub fn advance(self, api: &LoggedInApi, reply: Reply) -> (r: Progress)
        ensures
            r@ == self@.advanced(api@, reply@),
    {
        proof {
            use_type_invariant(&self);
        }
        match self.awaiting {
            Awaiting::Stations => match api::stations(reply) {
                Ok(stations) => {
                    let Collection { awaiting, stations: _, station, devices, device, samples, notes } = self;
                    Collection {
                        awaiting,
                        stations,
                        station,
                        devices,
                        device,
                        samples,
                        notes,
                    }.enter_station(api, 0)
                },
                Err(error) => self.finish(Err(error)),
            },
            Awaiting::StationKpi => match api::station_real_kpi(reply) {
                Ok(figures) => {
                    let Collection { awaiting: _, stations, station, devices, device, mut samples, mut notes } = self;
                    let ghost samples_before = samples@;
                    let ghost notes_before = notes@;
                    if figures.len() > 0 {
                        let mut labels: Vec<String> = Vec::new();
                        labels.push(stations[station].code.clone());
                        let sample = Sample {
                            gauge: Gauge::DayPower,
                            labels,
                            value: copy_of(&figures[0].day_power),
                        };
                        assert(sample@.labels =~= seq![stations@[station as int]@.code]);
                        samples.push(sample);
                        assert(views(samples@) =~= views(samples_before).push(
                            day_power_sample(stations@[station as int]@, figures@[0]@),
                        ));
                    } else {
                        notes.push(Note::NoStationKpi { station_code: stations[station].code.clone() });
                        assert(views(notes@) =~= views(notes_before).push(
                            NoteView::NoStationKpi { station_code: stations@[station as int]@.code },
                        ));
                    }
                    let request = api::devices_request(api, &stations[station]);
                    Progress::Send(
                        Collection {
                            awaiting: Awaiting::Devices,
                            stations,
                            station,
                            devices,
                            device,
                            samples,
                            notes,
                        },
                        request,
                    )
                },
                Err(error) => self.finish(Err(error)),
            },
            Awaiting::Devices => match api::devices(reply) {
                Ok(devices) => {
                    let Collection { awaiting: _, stations, station, devices: _, device, samples, notes } = self;
                    assert(views(devices@) =~= devices@);
                    Collection {
                        awaiting: Awaiting::Devices,
                        stations,
                        station,
                        devices,
                        device,
                        samples,
                        notes,
                    }.collect_station_devices(api, 0)
                },
                Err(error) => self.finish(Err(error)),
            },
            Awaiting::DeviceKpi => match api::device_real_kpi(reply) {
                Ok(telemetry) => {
                    let Collection { awaiting: _, stations, station, devices, device, mut samples, mut notes } = self;
                    let ghost samples_before = samples@;
                    let ghost notes_before = notes@;
                    assert(device < devices.len());
                    if telemetry.len() > 0 {
                        let mut gathered = process_device_real_kpi(
                            &telemetry[0],
                            &stations[station],
                            devices[device],
                        );
                        samples.append(&mut gathered);
                        assert(views(samples@) =~= views(samples_before) + device_samples(
                            telemetry@[0]@,
                            stations@[station as int]@,
                            devices@[device as int],
                        ));
                    } else {
                        notes.push(
                            Note::NoDeviceKpi {
                                device_id: devices[device].id,
                                station_code: stations[station].code.clone(),
                            },
                        );
                        assert(views(notes@) =~= views(notes_before).push(
                            NoteView::NoDeviceKpi {
                                device_id: devices@[device as int].id,
                                station_code: stations@[station as int]@.code,
                            },
                        ));
                    }
                    let next = device + 1;
                    Collection {
                        awaiting: Awaiting::Devices,
                        stations,
                        station,
                        devices,
                        device,
                        samples,
                        notes,
                    }.collect_station_devices(api, next)
                },
                Err(error) => if error.skippable() {
                    let Collection { awaiting: _, stations, station, devices, device, samples, mut notes } = self;
                    let ghost notes_before = notes@;
                    assert(device < devices.len());
                    notes.push(
                        Note::DeviceSkipped {
                            device_id: devices[device].id,
                            station_code: stations[station].code.clone(),
                            error,
                        },
                    );
                    assert(views(notes@) =~= views(notes_before).push(
                        NoteView::DeviceSkipped {
                            device_id: devices@[device as int].id,
                            station_code: stations@[station as int]@.code,
                            error: error@,
                        },
                    ));
                    let next = device + 1;
                    Collection {
                        awaiting: Awaiting::Devices,
                        stations,
                        station,
                        devices,
                        device,
                        samples,
                        notes,
                    }.collect_station_devices(api, next)
                } else {
                    self.finish(Err(error))
                },
            },
        }
    }
}

/// What a collection cycle starts with, by what came back for the login
/// request: the session and the first step of the walk, or the failure of
/// the login.
pub fn collect(api: &Api, reply: LoginReply) -> (r: Result<(LoggedInApi, Progress), Error>)
    ensures
        match r {
            Ok((session, progress)) => api::logged_in(api@, reply@) == Ok::<
                LoggedInApiView,
                ErrorView,
            >(session@) && progress@ == started(session@),
            Err(error) => api::logged_in(api@, reply@) == Err::<LoggedInApiView, ErrorView>(error@),
        },
{
    match api::login(api, reply) {
        Ok(session) => {
            let progress = collect_day_power(&session);
            Ok((session, progress))
        },
        Err(error) => Err(error),
    }
}

impl ProgressView {
    /// The samples gathered up to this point of the walk.
    pub open spec fn samples(self) -> Seq<SampleView> {
        match self {
            ProgressView::Send(collection, _) => collection.samples,
            ProgressView::Finished(outcome) => outcome.samples,
        }
    }

    /// What was passed over up to this point of the walk.
    pub open spec fn notes(self) -> Seq<NoteView> {
        match self {
            ProgressView::Send(collection, _) => collection.notes,
            ProgressView::Finished(outcome) => outcome.notes,
        }
    }

    /// Whether the walk ended with a failure.
    pub open spec fn failed(self) -> bool {
        self matches ProgressView::Finished(outcome) && outcome.result is Err
    }
}

/// A walk that goes on is well formed again.
pub proof fn a_step_keeps_the_walk_well_formed(
    walk: CollectionView,
    api: LoggedInApiView,
    reply: ReplyView,
)
    requires
        walk.wf(),
    ensures
        walk.advanced(api, reply) matches ProgressView::Send(next, _) ==> next.wf(),
{
    if walk.awaiting == Awaiting::Devices {
        if let Ok(devices) = devices_of(reply) {
            first_supported_is_supported(devices, 0);
        }
    }
    if walk.awaiting == Awaiting::DeviceKpi {
        first_supported_is_supported(walk.devices, walk.device + 1);
    }
}

/// [`first_supported`] is the index of a device whose type the client knows,
/// or the number of devices; all devices from `from` up to it are of types
/// that the client does not know.
pub proof fn first_supported_is_supported(devices: Seq<Device>, from: nat)
    ensures
        from <= devices.len() ==> from <= first_supported(devices, from) <= devices.len(),
        first_supported(devices, from) < devices.len() ==> devices[first_supported(
            devices,
            from,
        ) as int].type_id is SupportedDeviceTypeId,
        forall|i: int|
            from <= i < first_supported(devices, from) ==> (
            #[trigger] devices[i]).type_id is UnsupportedDeviceTypeId,
    decreases devices.len() - from,
{
    if from < devices.len() && !(devices[from as int].type_id is SupportedDeviceTypeId) {
        first_supported_is_supported(devices, from + 1);
    }
}

/// A station for which the API holds no key figures does not end the walk:
/// the walk notes it, gathers nothing for it, and goes on with the station's
/// devices.
pub proof fn a_station_without_key_figures_is_passed_over(
    walk: CollectionView,
    api: LoggedInApiView,
    reply: ReplyView,
)
    requires
        walk.wf(),
        walk.awaiting == Awaiting::StationKpi,
        station_real_kpi_of(reply) matches Ok(figures) && figures.len() == 0,
    ensures
        walk.advanced(api, reply) matches ProgressView::Send(next, request) && {
            &&& next.awaiting == Awaiting::Devices
            &&& next.station == walk.station
            &&& next.samples == walk.samples
            &&& next.notes == walk.notes.push(
                NoteView::NoStationKpi { station_code: walk.stations[walk.station as int].code },
            )
            &&& request == asked(
                api,
                endpoint::DEVICES@,
                Some(station_asked(walk.stations[walk.station as int])),
            )
        },
{
}

/// A device for which the API holds no telemetry, and an answer that names a
/// device type that the client does not know, do not end the walk: the walk
/// notes the device, keeps what it gathered, and goes on.
pub proof fn a_device_without_telemetry_is_passed_over(
    walk: CollectionView,
    api: LoggedInApiView,
    reply: ReplyView,
)
    requires
        walk.wf(),
        walk.awaiting == Awaiting::DeviceKpi,
        match device_real_kpi_of(reply) {
            Ok(telemetry) => telemetry.len() == 0,
            Err(error) => error is UnknownDeviceType,
        },
    ensures
        !walk.advanced(api, reply).failed(),
        walk.advanced(api, reply).samples() == walk.samples,
        walk.notes.len() < walk.advanced(api, reply).notes().len(),
        walk.advanced(api, reply).notes().subrange(0, walk.notes.len() as int) == walk.notes,
{
    let after = walk.advanced(api, reply);
    assert(after.notes().subrange(0, walk.notes.len() as int) =~= walk.notes);
}

/// A failure of the call pipeline ends the walk, and the walk reports the
/// failure as it is. What was gathered before is kept.
pub proof fn a_failed_call_ends_the_walk(
    walk: CollectionView,
    api: LoggedInApiView,
    reply: ReplyView,
    error: ErrorView,
)
    requires
        walk.wf(),
        !error.skippable(),
        match walk.awaiting {
            Awaiting::Stations => stations_of(reply) == Err::<Seq<StationView>, ErrorView>(error),
            Awaiting::StationKpi => station_real_kpi_of(reply) == Err::<
                Seq<StationRealKpiView>,
                ErrorView,
            >(error),
            Awaiting::Devices => devices_of(reply) == Err::<Seq<Device>, ErrorView>(error),
            Awaiting::DeviceKpi => device_real_kpi_of(reply) == Err::<
                Seq<DeviceRealKpiView>,
                ErrorView,
            >(error),
        },
    ensures
        walk.advanced(api, reply) == ProgressView::Finished(
            OutcomeView { result: Err(error), samples: walk.samples, notes: walk.notes },
        ),
{
}

/// No step of the walk drops a sample or a note: what was gathered before
/// the step is the beginning of what is gathered after it.
pub proof fn a_step_keeps_what_was_gathered(
    walk: CollectionView,
    api: LoggedInApiView,
    reply: ReplyView,
)
    requires
        walk.wf(),
    ensures
        walk.samples.len() <= walk.advanced(api, reply).samples().len(),
        walk.advanced(api, reply).samples().subrange(0, walk.samples.len() as int) == walk.samples,
        walk.notes.len() <= walk.advanced(api, reply).notes().len(),
        walk.advanced(api, reply).notes().subrange(0, walk.notes.len() as int) == walk.notes,
{
    let after = walk.advanced(api, reply);
    assert(after.samples().subrange(0, walk.samples.len() as int) =~= walk.samples);
    assert(after.notes().subrange(0, walk.notes.len() as int) =~= walk.notes);
}

} // verus!
