//! What a dump walk comes to as a whole.
//!
//! [`dump`] says in one piece what a walk gathers from a remote API.
//! [`the_walk_is_the_traversal`] shows that the walk, taken step by step,
//! ends with exactly that.

use crate::api::dump::{raw_telemetry, started, Awaiting, DumpView, OutcomeView, ProgressView};
use crate::api::error::ErrorView;
use crate::api::exchange::{ReplyView, RequestView};
use crate::api::{asked, device_asked, devices_of, endpoint, posted, station_asked, stations_of};
use crate::json::{rendered, Json};
use crate::model::{Device, LoggedInApiView, StationView};
use crate::note::NoteView;
use vstd::prelude::*;

verus! {

/// What a dump walk has gathered.
pub struct Gathered {
    /// The raw telemetry, by the code of the device type.
    pub dump: Map<u64, Json>,
    /// What was passed over.
    pub notes: Seq<NoteView>,
}

impl Gathered {
    /// Nothing gathered.
    pub open spec fn empty() -> Gathered {
        Gathered { dump: Map::empty(), notes: Seq::empty() }
    }

    /// The same with one more note.
    pub open spec fn noted(self, note: NoteView) -> Gathered {
        Gathered { notes: self.notes.push(note), ..self }
    }

    /// The same with `telemetry` under `code`, in the place of what was
    /// there before.
    pub open spec fn kept(self, code: u64, telemetry: Json) -> Gathered {
        Gathered { dump: self.dump.insert(code, telemetry), ..self }
    }

    /// The outcome of a walk that went to its end with this.
    pub open spec fn outcome(self) -> OutcomeView {
        OutcomeView { result: Ok(self.dump), notes: self.notes }
    }
}

/// What is gathered from the devices of `station` from the one at `from` on,
/// on top of what was gathered before.
///
/// The telemetry of every device is asked for, whether the client knows the
/// device's type or not. The raw telemetry of the answer is kept under the
/// code of the device's type. A call that fails, and an answer without raw
/// telemetry, are passed over with a note.
pub open spec fn devices_dumped(
    remote: spec_fn(RequestView) -> ReplyView,
    api: LoggedInApiView,
    station: StationView,
    devices: Seq<Device>,
    from: nat,
    before: Gathered,
) -> Gathered
    decreases devices.len() - from,
{
    if from >= devices.len() {
        before
    } else {
        let device = devices[from as int];
        let request = asked(api, endpoint::DEVICE_REAL_KPI@, Some(device_asked(device)));
        let with_device = match posted(remote(request)) {
            Ok(document) => match raw_telemetry(document) {
                Some(telemetry) => before.kept(device.type_id.code(), telemetry),
                None => before.noted(
                    NoteView::NoDataItemMap {
                        device_type_id: device.type_id.code(),
                        device_id: device.id,
                        response: rendered(document),
                    },
                ),
            },
            Err(error) => before.noted(
                NoteView::DeviceSkipped { device_id: device.id, station_code: station.code, error },
            ),
        };
        devices_dumped(remote, api, station, devices, from + 1, with_device)
    }
}

/// What is gathered from the stations from the one at `from` on, on top of
/// what was gathered before. A station whose devices cannot be listed is
/// passed over with a note.
pub open spec fn stations_dumped(
    remote: spec_fn(RequestView) -> ReplyView,
    api: LoggedInApiView,
    stations: Seq<StationView>,
    from: nat,
    before: Gathered,
) -> Gathered
    decreases stations.len() - from,
{
    if from >= stations.len() {
        before
    } else {
        let station = stations[from as int];
        let request = asked(api, endpoint::DEVICES@, Some(station_asked(station)));
        let with_station = match devices_of(remote(request)) {
            Ok(devices) => devices_dumped(remote, api, station, devices, 0, before),
            Err(error) => before.noted(
                NoteView::StationSkipped { station_code: station.code, error },
            ),
        };
        stations_dumped(remote, api, stations, from + 1, with_station)
    }
}

/// What a dump gathers from a remote API: the stations are listed and walked
/// in the order of the listing. Only a failure to list them makes the dump
/// fail.
pub open spec fn dump(remote: spec_fn(RequestView) -> ReplyView, api: LoggedInApiView) -> OutcomeView {
    match stations_of(remote(asked(api, endpoint::STATIONS@, None))) {
        Ok(stations) => stations_dumped(remote, api, stations, 0, Gathered::empty()).outcome(),
        Err(error) => OutcomeView { result: Err(error), notes: Seq::empty() },
    }
}

/// Where a walk stands after `steps` more steps against a remote API: each
/// request that the walk asks for is answered by the remote. A walk that is
/// over stays as it is.
pub open spec fn run(
    progress: ProgressView,
    remote: spec_fn(RequestView) -> ReplyView,
    api: LoggedInApiView,
    steps: nat,
) -> ProgressView
    decreases steps,
{
    if steps == 0 {
        progress
    } else {
        match progress {
            ProgressView::Send(walk, request) => run(
                walk.advanced(api, remote(request)),
                remote,
                api,
                (steps - 1) as nat,
            ),
            ProgressView::Finished(_) => progress,
        }
    }
}

/// Steps add up.
pub proof fn run_in_two_parts(
    progress: ProgressView,
    remote: spec_fn(RequestView) -> ReplyView,
    api: LoggedInApiView,
    first: nat,
    second: nat,
)
    ensures
        run(progress, remote, api, first + second) == run(
            run(progress, remote, api, first),
            remote,
            api,
            second,
        ),
    decreases first,
{
    if first > 0 {
        match progress {
            ProgressView::Send(walk, request) => {
                run_in_two_parts(
                    walk.advanced(api, remote(request)),
                    remote,
                    api,
                    (first - 1) as nat,
                    second,
                );
            },
            ProgressView::Finished(_) => {},
        }
    }
}

/// What a walk has gathered.
pub open spec fn gathered(walk: DumpView) -> Gathered {
    Gathered { dump: walk.dump, notes: walk.notes }
}

/// The walk with `gathered` in the place of what it gathered.
pub open spec fn holding(walk: DumpView, gathered: Gathered) -> DumpView {
    DumpView { dump: gathered.dump, notes: gathered.notes, ..walk }
}

/// The steps from the device at `from` on come to what [`devices_dumped`]
/// says; then the walk turns to the next station.
proof fn devices_are_dumped(
    walk: DumpView,
    remote: spec_fn(RequestView) -> ReplyView,
    api: LoggedInApiView,
    from: nat,
) -> (steps: nat)
    requires
        walk.station < walk.stations.len(),
        from <= walk.devices.len(),
    ensures
        run(walk.enter_device(api, from), remote, api, steps) == holding(
            walk,
            devices_dumped(
                remote,
                api,
                walk.stations[walk.station as int],
                walk.devices,
                from,
                gathered(walk),
            ),
        ).enter_station(api, walk.station + 1),
    decreases walk.devices.len() - from,
{
    let station = walk.stations[walk.station as int];
    if from >= walk.devices.len() {
        assert(holding(walk, gathered(walk)) == walk);
        0
    } else {
        let device = walk.devices[from as int];
        let request = asked(api, endpoint::DEVICE_REAL_KPI@, Some(device_asked(device)));
        let waiting = DumpView { awaiting: Awaiting::DeviceKpi, device: from, ..walk };
        assert(walk.enter_device(api, from) == ProgressView::Send(waiting, request));
        let with_device = match posted(remote(request)) {
            Ok(document) => match raw_telemetry(document) {
                Some(telemetry) => gathered(walk).kept(device.type_id.code(), telemetry),
                None => gathered(walk).noted(
                    NoteView::NoDataItemMap {
                        device_type_id: device.type_id.code(),
                        device_id: device.id,
                        response: rendered(document),
                    },
                ),
            },
            Err(error) => gathered(walk).noted(
                NoteView::DeviceSkipped { device_id: device.id, station_code: station.code, error },
            ),
        };
        let next = holding(waiting, with_device);
        assert(waiting.advanced(api, remote(request)) == next.enter_device(api, from + 1));
        let rest = devices_are_dumped(next, remote, api, from + 1);
        let all = devices_dumped(remote, api, station, walk.devices, from, gathered(walk));
        assert(all == devices_dumped(remote, api, station, next.devices, from + 1, gathered(next)));
        assert(holding(next, all).enter_station(api, walk.station + 1) == holding(
            walk,
            all,
        ).enter_station(api, walk.station + 1));
        assert(run(walk.enter_device(api, from), remote, api, 1 + rest) == run(
            next.enter_device(api, from + 1),
            remote,
            api,
            rest,
        ));
        1 + rest
    }
}

/// The steps from the station at `from` on come to what [`stations_dumped`]
/// says.
proof fn stations_are_dumped(
    walk: DumpView,
    remote: spec_fn(RequestView) -> ReplyView,
    api: LoggedInApiView,
    from: nat,
) -> (steps: nat)
    ensures
        run(walk.enter_station(api, from), remote, api, steps) == ProgressView::Finished(
            stations_dumped(remote, api, walk.stations, from, gathered(walk)).outcome(),
        ),
    decreases walk.stations.len() - from,
{
    if from >= walk.stations.len() {
        0
    } else {
        let station = walk.stations[from as int];
        let request = asked(api, endpoint::DEVICES@, Some(station_asked(station)));
        let first = DumpView {
            awaiting: Awaiting::Devices,
            station: from,
            devices: Seq::empty(),
            device: 0,
            ..walk
        };
        let start = walk.enter_station(api, from);
        assert(start == ProgressView::Send(first, request));
        assert(run(start, remote, api, 1) == first.advanced(api, remote(request))) by {
            reveal_with_fuel(run, 2);
        }
        match devices_of(remote(request)) {
            Ok(devices) => {
                let second = DumpView { devices, ..first };
                assert(first.advanced(api, remote(request)) == second.enter_device(api, 0));
                let within = devices_are_dumped(second, remote, api, 0);
                let with_station = devices_dumped(remote, api, station, devices, 0, gathered(walk));
                assert(gathered(second) == gathered(walk));
                let onward = holding(second, with_station);
                let rest = stations_are_dumped(onward, remote, api, from + 1);
                assert(gathered(onward) == with_station);
                run_in_two_parts(start, remote, api, 1, within);
                run_in_two_parts(start, remote, api, 1 + within, rest);
                1 + within + rest
            },
            Err(error) => {
                let with_station = gathered(walk).noted(
                    NoteView::StationSkipped { station_code: station.code, error },
                );
                let onward = holding(first, with_station);
                assert(first.advanced(api, remote(request)) == onward.enter_station(api, from + 1));
                let rest = stations_are_dumped(onward, remote, api, from + 1);
                assert(gathered(onward) == with_station);
                run_in_two_parts(start, remote, api, 1, rest);
                1 + rest
            },
        }
    }
}

/// Against any remote API a walk comes to an end, and ends with what
/// [`dump`] says: `steps` is the number of requests that it takes.
pub proof fn the_walk_is_the_traversal(
    remote: spec_fn(RequestView) -> ReplyView,
    api: LoggedInApiView,
) -> (steps: nat)
    ensures
        run(started(api), remote, api, steps) == ProgressView::Finished(dump(remote, api)),
{
    let request = asked(api, endpoint::STATIONS@, None);
    let start = started(api);
    let first = start->Send_0;
    assert(run(start, remote, api, 1) == first.advanced(api, remote(request))) by {
        reveal_with_fuel(run, 2);
    }
    match stations_of(remote(request)) {
        Ok(stations) => {
            let known = DumpView { stations, ..first };
            let rest = stations_are_dumped(known, remote, api, 0);
            assert(gathered(known) == Gathered::empty());
            run_in_two_parts(start, remote, api, 1, rest);
            1 + rest
        },
        Err(error) => 1,
    }
}

} // verus!
