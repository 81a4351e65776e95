//! What a collection walk comes to as a whole.
//!
//! [`collection`] says in one piece what a walk gathers from a remote API:
//! it goes through the stations in order, and through the devices of each
//! station in order. [`the_walk_is_the_traversal`] shows that the walk, taken
//! step by step, ends with exactly that.

use crate::api::error::ErrorView;
use crate::api::exchange::{ReplyView, RequestView};
use crate::api::{
    asked, device_asked, device_real_kpi_of, devices_of, endpoint, station_asked,
    station_real_kpi_of, stations_of,
};
use crate::metrics::walk::{
    first_supported, first_supported_is_supported, started, unknown_type_note, unknown_type_notes,
    CollectionView, OutcomeView, ProgressView,
};
use crate::metrics::{day_power_sample, device_samples, SampleView};
use crate::model::{Device, LoggedInApiView, StationView};
use crate::note::NoteView;
use vstd::prelude::*;

verus! {

impl OutcomeView {
    /// Nothing gathered, nothing failed.
    pub open spec fn empty() -> OutcomeView {
        OutcomeView { result: Ok(()), samples: Seq::empty(), notes: Seq::empty() }
    }

    /// The same with some more samples.
    pub open spec fn sampled(self, samples: Seq<SampleView>) -> OutcomeView {
        OutcomeView { samples: self.samples + samples, ..self }
    }

    /// The same with one more note.
    pub open spec fn noted(self, note: NoteView) -> OutcomeView {
        OutcomeView { notes: self.notes.push(note), ..self }
    }

    /// The same, ended by a failure.
    pub open spec fn failed(self, error: ErrorView) -> OutcomeView {
        OutcomeView { result: Err(error), ..self }
    }
}

/// What is gathered from the devices of `station` from the one at `from` on,
/// on top of what was gathered before.
///
/// A device whose type the client does not know is passed over with a note.
/// Of any other device the telemetry is asked for: the first entry of the
/// answer gives the device's samples; an answer without entries, and one
/// that names a device type that the client does not know, are passed over
/// with a note; any other failure ends the collection.
pub open spec fn devices_walked(
    remote: spec_fn(RequestView) -> ReplyView,
    api: LoggedInApiView,
    station: StationView,
    devices: Seq<Device>,
    from: nat,
    before: OutcomeView,
) -> OutcomeView
    decreases devices.len() - from,
{
    if from >= devices.len() {
        before
    } else {
        let device = devices[from as int];
        if device.type_id is SupportedDeviceTypeId {
            let request = asked(api, endpoint::DEVICE_REAL_KPI@, Some(device_asked(device)));
            match device_real_kpi_of(remote(request)) {
                Ok(telemetry) => if telemetry.len() > 0 {
                    devices_walked(
                        remote,
                        api,
                        station,
                        devices,
                        from + 1,
                        before.sampled(device_samples(telemetry[0], station, device)),
                    )
                } else {
                    devices_walked(
                        remote,
                        api,
                        station,
                        devices,
                        from + 1,
                        before.noted(
                            NoteView::NoDeviceKpi {
                                device_id: device.id,
                                station_code: station.code,
                            },
                        ),
                    )
                },
                Err(error) => if error.skippable() {
                    devices_walked(
                        remote,
                        api,
                        station,
                        devices,
                        from + 1,
                        before.noted(
                            NoteView::DeviceSkipped {
                                device_id: device.id,
                                station_code: station.code,
                                error,
                            },
                        ),
                    )
                } else {
                    before.failed(error)
                },
            }
        } else {
            devices_walked(
                remote,
                api,
                station,
                devices,
                from + 1,
                before.noted(unknown_type_note(station, device)),
            )
        }
    }
}

/// What is gathered from the stations from the one at `from` on, on top of
/// what was gathered before.
///
/// Of each station the key figures are asked for, then the devices. The
/// first entry of the key figures gives the sample of the day's yield; a
/// station without key figures is passed over with a note, and its devices
/// are walked all the same. A failure of either call ends the collection.
pub open spec fn stations_walked(
    remote: spec_fn(RequestView) -> ReplyView,
    api: LoggedInApiView,
    stations: Seq<StationView>,
    from: nat,
    before: OutcomeView,
) -> OutcomeView
    decreases stations.len() - from,
{
    if from >= stations.len() {
        before
    } else {
        let station = stations[from as int];
        let figures_asked = asked(api, endpoint::STATION_REAL_KPI@, Some(station_asked(station)));
        let devices_asked = asked(api, endpoint::DEVICES@, Some(station_asked(station)));
        match station_real_kpi_of(remote(figures_asked)) {
            Ok(figures) => {
                let with_figures = if figures.len() > 0 {
                    OutcomeView {
                        samples: before.samples.push(day_power_sample(station, figures[0])),
                        ..before
                    }
                } else {
                    before.noted(NoteView::NoStationKpi { station_code: station.code })
                };
                match devices_of(remote(devices_asked)) {
                    Ok(devices) => {
                        let with_devices = devices_walked(
                            remote,
                            api,
                            station,
                            devices,
                            0,
                            with_figures,
                        );
                        if with_devices.result is Err {
                            with_devices
                        } else {
                            stations_walked(remote, api, stations, from + 1, with_devices)
                        }
                    },
                    Err(error) => with_figures.failed(error),
                }
            },
            Err(error) => before.failed(error),
        }
    }
}

/// What a collection gathers from a remote API, and how it ends: the
/// stations are listed and walked in the order of the listing. A failure to
/// list them ends the collection before it gathered anything.
pub open spec fn collection(
    remote: spec_fn(RequestView) -> ReplyView,
    api: LoggedInApiView,
) -> OutcomeView {
    match stations_of(remote(asked(api, endpoint::STATIONS@, None))) {
        Ok(stations) => stations_walked(remote, api, stations, 0, OutcomeView::empty()),
        Err(error) => OutcomeView::empty().failed(error),
    }
}

/// Where a walk stands after `steps` more steps against a remote API: each
/// request that the walk asks for is answered by the remote. A walk that is
/// over stays as it is.
pub open spec fn run(
    progress: ProgressView,
    remote: spec_fn(RequestView) -> ReplyView,
    api: LoggedInApiView,
    steps: nat,
) -> ProgressView
    decreases steps,
{
    if steps == 0 {
        progress
    } else {
        match progress {
            ProgressView::Send(walk, request) => run(
                walk.advanced(api, remote(request)),
                remote,
                api,
                (steps - 1) as nat,
            ),
            ProgressView::Finished(_) => progress,
        }
    }
}

/// Steps add up.
pub proof fn run_in_two_parts(
    progress: ProgressView,
    remote: spec_fn(RequestView) -> ReplyView,
    api: LoggedInApiView,
    first: nat,
    second: nat,
)
    ensures
        run(progress, remote, api, first + second) == run(
            run(progress, remote, api, first),
            remote,
            api,
            second,
        ),
    decreases first,
{
    if first > 0 {
        match progress {
            ProgressView::Send(walk, request) => {
                run_in_two_parts(
                    walk.advanced(api, remote(request)),
                    remote,
                    api,
                    (first - 1) as nat,
                    second,
                );
            },
            ProgressView::Finished(_) => {},
        }
    }
}

/// What a walk has gathered, as an outcome that has not failed.
pub open spec fn gathered(walk: CollectionView) -> OutcomeView {
    OutcomeView { result: Ok(()), samples: walk.samples, notes: walk.notes }
}

/// The walk with what `outcome` holds in the place of what it gathered.
pub open spec fn holding(walk: CollectionView, outcome: OutcomeView) -> CollectionView {
    CollectionView { samples: outcome.samples, notes: outcome.notes, ..walk }
}

/// The steps from the device at `from` on come to what [`devices_walked`]
/// says: a failure ends the walk with it, otherwise the walk turns to the
/// next station with what it gathered.
proof fn devices_are_walked(
    walk: CollectionView,
    remote: spec_fn(RequestView) -> ReplyView,
    api: LoggedInApiView,
    from: nat,
) -> (steps: nat)
    requires
        walk.station < walk.stations.len(),
        from <= walk.devices.len(),
    ensures
        ({
            let outcome = devices_walked(
                remote,
                api,
                walk.stations[walk.station as int],
                walk.devices,
                from,
                gathered(walk),
            );
            run(walk.enter_device(api, from), remote, api, steps) == if outcome.result is Err {
                ProgressView::Finished(outcome)
            } else {
                holding(walk, outcome).enter_station(api, walk.station + 1)
            }
        }),
    decreases walk.devices.len() - from,
{
    let station = walk.stations[walk.station as int];
    let at = first_supported(walk.devices, from);
    if from >= walk.devices.len() {
        assert(walk.notes + unknown_type_notes(station, walk.devices, from, at) =~= walk.notes);
        assert(holding(walk, gathered(walk)) == walk);
        0
    } else {
        let device = walk.devices[from as int];
        if device.type_id is SupportedDeviceTypeId {
            assert(walk.notes + unknown_type_notes(station, walk.devices, from, at) =~= walk.notes);
            let waiting = CollectionView {
                awaiting: crate::metrics::walk::Awaiting::DeviceKpi,
                device: from,
                ..walk
            };
            let request = asked(api, endpoint::DEVICE_REAL_KPI@, Some(device_asked(device)));
            assert(walk.enter_device(api, from) == ProgressView::Send(waiting, request));
            let next = match device_real_kpi_of(remote(request)) {
                Ok(telemetry) => if telemetry.len() > 0 {
                    CollectionView {
                        samples: waiting.samples + device_samples(telemetry[0], station, device),
                        ..waiting
                    }
                } else {
                    CollectionView {
                        notes: waiting.notes.push(
                            NoteView::NoDeviceKpi {
                                device_id: device.id,
                                station_code: station.code,
                            },
                        ),
                        ..waiting
                    }
                },
                Err(error) => CollectionView {
                    notes: waiting.notes.push(
                        NoteView::DeviceSkipped {
                            device_id: device.id,
                            station_code: station.code,
                            error,
                        },
                    ),
                    ..waiting
                },
            };
            if device_real_kpi_of(remote(request)) matches Err(error) && !error.skippable() {
                assert(run(walk.enter_device(api, from), remote, api, 1) == run(
                    waiting.advanced(api, remote(request)),
                    remote,
                    api,
                    0,
                ));
                1
            } else {
                assert(waiting.advanced(api, remote(request)) == next.enter_device(api, from + 1));
                let rest = devices_are_walked(next, remote, api, from + 1);
                let outcome = devices_walked(remote, api, station, walk.devices, from, gathered(walk));
                assert(outcome == devices_walked(
                    remote,
                    api,
                    station,
                    next.devices,
                    from + 1,
                    gathered(next),
                ));
                assert(holding(next, outcome).enter_station(api, walk.station + 1) == holding(
                    walk,
                    outcome,
                ).enter_station(api, walk.station + 1));
                assert(run(walk.enter_device(api, from), remote, api, 1 + rest) == run(
                    next.enter_device(api, from + 1),
                    remote,
                    api,
                    rest,
                ));
                1 + rest
            }
        } else {
            let next = CollectionView {
                notes: walk.notes.push(unknown_type_note(station, device)),
                ..walk
            };
            first_supported_is_supported(walk.devices, from + 1);
            assert(walk.notes + unknown_type_notes(station, walk.devices, from, at) =~= next.notes
                + unknown_type_notes(station, walk.devices, from + 1, at));
            assert(walk.enter_device(api, from) == next.enter_device(api, from + 1));
            let rest = devices_are_walked(next, remote, api, from + 1);
            let outcome = devices_walked(remote, api, station, walk.devices, from, gathered(walk));
            assert(holding(next, outcome) == holding(walk, outcome));
            rest
        }
    }
}

/// The steps from the station at `from` on come to what [`stations_walked`]
/// says.
proof fn stations_are_walked(
    walk: CollectionView,
    remote: spec_fn(RequestView) -> ReplyView,
    api: LoggedInApiView,
    from: nat,
) -> (steps: nat)
    ensures
        run(walk.enter_station(api, from), remote, api, steps) == ProgressView::Finished(
            stations_walked(remote, api, walk.stations, from, gathered(walk)),
        ),
    decreases walk.stations.len() - from,
{
    if from >= walk.stations.len() {
        0
    } else {
        let station = walk.stations[from as int];
        let figures_asked = asked(api, endpoint::STATION_REAL_KPI@, Some(station_asked(station)));
        let devices_asked = asked(api, endpoint::DEVICES@, Some(station_asked(station)));
        let first = CollectionView {
            awaiting: crate::metrics::walk::Awaiting::StationKpi,
            station: from,
            devices: Seq::empty(),
            device: 0,
            ..walk
        };
        let start = walk.enter_station(api, from);
        assert(start == ProgressView::Send(first, figures_asked));
        match station_real_kpi_of(remote(figures_asked)) {
            Ok(figures) => {
                let noted = if figures.len() > 0 {
                    CollectionView {
                        samples: first.samples.push(day_power_sample(station, figures[0])),
                        ..first
                    }
                } else {
                    CollectionView {
                        notes: first.notes.push(
                            NoteView::NoStationKpi { station_code: station.code },
                        ),
                        ..first
                    }
                };
                let second = CollectionView {
                    awaiting: crate::metrics::walk::Awaiting::Devices,
                    ..noted
                };
                assert(first.advanced(api, remote(figures_asked)) == ProgressView::Send(
                    second,
                    devices_asked,
                ));
                assert(run(start, remote, api, 1) == ProgressView::Send(second, devices_asked)) by {
                    reveal_with_fuel(run, 2);
                }
                match devices_of(remote(devices_asked)) {
                    Ok(devices) => {
                        let third = CollectionView { devices, ..second };
                        assert(second.advanced(api, remote(devices_asked)) == third.enter_device(
                            api,
                            0,
                        ));
                        assert(run(start, remote, api, 2) == third.enter_device(api, 0)) by {
                            reveal_with_fuel(run, 3);
                        }
                        let within = devices_are_walked(third, remote, api, 0);
                        let outcome = devices_walked(
                            remote,
                            api,
                            station,
                            devices,
                            0,
                            gathered(third),
                        );
                        run_in_two_parts(start, remote, api, 2, within);
                        if outcome.result is Err {
                            2 + within
                        } else {
                            let onward = holding(third, outcome);
                            let rest = stations_are_walked(onward, remote, api, from + 1);
                            assert(gathered(onward) == outcome) by {
                                match outcome.result {
                                    Ok(done) => assert(done == ()),
                                    Err(_) => {},
                                }
                            }
                            run_in_two_parts(start, remote, api, 2 + within, rest);
                            2 + within + rest
                        }
                    },
                    Err(error) => {
                        assert(run(start, remote, api, 2) == second.advanced(
                            api,
                            remote(devices_asked),
                        )) by {
                            reveal_with_fuel(run, 3);
                        }
                        2
                    },
                }
            },
            Err(error) => {
                assert(run(start, remote, api, 1) == first.advanced(api, remote(figures_asked)))
                    by {
                    reveal_with_fuel(run, 2);
                }
                1
            },
        }
    }
}

/// Against any remote API a walk comes to an end, and ends with what
/// [`collection`] says: `steps` is the number of requests that it takes.
pub proof fn the_walk_is_the_traversal(
    remote: spec_fn(RequestView) -> ReplyView,
    api: LoggedInApiView,
) -> (steps: nat)
    ensures
        run(started(api), remote, api, steps) == ProgressView::Finished(collection(remote, api)),
{
    let request = asked(api, endpoint::STATIONS@, None);
    let start = started(api);
    let first = start->Send_0;
    assert(run(start, remote, api, 1) == first.advanced(api, remote(request))) by {
        reveal_with_fuel(run, 2);
    }
    match stations_of(remote(request)) {
        Ok(stations) => {
            let known = CollectionView { stations, ..first };
            let rest = stations_are_walked(known, remote, api, 0);
            assert(gathered(known) == OutcomeView::empty());
            run_in_two_parts(start, remote, api, 1, rest);
            1 + rest
        },
        Err(error) => 1,
    }
}

} // verus!
