use fusionsolar_rs::api::dump;
use fusionsolar_rs::api::dump_devices;
use fusionsolar_rs::api::exchange::{Field, LoginReply, Reply, Request, TransportFailure};
use fusionsolar_rs::api::{api, Error};
use fusionsolar_rs::metrics::{
    collect, collect_day_power, process_device_real_kpi, read, Gauge, Outcome, Progress, Sample,
};
use fusionsolar_rs::model::{
    Device, DeviceRealKpi, DeviceTypeId, LoggedInApi, Quantity, Station, SupportedDeviceTypeId,
};
use fusionsolar_rs::note::Note;
use serde_json::Value;

const STATIONS: &str = r#"{"success": true, "data": [
    {"stationCode": "S1", "stationName": "one", "capacity": 0.005},
    {"stationCode": "S2", "stationName": "two", "capacity": 0.01}
]}"#;

const S1_KPI: &str =
    r#"{"success": true, "data": [{"stationCode": "S1", "dataItemMap": {"day_power": 17.25}}]}"#;

const NO_KPI: &str = r#"{"success": true, "data": []}"#;

const S1_DEVICES: &str = r#"{"success": true, "data": [
    {"devName": "meter", "id": 10, "devTypeId": 47},
    {"devName": "inverter", "id": 11, "devTypeId": 1}
]}"#;

const S2_DEVICES: &str = r#"{"success": true, "data": [
    {"devName": "inverter", "id": 21, "devTypeId": 1},
    {"devName": "logger", "id": 22, "devTypeId": 62}
]}"#;

const DEVICE_11: &str = r#"{"success": true, "params": {"devTypeId": 1}, "data": [
    {"devId": 11, "dataItemMap": {"temperature": 42.5, "active_power": 2.053, "mppt_power": 2.1}}
]}"#;

const DEVICE_21: &str = r#"{"success": true, "params": {"devTypeId": 1}, "data": [
    {"devId": 21, "dataItemMap": {"temperature": 30, "active_power": 1.5, "mppt_power": 1.6}}
]}"#;

const RATE_LIMITED: &str = r#"{"success": false, "failCode": 407}"#;

fn session() -> LoggedInApi {
    LoggedInApi { api_url: "https://example.test".to_string(), xsrf_token: "token-1".to_string() }
}

fn text(body: &str) -> Reply {
    Reply::Text(body.to_string())
}

fn number(quantity: &Quantity) -> f64 {
    quantity.numeral.parse::<f64>().unwrap() * 10f64.powi(quantity.scale as i32)
}

fn path(request: &Request) -> String {
    request.url.trim_start_matches("https://example.test").to_string()
}

fn body(request: &Request) -> Vec<(String, String)> {
    match &request.body {
        Some(fields) => fields.iter().map(|f| (f.name.clone(), f.value.clone())).collect(),
        None => vec![],
    }
}

fn pair(name: &str, value: &str) -> (String, String) {
    (name.to_string(), value.to_string())
}

fn run(mut progress: Progress, replies: Vec<Reply>) -> (Outcome, Vec<Request>) {
    let api = session();
    let mut replies = replies.into_iter();
    let mut requests = Vec::new();
    loop {
        match progress {
            Progress::Send(collection, request) => {
                requests.push(request);
                let reply = replies.next().expect("the walk asked for more than the script holds");
                progress = collection.advance(&api, reply);
            }
            Progress::Finished(outcome) => {
                assert!(replies.next().is_none(), "the walk ended before the script did");
                return (outcome, requests);
            }
        }
    }
}

fn run_dump(mut progress: dump::Progress, replies: Vec<Reply>) -> (dump::Outcome, Vec<Request>) {
    let api = session();
    let mut replies = replies.into_iter();
    let mut requests = Vec::new();
    loop {
        match progress {
            dump::Progress::Send(walk, request) => {
                requests.push(request);
                let reply = replies.next().expect("the walk asked for more than the script holds");
                progress = walk.advance(&api, reply);
            }
            dump::Progress::Finished(outcome) => {
                assert!(replies.next().is_none(), "the walk ended before the script did");
                return (outcome, requests);
            }
        }
    }
}

fn labels(sample: &Sample) -> Vec<&str> {
    sample.labels.iter().map(|l| l.as_str()).collect()
}

#[test]
fn collection_with_a_missing_station_kpi_completes() {
    let replies = vec![
        text(STATIONS),
        text(S1_KPI),
        text(S1_DEVICES),
        text(DEVICE_11),
        text(NO_KPI),
        text(S2_DEVICES),
        text(DEVICE_21),
    ];
    let (outcome, requests) = run(collect_day_power(&session()), replies);
    assert!(outcome.result.is_ok());

    let paths: Vec<String> = requests.iter().map(path).collect();
    assert_eq!(
        vec![
            "/getStationList",
            "/getStationRealKpi",
            "/getDevList",
            "/getDevRealKpi",
            "/getStationRealKpi",
            "/getDevList",
            "/getDevRealKpi",
        ],
        paths
    );
    assert_eq!(vec![pair("stationCodes", "S1")], body(&requests[1]));
    assert_eq!(vec![pair("stationCodes", "S1")], body(&requests[2]));
    assert_eq!(vec![pair("devIds", "11"), pair("devTypeId", "1")], body(&requests[3]));
    assert_eq!(vec![pair("stationCodes", "S2")], body(&requests[4]));
    assert_eq!(vec![pair("stationCodes", "S2")], body(&requests[5]));
    assert_eq!(vec![pair("devIds", "21"), pair("devTypeId", "1")], body(&requests[6]));
    for request in &requests {
        assert_eq!(1, request.headers.len());
        assert_eq!("XSRF-TOKEN", request.headers[0].name);
        assert_eq!("token-1", request.headers[0].value);
    }

    let samples = &outcome.samples;
    assert_eq!(5, samples.len());
    assert_eq!(Gauge::DayPower, samples[0].gauge);
    assert_eq!(vec!["S1"], labels(&samples[0]));
    assert_eq!(17.25, number(&samples[0].value));
    assert_eq!(Gauge::DeviceActivePower, samples[1].gauge);
    assert_eq!(vec!["S1", "11", "1"], labels(&samples[1]));
    assert_eq!(2.053, number(&samples[1].value));
    assert_eq!(Gauge::DeviceTemperature, samples[2].gauge);
    assert_eq!(vec!["S1", "11", "1"], labels(&samples[2]));
    assert_eq!(42.5, number(&samples[2].value));
    assert_eq!(Gauge::DeviceActivePower, samples[3].gauge);
    assert_eq!(vec!["S2", "21", "1"], labels(&samples[3]));
    assert_eq!(1.5, number(&samples[3].value));
    assert_eq!(Gauge::DeviceTemperature, samples[4].gauge);
    assert_eq!(vec!["S2", "21", "1"], labels(&samples[4]));
    assert_eq!(30.0, number(&samples[4].value));
    assert!(samples.iter().all(|s| !(s.gauge == Gauge::DayPower && s.labels[0] == "S2")));

    let notes = &outcome.notes;
    assert_eq!(3, notes.len());
    assert!(matches!(
        &notes[0],
        Note::DeviceSkipped { device_id: 10, station_code, error: Error::UnknownDeviceType(47) }
            if station_code == "S1"
    ));
    assert!(matches!(&notes[1], Note::NoStationKpi { station_code } if station_code == "S2"));
    assert!(matches!(
        &notes[2],
        Note::DeviceSkipped { device_id: 22, station_code, error: Error::UnknownDeviceType(62) }
            if station_code == "S2"
    ));
}

#[test]
fn collection_without_stations_is_done_at_once() {
    let (outcome, requests) =
        run(collect_day_power(&session()), vec![text(r#"{"success": true, "data": []}"#)]);
    assert!(outcome.result.is_ok());
    assert_eq!(1, requests.len());
    assert!(outcome.samples.is_empty());
    assert!(outcome.notes.is_empty());
}

#[test]
fn collection_ends_when_the_stations_cannot_be_listed() {
    let (outcome, requests) = run(collect_day_power(&session()), vec![text(RATE_LIMITED)]);
    assert!(matches!(outcome.result, Err(Error::RateExceeded(_))));
    assert_eq!(1, requests.len());
    assert!(outcome.samples.is_empty());
}

#[test]
fn collection_ends_when_station_kpi_fails() {
    let (outcome, requests) =
        run(collect_day_power(&session()), vec![text(STATIONS), text("<html>")]);
    assert!(matches!(outcome.result, Err(Error::InvalidResponse(raw, _)) if raw == "<html>"));
    assert_eq!(2, requests.len());
}

#[test]
fn collection_ends_when_the_devices_cannot_be_listed() {
    let down = Reply::SendFailed(TransportFailure { status: None, detail: "down".to_string() });
    let (outcome, requests) =
        run(collect_day_power(&session()), vec![text(STATIONS), text(S1_KPI), down]);
    assert!(matches!(outcome.result, Err(Error::TransportError(d)) if d == "down"));
    assert_eq!(3, requests.len());
    assert_eq!(1, outcome.samples.len());
    assert_eq!(Gauge::DayPower, outcome.samples[0].gauge);
    assert_eq!(17.25, number(&outcome.samples[0].value));
}

#[test]
fn collection_ends_when_a_device_call_fails() {
    let replies = vec![text(STATIONS), text(S1_KPI), text(S1_DEVICES), text(RATE_LIMITED)];
    let (outcome, requests) = run(collect_day_power(&session()), replies);
    assert!(matches!(outcome.result, Err(Error::RateExceeded(_))));
    assert_eq!(4, requests.len());
    assert_eq!(1, outcome.samples.len());
    assert_eq!(1, outcome.notes.len());
}

#[test]
fn collection_passes_over_devices_without_telemetry() {
    let one_station = r#"{"success": true, "data": [
        {"stationCode": "S1", "stationName": "one", "capacity": 0.005}
    ]}"#;
    let empty = r#"{"success": true, "params": {"devTypeId": 1}, "data": []}"#;
    let unknown = r#"{"success": true, "params": {"devTypeId": 47}, "data": []}"#;
    let devices = r#"{"success": true, "data": [
        {"devName": "a", "id": 1, "devTypeId": 1},
        {"devName": "b", "id": 2, "devTypeId": 1},
        {"devName": "c", "id": 3, "devTypeId": 1}
    ]}"#;
    let replies =
        vec![text(one_station), text(S1_KPI), text(devices), text(empty), text(unknown), text(DEVICE_11)];
    let (outcome, requests) = run(collect_day_power(&session()), replies);
    assert!(outcome.result.is_ok());
    assert_eq!(6, requests.len());
    assert_eq!(vec![pair("devIds", "3"), pair("devTypeId", "1")], body(&requests[5]));
    assert_eq!(3, outcome.samples.len());
    assert_eq!(vec!["S1", "11", "1"], labels(&outcome.samples[1]));
    assert_eq!(2, outcome.notes.len());
    assert!(matches!(
        &outcome.notes[0],
        Note::NoDeviceKpi { device_id: 1, station_code } if station_code == "S1"
    ));
    assert!(matches!(
        &outcome.notes[1],
        Note::DeviceSkipped { device_id: 2, error: Error::UnknownDeviceType(47), .. }
    ));
}

#[test]
fn collect_logs_in_and_starts_the_walk() {
    let api = api("https://example.test".to_string(), "user".to_string(), "pass".to_string());
    let reply = LoginReply::Answered {
        status: "200 OK".to_string(),
        cookies: vec![Field { name: "XSRF-TOKEN".to_string(), value: "t".to_string() }],
    };
    let (session, progress) = collect(&api, reply).ok().unwrap();
    assert_eq!("t", session.xsrf_token);
    match progress {
        Progress::Send(_, request) => {
            assert_eq!("https://example.test/getStationList", request.url);
            assert_eq!("t", request.headers[0].value);
        }
        Progress::Finished(_) => panic!("the walk has not begun"),
    }
    let refused = LoginReply::Answered { status: "200 OK".to_string(), cookies: vec![] };
    assert!(matches!(collect(&api, refused), Err(Error::LoginError(_))));
}

#[test]
fn process_device_real_kpi_fills_the_gauges_that_are_reported() {
    let station = Station {
        capacity: Quantity { numeral: "1".to_string(), scale: 3 },
        name: "one".to_string(),
        code: "S1".to_string(),
    };
    let inverter = Device {
        type_id: DeviceTypeId::SupportedDeviceTypeId(SupportedDeviceTypeId::StringInverter),
        id: 11,
    };
    let both = DeviceRealKpi {
        id: 12,
        temperature: Some(Quantity::plain("40".to_string())),
        active_power: Some(Quantity::plain("2.5".to_string())),
    };
    let samples = process_device_real_kpi(&both, &station, inverter);
    assert_eq!(2, samples.len());
    assert_eq!(Gauge::DeviceActivePower, samples[0].gauge);
    assert_eq!(2.5, number(&samples[0].value));
    assert_eq!(vec!["S1", "12", "1"], labels(&samples[0]));
    assert_eq!(Gauge::DeviceTemperature, samples[1].gauge);
    assert_eq!(40.0, number(&samples[1].value));
    assert_eq!(vec!["S1", "12", "1"], labels(&samples[1]));

    let only_temperature = DeviceRealKpi {
        id: 12,
        temperature: Some(Quantity::plain("40".to_string())),
        active_power: None,
    };
    let samples = process_device_real_kpi(&only_temperature, &station, inverter);
    assert_eq!(1, samples.len());
    assert_eq!(Gauge::DeviceTemperature, samples[0].gauge);

    let nothing = DeviceRealKpi { id: 12, temperature: None, active_power: None };
    assert!(process_device_real_kpi(&nothing, &station, inverter).is_empty());

    let unknown = Device { type_id: DeviceTypeId::UnsupportedDeviceTypeId(47), id: 11 };
    assert!(process_device_real_kpi(&both, &station, unknown).is_empty());
}

#[test]
fn gauges_have_names() {
    assert_eq!("day_power", Gauge::DayPower.name());
    assert_eq!("device_active_power", Gauge::DeviceActivePower.name());
    assert_eq!("device_temperature", Gauge::DeviceTemperature.name());
    assert_eq!(
        "total amount of power generated in current day (in kWh)",
        Gauge::DayPower.help()
    );
    assert_eq!("active power production reported by inverter", Gauge::DeviceActivePower.help());
    assert_eq!("device reported temperature", Gauge::DeviceTemperature.help());
}

#[test]
fn dump_keeps_raw_telemetry_by_device_type() {
    let meter = r#"{"success": true, "params": {"devTypeId": 47}, "data": [
        {"devId": 10, "dataItemMap": {"meter_u": 230.1, "meter_status": 1}}
    ]}"#;
    let logger = r#"{"success": true, "params": {"devTypeId": 62}, "data": [{"devId": 22}]}"#;
    let replies = vec![
        text(STATIONS),
        text(S1_DEVICES),
        text(meter),
        text(DEVICE_11),
        text(S2_DEVICES),
        text(DEVICE_21),
        text(logger),
    ];
    let (outcome, requests) = run_dump(dump_devices(&session()), replies);
    let paths: Vec<String> = requests.iter().map(path).collect();
    assert_eq!(
        vec![
            "/getStationList",
            "/getDevList",
            "/getDevRealKpi",
            "/getDevRealKpi",
            "/getDevList",
            "/getDevRealKpi",
            "/getDevRealKpi",
        ],
        paths
    );
    assert_eq!(vec![pair("devIds", "10"), pair("devTypeId", "47")], body(&requests[2]));
    assert_eq!(vec![pair("devIds", "22"), pair("devTypeId", "62")], body(&requests[6]));

    let dump = outcome.result.unwrap();
    assert_eq!(2, dump.len());
    let expected_meter: Value = serde_json::from_str(r#"{"meter_u": 230.1, "meter_status": 1}"#).unwrap();
    assert_eq!(Some(&expected_meter), dump.get(&47));
    let expected_inverter: Value =
        serde_json::from_str(r#"{"temperature": 30, "active_power": 1.5, "mppt_power": 1.6}"#).unwrap();
    assert_eq!(Some(&expected_inverter), dump.get(&1));
    assert_eq!(None, dump.get(&62));

    assert_eq!(1, outcome.notes.len());
    assert!(matches!(
        &outcome.notes[0],
        Note::NoDataItemMap { device_type_id: 62, device_id: 22, response }
            if response == r#"{"data":[{"devId":22}],"params":{"devTypeId":62},"success":true}"#
    ));
}

#[test]
fn dump_goes_on_after_failures() {
    let replies = vec![
        text(STATIONS),
        text(RATE_LIMITED),
        text(S2_DEVICES),
        text("<html>"),
        text(r#"{"success": true, "data": []}"#),
    ];
    let (outcome, requests) = run_dump(dump_devices(&session()), replies);
    assert_eq!(5, requests.len());
    let dump = outcome.result.unwrap();
    assert!(dump.is_empty());
    assert_eq!(3, outcome.notes.len());
    assert!(matches!(
        &outcome.notes[0],
        Note::StationSkipped { station_code, error: Error::RateExceeded(_) } if station_code == "S1"
    ));
    assert!(matches!(
        &outcome.notes[1],
        Note::DeviceSkipped { device_id: 21, station_code, error: Error::InvalidResponse(_, _) }
            if station_code == "S2"
    ));
    assert!(matches!(
        &outcome.notes[2],
        Note::NoDataItemMap { device_type_id: 62, device_id: 22, .. }
    ));
}

#[test]
fn dump_fails_when_the_stations_cannot_be_listed() {
    let (outcome, requests) = run_dump(dump_devices(&session()), vec![text(RATE_LIMITED)]);
    assert_eq!(1, requests.len());
    assert!(matches!(outcome.result, Err(Error::RateExceeded(_))));
    assert!(outcome.notes.is_empty());
}

#[test]
fn data_item_map_picks_the_first_record() {
    let value: Value = serde_json::from_str(
        r#"{"data": [{"dataItemMap": {"a": 1}}, {"dataItemMap": {"a": 2}}]}"#,
    )
    .unwrap();
    let expected: Value = serde_json::from_str(r#"{"a": 1}"#).unwrap();
    assert_eq!(Some(expected), dump::data_item_map(&value));
    let none: Value = serde_json::from_str(r#"{"data": []}"#).unwrap();
    assert_eq!(None, dump::data_item_map(&none));
    let other: Value = serde_json::from_str(r#"{"data": {"dataItemMap": 1}}"#).unwrap();
    assert_eq!(None, dump::data_item_map(&other));
}

#[test]
fn read_hands_on_valid_text() {
    let encoded = "# HELP day_power total\nday_power{station_code=\"S1\"} 17.25\n".as_bytes().to_vec();
    assert_eq!(
        "# HELP day_power total\nday_power{station_code=\"S1\"} 17.25\n",
        read(encoded).unwrap()
    );
    assert_eq!("", read(vec![]).unwrap());
    assert_eq!("\u{e9}\u{20ac}", read(vec![0xc3, 0xa9, 0xe2, 0x82, 0xac]).unwrap());
}

#[test]
fn read_rejects_what_is_not_text() {
    assert!(matches!(read(vec![0xff]), Err(Error::FormatError)));
    assert!(matches!(read(vec![b'a', 0xc3]), Err(Error::FormatError)));
    assert!(matches!(read(vec![0xed, 0xa0, 0x80]), Err(Error::FormatError)));
}
