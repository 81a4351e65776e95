//! Paths of the remote API's endpoints, relative to the base URL.

use vstd::prelude::*;

verus! {

pub type Endpoint = str;

pub const LOGIN: &'static Endpoint = "/login";

pub const LOGOUT: &'static Endpoint = "/logout";

pub const STATIONS: &'static Endpoint = "/getStationList";

pub const STATION_REAL_KPI: &'static Endpoint = "/getStationRealKpi";

pub const DEVICES: &'static Endpoint = "/getDevList";

pub const DEVICE_REAL_KPI: &'static Endpoint = "/getDevRealKpi";

} // verus!
