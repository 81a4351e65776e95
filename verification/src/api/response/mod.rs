//! The answers of the remote API.

use vstd::prelude::*;

pub mod device_type;
pub mod get_device_list;
pub mod get_device_real_kpi;
pub mod get_station_real_kpi;
pub mod get_stations_list;

verus! {

/// The failure codes of the API that the client tells apart.
#[derive(Debug, Clone, Copy, PartialEq, Eq, Structural)]
pub enum FailCode {
    /// "Access frequency is too high": too many requests.
    AccessFrequencyIsTooHigh,
}

/// The code with which the API reports too many requests.
pub const ACCESS_FREQUENCY_IS_TOO_HIGH: u64 = 407;

impl FailCode {
    /// The failure that the API means by `code`, if the client tells it apart.
    pub open spec fn of(code: u64) -> Option<FailCode> {
        if code == ACCESS_FREQUENCY_IS_TOO_HIGH {
            Some(FailCode::AccessFrequencyIsTooHigh)
        } else {
            None
        }
    }

    /// The failure that the API means by `code`, if the client tells it apart.
    pub fn from_u64(code: u64) -> (r: Option<FailCode>)
        ensures
            r == Self::of(code),
    {
        if code == ACCESS_FREQUENCY_IS_TOO_HIGH {
            Some(FailCode::AccessFrequencyIsTooHigh)
        } else {
            None
        }
    }
}

} // verus!
