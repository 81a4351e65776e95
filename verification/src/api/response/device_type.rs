//! The device type behind a numeric code.

use crate::model::{DeviceTypeId, SupportedDeviceTypeId, STRING_INVERTER};
use vstd::prelude::*;

verus! {

/// Maps the code that the API gives for a device type to the device type.
/// A code that the client does not know is kept.
pub fn from_u64(v: u64) -> (r: DeviceTypeId)
    ensures
        r == DeviceTypeId::of(v),
        r.code() == v,
        r.wf(),
{
    if v == STRING_INVERTER {
        DeviceTypeId::SupportedDeviceTypeId(SupportedDeviceTypeId::StringInverter)
    } else {
        DeviceTypeId::UnsupportedDeviceTypeId(v)
    }
}

/// The code of a device type gives the device type back.
pub proof fn device_type_round_trip(id: DeviceTypeId)
    requires
        id.wf(),
    ensures
        DeviceTypeId::of(id.code()) == id,
{
}

/// No code is lost: the device type of a code has that code.
pub proof fn code_round_trip(code: u64)
    ensures
        DeviceTypeId::of(code).code() == code,
        DeviceTypeId::of(code).wf(),
{
}

} // verus!
