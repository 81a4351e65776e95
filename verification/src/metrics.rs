//! The collection of metrics: the gauges that it fills, and the walk over
//! the stations and their devices that fills them.

use crate::api::error::{Error, ErrorView};
use crate::model::{
    views, Device, DeviceRealKpi, DeviceRealKpiView, Quantity, QuantityView, Station,
    StationRealKpiView, StationView,
};
use crate::text::{decimal, decimal_text};
use vstd::prelude::*;
use vstd::utf8::{encode_utf8, valid_utf8};

pub mod traversal;
pub mod walk;

pub use walk::{collect, collect_day_power, Awaiting, Collection, Outcome, Progress};

verus! {

/// The gauges of the exporter.
#[derive(Debug, Clone, Copy, PartialEq, Eq, Structural)]
pub enum Gauge {
    /// `day_power{station_code}`
    DayPower,
    /// `device_active_power{station_code,device_id,device_type_id}`
    DeviceActivePower,
    /// `device_temperature{station_code,device_id,device_type_id}`
    DeviceTemperature,
}

impl Gauge {
    /// The name under which the gauge is exposed.
    pub fn name(&self) -> (r: &'static str)
        ensures
            r@ == match *self {
                Gauge::DayPower => "day_power"@,
                Gauge::DeviceActivePower => "device_active_power"@,
                Gauge::DeviceTemperature => "device_temperature"@,
            },
    {
        match self {
            Gauge::DayPower => "day_power",
            Gauge::DeviceActivePower => "device_active_power",
            Gauge::DeviceTemperature => "device_temperature",
        }
    }

    /// What the gauge measures, in words.
    pub fn help(&self) -> (r: &'static str)
        ensures
            r@ == match *self {
                Gauge::DayPower => "total amount of power generated in current day (in kWh)"@,
                Gauge::DeviceActivePower => "active power production reported by inverter"@,
                Gauge::DeviceTemperature => "device reported temperature"@,
            },
    {
        match self {
            Gauge::DayPower => "total amount of power generated in current day (in kWh)",
            Gauge::DeviceActivePower => "active power production reported by inverter",
            Gauge::DeviceTemperature => "device reported temperature",
        }
    }
}

/// A value for a gauge, under the given values of the gauge's labels.
#[derive(Debug, Clone)]
pub struct Sample {
    pub gauge: Gauge,
    pub labels: Vec<String>,
    pub value: Quantity,
}

/// The mathematical content of a [`Sample`].
pub struct SampleView {
    pub gauge: Gauge,
    pub labels: Seq<Seq<char>>,
    pub value: QuantityView,
}

impl View for Sample {
    type V = SampleView;

    open spec fn view(&self) -> SampleView {
        SampleView {
            gauge: self.gauge,
            labels: Seq::new(self.labels@.len(), |i: int| self.labels@[i]@),
            value: self.value@,
        }
    }
}

/// The yield of the day of a station, under the station's code.
pub open spec fn day_power_sample(station: StationView, figures: StationRealKpiView) -> SampleView {
    SampleView { gauge: Gauge::DayPower, labels: seq![station.code], value: figures.day_power }
}

/// The labels of the gauges of a device: the code of the station, the id
/// under which the telemetry came, and the code of the device's type.
pub open spec fn device_labels(
    telemetry: DeviceRealKpiView,
    station: StationView,
    device: Device,
) -> Seq<Seq<char>> {
    seq![station.code, decimal(telemetry.id as nat), decimal(device.type_id.code() as nat)]
}

/// The samples that the telemetry of a device gives: the active power and
/// the temperature, in this order, each if the telemetry holds it. A device
/// whose type the client does not know gives none.
pub open spec fn device_samples(
    telemetry: DeviceRealKpiView,
    station: StationView,
    device: Device,
) -> Seq<SampleView> {
    let labels = device_labels(telemetry, station, device);
    let active_power = match telemetry.active_power {
        Some(value) => seq![SampleView { gauge: Gauge::DeviceActivePower, labels, value }],
        None => Seq::empty(),
    };
    let temperature = match telemetry.temperature {
        Some(value) => seq![SampleView { gauge: Gauge::DeviceTemperature, labels, value }],
        None => Seq::empty(),
    };
    if device.type_id is SupportedDeviceTypeId {
        active_power + temperature
    } else {
        Seq::empty()
    }
}

pub(crate) fn copy_of(quantity: &Quantity) -> (r: Quantity)
    ensures
        r@ == quantity@,
{
    Quantity { numeral: quantity.numeral.clone(), scale: quantity.scale }
}

fn labels_of(telemetry: &DeviceRealKpi, station: &Station, device: Device) -> (r: Vec<String>)
    ensures
        Seq::new(r@.len(), |i: int| r@[i]@) == device_labels(telemetry@, station@, device),
{
    let mut labels: Vec<String> = Vec::new();
    labels.push(station.code.clone());
    labels.push(decimal_text(telemetry.id));
    labels.push(decimal_text(device.type_id.code()));
    labels
}

/// Turns the telemetry of `device`, which stands at `station`, into samples
/// for the gauges. Which gauges get a sample depends on what the device's
/// type reports.
pub fn process_device_real_kpi(dev_real_kpi: &DeviceRealKpi, station: &Station, device: Device) -> (r:
    Vec<Sample>)
    ensures
        views(r@) == device_samples(dev_real_kpi@, station@, device),
{
    let mut samples: Vec<Sample> = Vec::new();
    if device.type_id.is_supported() {
        if let Some(active_power) = &dev_real_kpi.active_power {
            samples.push(
                Sample {
                    gauge: Gauge::DeviceActivePower,
                    labels: labels_of(dev_real_kpi, station, device),
                    value: copy_of(active_power),
                },
            );
        }
        if let Some(temperature) = &dev_real_kpi.temperature {
            samples.push(
                Sample {
                    gauge: Gauge::DeviceTemperature,
                    labels: labels_of(dev_real_kpi, station, device),
                    value: copy_of(temperature),
                },
            );
        }
    }
    samples
}

/// `String::from_utf8`: the text that the bytes encode, if they are valid
/// UTF-8; nothing otherwise.
#[verifier::external_body]
fn from_utf8(bytes: Vec<u8>) -> (r: Option<String>)
    ensures
        match r {
            Some(text) => valid_utf8(bytes@) && encode_utf8(text@) == bytes@,
            None => !valid_utf8(bytes@),
        },
{
    String::from_utf8(bytes).ok()
}

/// Turns the encoded metrics into the text that is served. Metrics that are
/// not valid UTF-8 are a failure to format.
pub fn read(encoded: Vec<u8>) -> (r: Result<String, Error>)
    ensures
        match r {
            Ok(text) => valid_utf8(encoded@) && encode_utf8(text@) == encoded@,
            Err(error) => !valid_utf8(encoded@) && error@ == ErrorView::FormatError,
        },
{
    match from_utf8(encoded) {
        Some(text) => Ok(text),
        None => Err(Error::FormatError),
    }
}

} // verus!
