//! The entities of the remote API after normalization.

use vstd::prelude::*;

verus! {

/// A measured quantity in decimal notation: the numeral that the API sent,
/// times ten to the power `scale`. The numeral is kept as received, so the
/// quantity is exact.
#[derive(Debug, Clone)]
pub struct Quantity {
    pub numeral: String,
    pub scale: u32,
}

/// The mathematical content of a [`Quantity`].
pub struct QuantityView {
    pub numeral: Seq<char>,
    pub scale: nat,
}

impl View for Quantity {
    type V = QuantityView;

    open spec fn view(&self) -> QuantityView {
        QuantityView { numeral: self.numeral@, scale: self.scale as nat }
    }
}

impl QuantityView {
    /// The quantity as the API sent it.
    pub open spec fn plain(numeral: Seq<char>) -> QuantityView {
        QuantityView { numeral, scale: 0 }
    }

    /// The same quantity in a unit a thousand times smaller.
    pub open spec fn thousandfold(self) -> QuantityView {
        QuantityView { numeral: self.numeral, scale: self.scale + 3 }
    }
}

impl Quantity {
    /// The quantity as the API sent it.
    pub fn plain(numeral: String) -> (r: Quantity)
        ensures
            r@ == QuantityView::plain(numeral@),
    {
        Quantity { numeral, scale: 0 }
    }

    /// The same quantity in a unit a thousand times smaller: megawatt hours
    /// become kilowatt hours.
    pub fn thousandfold(self) -> (r: Quantity)
        requires
            self.scale + 3 <= u32::MAX,
        ensures
            r@ == self@.thousandfold(),
    {
        Quantity { numeral: self.numeral, scale: self.scale + 3 }
    }
}

/// The device types whose telemetry the client can decode.
#[derive(Debug, Clone, Copy, PartialEq, Eq, Structural)]
pub enum SupportedDeviceTypeId {
    StringInverter,
}

/// The type of a device: one that the client knows, or the code of one that
/// it does not know. The code is kept so that nothing is lost on the way
/// through the client.
#[derive(Debug, Clone, Copy, PartialEq, Eq, Structural)]
pub enum DeviceTypeId {
    SupportedDeviceTypeId(SupportedDeviceTypeId),
    UnsupportedDeviceTypeId(u64),
}

/// The code under which the API knows string inverters.
pub const STRING_INVERTER: u64 = 1;

impl DeviceTypeId {
    /// The device type that the API means by `code`.
    pub open spec fn of(code: u64) -> DeviceTypeId {
        if code == STRING_INVERTER {
            DeviceTypeId::SupportedDeviceTypeId(SupportedDeviceTypeId::StringInverter)
        } else {
            DeviceTypeId::UnsupportedDeviceTypeId(code)
        }
    }

    /// The code under which the API knows the device type.
    pub open spec fn spec_code(&self) -> u64 {
        match *self {
            DeviceTypeId::SupportedDeviceTypeId(SupportedDeviceTypeId::StringInverter) => STRING_INVERTER,
            DeviceTypeId::UnsupportedDeviceTypeId(code) => code,
        }
    }

    /// A device type is well formed when the code of an unknown type is not
    /// the code of a known one.
    pub open spec fn wf(&self) -> bool {
        *self == Self::of(self.spec_code())
    }

    /// The code under which the API knows the device type.
    #[verifier::when_used_as_spec(spec_code)]
    pub fn code(&self) -> (r: u64)
        ensures
            r == self.spec_code(),
    {
        match self {
            DeviceTypeId::SupportedDeviceTypeId(SupportedDeviceTypeId::StringInverter) => STRING_INVERTER,
            DeviceTypeId::UnsupportedDeviceTypeId(code) => *code,
        }
    }

    /// Whether the client can decode the telemetry of this device type.
    pub fn is_supported(&self) -> (r: bool)
        ensures
            r == (*self is SupportedDeviceTypeId),
    {
        match self {
            DeviceTypeId::SupportedDeviceTypeId(_) => true,
            DeviceTypeId::UnsupportedDeviceTypeId(_) => false,
        }
    }
}

/// Connection parameters for the remote API.
#[derive(Debug, Clone)]
pub struct Api {
    pub api_url: String,
    pub username: String,
    pub password: String,
}

/// The mathematical content of an [`Api`].
pub struct ApiView {
    pub api_url: Seq<char>,
    pub username: Seq<char>,
    pub password: Seq<char>,
}

impl View for Api {
    type V = ApiView;

    open spec fn view(&self) -> ApiView {
        ApiView { api_url: self.api_url@, username: self.username@, password: self.password@ }
    }
}

/// An authenticated session. The token was read from a cookie of the answer
/// to the login; every later call sends it back as a request header.
#[derive(Debug, Clone)]
pub struct LoggedInApi {
    pub api_url: String,
    pub xsrf_token: String,
}

/// The mathematical content of a [`LoggedInApi`].
pub struct LoggedInApiView {
    pub api_url: Seq<char>,
    pub xsrf_token: Seq<char>,
}

impl View for LoggedInApi {
    type V = LoggedInApiView;

    open spec fn view(&self) -> LoggedInApiView {
        LoggedInApiView { api_url: self.api_url@, xsrf_token: self.xsrf_token@ }
    }
}

/// A physical installation. The capacity is in kilowatt hours.
#[derive(Debug, Clone)]
pub struct Station {
    pub capacity: Quantity,
    pub name: String,
    pub code: String,
}

/// The mathematical content of a [`Station`].
pub struct StationView {
    pub capacity: QuantityView,
    pub name: Seq<char>,
    pub code: Seq<char>,
}

impl View for Station {
    type V = StationView;

    open spec fn view(&self) -> StationView {
        StationView { capacity: self.capacity@, name: self.name@, code: self.code@ }
    }
}

/// A piece of equipment at a station.
#[derive(Debug, Clone, Copy, PartialEq, Eq, Structural)]
pub struct Device {
    pub type_id: DeviceTypeId,
    pub id: u64,
}

impl View for Device {
    type V = Device;

    open spec fn view(&self) -> Device {
        *self
    }
}

/// The energy that a station yielded today, in kilowatt hours.
#[derive(Debug, Clone)]
pub struct StationRealKpi {
    pub code: String,
    pub day_power: Quantity,
}

/// The mathematical content of a [`StationRealKpi`].
pub struct StationRealKpiView {
    pub code: Seq<char>,
    pub day_power: QuantityView,
}

impl View for StationRealKpi {
    type V = StationRealKpiView;

    open spec fn view(&self) -> StationRealKpiView {
        StationRealKpiView { code: self.code@, day_power: self.day_power@ }
    }
}

/// Point telemetry of one device. A field is set when the device's type
/// reports it.
#[derive(Debug, Clone)]
pub struct DeviceRealKpi {
    pub id: u64,
    pub temperature: Option<Quantity>,
    pub active_power: Option<Quantity>,
}

/// The mathematical content of a [`DeviceRealKpi`].
pub struct DeviceRealKpiView {
    pub id: u64,
    pub temperature: Option<QuantityView>,
    pub active_power: Option<QuantityView>,
}

/// The content of a quantity that may be absent.
pub open spec fn optional_view(quantity: Option<Quantity>) -> Option<QuantityView> {
    match quantity {
        Some(q) => Some(q@),
        None => None,
    }
}

impl View for DeviceRealKpi {
    type V = DeviceRealKpiView;

    open spec fn view(&self) -> DeviceRealKpiView {
        DeviceRealKpiView {
            id: self.id,
            temperature: optional_view(self.temperature),
            active_power: optional_view(self.active_power),
        }
    }
}

/// The contents of the items of a sequence, in order.
pub open spec fn views<T: View>(items: Seq<T>) -> Seq<T::V> {
    Seq::new(items.len(), |i: int| items[i]@)
}

} // verus!
