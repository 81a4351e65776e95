//! The calls of the remote API.
//!
//! Each call comes in two halves around the transport, which is not part of
//! this crate: a function that says what to send (`..._request`), and a
//! function that takes what came back and says what it means. The second
//! half bears the name of the call.

use crate::api::exchange::{
    fields_view, Field, LoginReply, LoginReplyView, Reply, ReplyView, Request, RequestView,
    TransportFailure, TransportFailureView,
};
use crate::api::error::ErrorView;
use crate::api::response::get_device_list::GetDevicesList;
use crate::api::response::get_device_real_kpi::{GetDeviceRealKpi, GetDeviceRealKpiView};
use crate::api::response::get_station_real_kpi::GetStationRealKpi;
use crate::api::response::get_stations_list::GetStationsList;
use crate::api::response::{get_device_list, get_device_real_kpi, get_station_real_kpi, get_stations_list};
use crate::api::response::FailCode;
use crate::json;
use crate::json::{json_of, parsed, rendered, Json};
use crate::model;
use crate::model::{views, DeviceTypeId, Quantity, QuantityView};
use crate::text::{decimal, decimal_text};
use serde_json::Value;
use vstd::prelude::*;
use vstd::string::*;

pub mod dump;
pub mod endpoint;
pub mod error;
pub mod exchange;
pub mod response;

pub use dump::dump_devices;
pub use error::Error;

verus! {

/// The name of the cookie in which the login hands out the session token,
/// and of the request header in which every later call sends it back.
pub const XSRF_TOKEN: &'static str = "XSRF-TOKEN";

/// The HTTP status "too many requests".
pub const TOO_MANY_REQUESTS: u16 = 429;

/// The HTTP status "unauthorized".
pub const UNAUTHORIZED: u16 = 401;

/// Bundles the connection parameters.
pub fn api(api_url: String, username: String, password: String) -> (r: model::Api)
    ensures
        r@ == (model::ApiView { api_url: api_url@, username: username@, password: password@ }),
{
    model::Api { api_url, username, password }
}

/// A field with the given name and value.
pub fn field(name: &str, value: String) -> (r: Field)
    ensures
        r@ == (name@, value@),
{
    Field { name: String::from_str(name), value }
}

/// The value of the first of `cookies` that is called `name`.
pub open spec fn cookie_value(cookies: Seq<(Seq<char>, Seq<char>)>, name: Seq<char>) -> Option<
    Seq<char>,
>
    decreases cookies.len(),
{
    if cookies.len() == 0 {
        None
    } else if cookies[0].0 == name {
        Some(cookies[0].1)
    } else {
        cookie_value(cookies.drop_first(), name)
    }
}

/// What is reported when the answer to a login holds no session token.
pub open spec fn no_token(status: Seq<char>) -> ErrorView {
    ErrorView::LoginError("No XSRF-TOKEN received (server responded "@ + status + ")"@)
}

/// The session token that the answer to a login holds, or the failure to
/// report.
pub open spec fn token_of(status: Seq<char>, cookies: Seq<(Seq<char>, Seq<char>)>) -> Result<
    Seq<char>,
    ErrorView,
> {
    match cookie_value(cookies, XSRF_TOKEN@) {
        Some(token) => Ok(token),
        None => Err(no_token(status)),
    }
}

/// The content of a text or the failure that stands in its place.
pub open spec fn text_view(outcome: Result<String, Error>) -> Result<Seq<char>, ErrorView> {
    match outcome {
        Ok(text) => Ok(text@),
        Err(error) => Err(error@),
    }
}

/// Reads the session token from the cookies of the answer to a login. The
/// first cookie called `XSRF-TOKEN` holds it. An answer without such a cookie
/// is a failed authentication, whatever its status says.
pub fn extract_xsrf_token(status: &str, cookies: &Vec<Field>) -> (r: Result<String, Error>)
    ensures
        text_view(r) == token_of(status@, fields_view(cookies@)),
{
    let name = String::from_str(XSRF_TOKEN);
    let ghost all = fields_view(cookies@);
    let mut i: usize = 0;
    assert(all.skip(0) =~= all);
    while i < cookies.len()
        invariant
            i <= cookies.len(),
            name@ == XSRF_TOKEN@,
            all == fields_view(cookies@),
            cookie_value(all, XSRF_TOKEN@) == cookie_value(all.skip(i as int), XSRF_TOKEN@),
        decreases cookies.len() - i,
    {
        let ghost rest = all.skip(i as int);
        assert(rest.drop_first() =~= all.skip(i + 1));
        if cookies[i].name == name {
            return Ok(cookies[i].value.clone());
        }
        i += 1;
    }
    let message = String::from_str("No XSRF-TOKEN received (server responded ").concat(
        status,
    ).concat(")");
    Err(Error::LoginError(message))
}

/// The kind of failure that a failed call is reported as:
/// - status 429: too many requests;
/// - status 401: failed authentication;
/// - any other status: a rejection by the API;
/// - no status, so no HTTP response at all: a failure of the transport.
pub open spec fn classified(failure: TransportFailureView) -> ErrorView {
    match failure.status {
        Some(status) => if status == TOO_MANY_REQUESTS {
            ErrorView::RateExceeded(failure.detail)
        } else if status == UNAUTHORIZED {
            ErrorView::LoginError(failure.detail)
        } else {
            ErrorView::ApiError(failure.detail)
        },
        None => ErrorView::TransportError(failure.detail),
    }
}

/// Maps a failed call to the failure to report.
pub fn map_api_err(error: TransportFailure) -> (r: Error)
    ensures
        r@ == classified(error@),
{
    match error.status {
        Some(status) => if status == TOO_MANY_REQUESTS {
            Error::RateExceeded(error.detail)
        } else if status == UNAUTHORIZED {
            Error::LoginError(error.detail)
        } else {
            Error::ApiError(error.detail)
        },
        None => Error::TransportError(error.detail),
    }
}

/// Whether an envelope reports success: its member `success` is `true`.
pub open spec fn succeeded(document: Json) -> bool {
    match document.member("success"@) {
        Some(flag) => flag.boolean() == Some(true),
        None => false,
    }
}

/// The failure code of an envelope: its member `failCode`, a non-negative
/// integer.
pub open spec fn fail_code(document: Json) -> Option<u64> {
    match document.member("failCode"@) {
        Some(code) => code.unsigned(),
        None => None,
    }
}

/// The failure of the API that an envelope reports, where the client tells
/// it apart.
pub open spec fn known_failure(document: Json) -> Option<FailCode> {
    match fail_code(document) {
        Some(code) => FailCode::of(code),
        None => None,
    }
}

/// What an envelope that does not report success is reported as. The detail
/// is the whole envelope, rendered as compact JSON.
pub open spec fn rejection(document: Json) -> ErrorView {
    match known_failure(document) {
        Some(FailCode::AccessFrequencyIsTooHigh) => ErrorView::RateExceeded(rendered(document)),
        None => ErrorView::ApiError(rendered(document)),
    }
}

/// An envelope that reports success is handed on; any other is a failure.
pub open spec fn status_checked(document: Json) -> Result<Json, ErrorView> {
    if succeeded(document) {
        Ok(document)
    } else {
        Err(rejection(document))
    }
}

/// The content of a document or the failure that stands in its place.
pub open spec fn document_view(outcome: Result<Value, Error>) -> Result<Json, ErrorView> {
    match outcome {
        Ok(value) => Ok(json_of(value)),
        Err(error) => Err(error@),
    }
}

/// Looks at the envelope of an answer. An envelope whose `success` is `true`
/// is handed on as it is. Any other is a failure of the API: too many
/// requests where the envelope's `failCode` is 407, a rejection otherwise.
pub fn map_response_status(value: Value) -> (r: Result<Value, Error>)
    ensures
        document_view(r) == status_checked(json_of(value)),
{
    let success = match json::member(&value, "success") {
        Some(flag) => match json::boolean(flag) {
            Some(b) => b,
            None => false,
        },
        None => false,
    };
    let fail_code = match json::member(&value, "failCode") {
        Some(code) => json::unsigned(code),
        None => None,
    };
    if success {
        Ok(value)
    } else {
        let known = match fail_code {
            Some(code) => FailCode::from_u64(code),
            None => None,
        };
        match known {
            Some(FailCode::AccessFrequencyIsTooHigh) => Err(Error::RateExceeded(json::render(&value))),
            None => Err(Error::ApiError(json::render(&value))),
        }
    }
}

/// An envelope whose `success` is `false` is reported as too many requests
/// if its `failCode` is 407, and as a rejection by the API otherwise.
pub proof fn failed_envelopes_are_classified_by_fail_code(document: Json)
    requires
        document.member("success"@) == Some(Json::Bool(false)),
    ensures
        fail_code(document) == Some(407u64) ==> status_checked(document) == Err::<Json, ErrorView>(
            ErrorView::RateExceeded(rendered(document)),
        ),
        fail_code(document) != Some(407u64) ==> status_checked(document) == Err::<Json, ErrorView>(
            ErrorView::ApiError(rendered(document)),
        ),
{
}

/// What the login asks the transport to send: the user name and the system
/// code as the body of a POST to the login endpoint. No session token is
/// sent, there is none yet.
pub open spec fn login_asked(api: model::ApiView) -> RequestView {
    RequestView {
        url: api.api_url + endpoint::LOGIN@,
        headers: Seq::empty(),
        body: Some(seq![("userName"@, api.username), ("systemCode"@, api.password)]),
    }
}

/// The request that logs in.
pub fn login_request(api: &model::Api) -> (r: Request)
    ensures
        r@ == login_asked(api@),
{
    let url = api.api_url.clone().concat(endpoint::LOGIN);
    let mut body: Vec<Field> = Vec::new();
    body.push(field("userName", api.username.clone()));
    body.push(field("systemCode", api.password.clone()));
    let request = Request { url, headers: Vec::new(), body: Some(body) };
    assert(request@.headers =~= Seq::empty());
    assert(request@.body->0 =~= seq![("userName"@, api@.username), ("systemCode"@, api@.password)]);
    request
}

/// What a failed login call is reported as: a failed authentication where
/// the API answered with a status that is not a success, a failure of the
/// transport where no HTTP response was obtained.
pub open spec fn login_failure(failure: TransportFailureView) -> ErrorView {
    match failure.status {
        Some(_) => ErrorView::LoginError(failure.detail),
        None => ErrorView::TransportError(failure.detail),
    }
}

/// The session that a login yields, or the failure to report:
/// - without an HTTP client there is no session, and no remote cause;
/// - a call that failed is reported as [`login_failure`] says;
/// - an answer yields a session for the same base URL, whose token is the
///   value of the answer's first `XSRF-TOKEN` cookie; an answer without such
///   a cookie is a failed authentication.
pub open spec fn logged_in(api: model::ApiView, reply: LoginReplyView) -> Result<
    model::LoggedInApiView,
    ErrorView,
> {
    match reply {
        LoginReplyView::NoClient => Err(ErrorView::InternalError),
        LoginReplyView::SendFailed(failure) => Err(login_failure(failure)),
        LoginReplyView::Answered { status, cookies } => match token_of(status, cookies) {
            Ok(token) => Ok(model::LoggedInApiView { api_url: api.api_url, xsrf_token: token }),
            Err(error) => Err(error),
        },
    }
}

/// The content of a session or the failure that stands in its place.
pub open spec fn session_view(outcome: Result<model::LoggedInApi, Error>) -> Result<
    model::LoggedInApiView,
    ErrorView,
> {
    match outcome {
        Ok(session) => Ok(session@),
        Err(error) => Err(error@),
    }
}

/// Turns what came back for the login request into a session.
pub fn login(api: &model::Api, reply: LoginReply) -> (r: Result<model::LoggedInApi, Error>)
    ensures
        session_view(r) == logged_in(api@, reply@),
{
    match reply {
        LoginReply::NoClient => Err(Error::InternalError),
        LoginReply::SendFailed(failure) => match failure.status {
            Some(_) => Err(Error::LoginError(failure.detail)),
            None => Err(Error::TransportError(failure.detail)),
        },
        LoginReply::Answered { status, cookies } => match extract_xsrf_token(
            status.as_str(),
            &cookies,
        ) {
            Ok(token) => Ok(model::LoggedInApi { api_url: api.api_url.clone(), xsrf_token: token }),
            Err(error) => Err(error),
        },
    }
}

/// An answer to the login that holds a cookie called `XSRF-TOKEN` yields a
/// session whose token is the value of that cookie; where several cookies
/// have the name, the first of them counts.
pub proof fn login_takes_the_token_from_the_session_cookie(
    api: model::ApiView,
    status: Seq<char>,
    cookies: Seq<(Seq<char>, Seq<char>)>,
    at: int,
)
    requires
        0 <= at < cookies.len(),
        cookies[at].0 == XSRF_TOKEN@,
        forall|j: int| 0 <= j < at ==> (#[trigger] cookies[j]).0 != XSRF_TOKEN@,
    ensures
        logged_in(api, LoginReplyView::Answered { status, cookies }) == Ok::<
            model::LoggedInApiView,
            ErrorView,
        >(model::LoggedInApiView { api_url: api.api_url, xsrf_token: cookies[at].1 }),
{
    first_cookie(cookies, XSRF_TOKEN@);
    let first = first_index(cookies, XSRF_TOKEN@);
    if first < at {
        assert(cookies[first].0 != XSRF_TOKEN@);
    } else if at < first {
        assert(cookies[at].0 != XSRF_TOKEN@);
    }
}

/// An answer to the login that holds no cookie called `XSRF-TOKEN` is a
/// failed authentication.
pub proof fn login_without_the_session_cookie_fails(
    api: model::ApiView,
    status: Seq<char>,
    cookies: Seq<(Seq<char>, Seq<char>)>,
)
    requires
        forall|i: int| 0 <= i < cookies.len() ==> (#[trigger] cookies[i]).0 != XSRF_TOKEN@,
    ensures
        logged_in(api, LoginReplyView::Answered { status, cookies }) == Err::<
            model::LoggedInApiView,
            ErrorView,
        >(no_token(status)),
        no_token(status) is LoginError,
{
    first_cookie(cookies, XSRF_TOKEN@);
    let first = first_index(cookies, XSRF_TOKEN@);
    if first < cookies.len() {
        assert(cookies[first].0 != XSRF_TOKEN@);
    }
}

/// The index of the first of `cookies` that is called `name`; the number of
/// cookies if there is none.
pub open spec fn first_index(cookies: Seq<(Seq<char>, Seq<char>)>, name: Seq<char>) -> int
    decreases cookies.len(),
{
    if cookies.len() == 0 {
        0
    } else if cookies[0].0 == name {
        0
    } else {
        1 + first_index(cookies.drop_first(), name)
    }
}

/// [`cookie_value`] is the value of the cookie at [`first_index`], the first
/// one of that name, and `None` exactly if no cookie has the name.
pub proof fn first_cookie(cookies: Seq<(Seq<char>, Seq<char>)>, name: Seq<char>)
    ensures
        0 <= first_index(cookies, name) <= cookies.len(),
        forall|j: int| 0 <= j < first_index(cookies, name) ==> (#[trigger] cookies[j]).0 != name,
        first_index(cookies, name) < cookies.len() ==> cookies[first_index(cookies, name)].0 == name
            && cookie_value(cookies, name) == Some(cookies[first_index(cookies, name)].1),
        first_index(cookies, name) == cookies.len() ==> cookie_value(cookies, name) is None,
    decreases cookies.len(),
{
    if cookies.len() > 0 && cookies[0].0 != name {
        let rest = cookies.drop_first();
        first_cookie(rest, name);
        assert forall|j: int| 0 <= j < first_index(cookies, name) implies (#[trigger] cookies[j]).0
            != name by {
            if j > 0 {
                assert(cookies[j] == rest[j - 1]);
            }
        }
        if first_index(rest, name) < rest.len() {
            assert(cookies[first_index(cookies, name)] == rest[first_index(rest, name)]);
        }
    }
}

/// What a call asks the transport to send: a POST to the endpoint under the
/// session's base URL, with the session token in the header `XSRF-TOKEN`.
pub open spec fn asked(
    api: model::LoggedInApiView,
    endpoint: Seq<char>,
    data: Option<Seq<(Seq<char>, Seq<char>)>>,
) -> RequestView {
    RequestView {
        url: api.api_url + endpoint,
        headers: seq![(XSRF_TOKEN@, api.xsrf_token)],
        body: data,
    }
}

/// The content of a request body that may be absent.
pub open spec fn data_view(data: Option<Vec<Field>>) -> Option<Seq<(Seq<char>, Seq<char>)>> {
    match data {
        Some(fields) => Some(fields_view(fields@)),
        None => None,
    }
}

/// The request of an authenticated call. Every call of a session is built
/// here, so every call carries the session token.
pub fn post_request(api: &model::LoggedInApi, endpoint: &endpoint::Endpoint, data: Option<
    Vec<Field>,
>) -> (r: Request)
    ensures
        r@ == asked(api@, endpoint@, data_view(data)),
{
    let url = api.api_url.clone().concat(endpoint);
    let mut headers: Vec<Field> = Vec::new();
    headers.push(field(XSRF_TOKEN, api.xsrf_token.clone()));
    let request = Request { url, headers, body: data };
    assert(request@.headers =~= seq![(XSRF_TOKEN@, api@.xsrf_token)]);
    request
}

/// What is reported when the body of a response could not be read.
pub open spec fn unread(detail: Seq<char>) -> ErrorView {
    ErrorView::ApiError("Error reading API response: "@ + detail)
}

/// What an authenticated call yields, by what came back for its request:
/// - a call that failed is reported as [`classified`] says;
/// - a body that could not be read is a rejection;
/// - a body that is not JSON is an invalid response, which holds the body as
///   it was received and the parser's message;
/// - a body that is JSON goes by its envelope, see [`status_checked`].
pub open spec fn posted(reply: ReplyView) -> Result<Json, ErrorView> {
    match reply {
        ReplyView::SendFailed(failure) => Err(classified(failure)),
        ReplyView::ReadFailed(detail) => Err(unread(detail)),
        ReplyView::Text(text) => match parsed(text) {
            Ok(document) => status_checked(document),
            Err(message) => Err(ErrorView::InvalidResponse(text, message)),
        },
    }
}

/// Turns what came back for the request of an authenticated call into the
/// document that the API answered with.
pub fn post(reply: Reply) -> (r: Result<Value, Error>)
    ensures
        document_view(r) == posted(reply@),
{
    match reply {
        Reply::SendFailed(failure) => Err(map_api_err(failure)),
        Reply::ReadFailed(detail) => Err(
            Error::ApiError(String::from_str("Error reading API response: ").concat(detail.as_str())),
        ),
        Reply::Text(text) => match json::parse(text.as_str()) {
            Ok(value) => map_response_status(value),
            Err(message) => Err(Error::InvalidResponse(text, message)),
        },
    }
}

/// A body that is not JSON is reported as an invalid response that holds
/// the body as it was received.
pub proof fn malformed_bodies_are_kept(text: Seq<char>)
    requires
        parsed(text) is Err,
    ensures
        posted(ReplyView::Text(text)) == Err::<Json, ErrorView>(
            ErrorView::InvalidResponse(text, parsed(text)->Err_0),
        ),
{
}

/// The request that ends the session.
pub fn logout_request(api: &model::LoggedInApi) -> (r: Request)
    ensures
        r@ == asked(api@, endpoint::LOGOUT@, None),
{
    post_request(api, endpoint::LOGOUT, None)
}

/// What the logout yields: nothing, where the API reports success.
pub open spec fn logged_out(reply: ReplyView) -> Result<(), ErrorView> {
    match posted(reply) {
        Ok(_) => Ok(()),
        Err(error) => Err(error),
    }
}

/// The failure that stands in the place of nothing.
pub open spec fn unit_view(outcome: Result<(), Error>) -> Result<(), ErrorView> {
    match outcome {
        Ok(_) => Ok(()),
        Err(error) => Err(error@),
    }
}

/// Turns what came back for the logout request into the outcome of the
/// logout. A caller may log a failure; it need not act on it.
pub fn logout(reply: Reply) -> (r: Result<(), Error>)
    ensures
        unit_view(r) == logged_out(reply@),
{
    match post(reply) {
        Ok(_) => Ok(()),
        Err(error) => Err(error),
    }
}

/// The contents of a list or the failure that stands in its place.
pub open spec fn list_view<T: View>(outcome: Result<Vec<T>, Error>) -> Result<Seq<T::V>, ErrorView> {
    match outcome {
        Ok(items) => Ok(views(items@)),
        Err(error) => Err(error@),
    }
}

/// The request that lists the stations.
pub fn stations_request(api: &model::LoggedInApi) -> (r: Request)
    ensures
        r@ == asked(api@, endpoint::STATIONS@, None),
{
    post_request(api, endpoint::STATIONS, None)
}

/// The station of an entry of the listing. The API gives the capacity in
/// megawatt hours, a station holds it in kilowatt hours. This is the one
/// place where a unit is converted.
pub open spec fn station_of(data: get_stations_list::DataView) -> model::StationView {
    model::StationView {
        capacity: data.capacity.thousandfold(),
        name: data.station_name,
        code: data.station_code,
    }
}

/// The stations that a listing yields: those of the answer, in its order. An
/// answer that is not a listing of stations is not of the expected shape.
pub open spec fn stations_of(reply: ReplyView) -> Result<Seq<model::StationView>, ErrorView> {
    match posted(reply) {
        Ok(document) => match GetStationsList::decoded(document) {
            Some(list) => Ok(Seq::new(list.len(), |i: int| station_of(list[i]))),
            None => Err(ErrorView::UnexpectedApiResponse),
        },
        Err(error) => Err(error),
    }
}

/// Turns what came back for the listing of the stations into the stations.
pub fn stations(reply: Reply) -> (r: Result<Vec<model::Station>, Error>)
    ensures
        list_view(r) == stations_of(reply@),
{
    let value = match post(reply) {
        Ok(value) => value,
        Err(error) => {
            return Err(error);
        },
    };
    let list = match GetStationsList::decode(&value) {
        Some(list) => list,
        None => {
            return Err(Error::UnexpectedApiResponse);
        },
    };
    let ghost entries = list@;
    let mut stations: Vec<model::Station> = Vec::new();
    let mut i: usize = 0;
    while i < list.data.len()
        invariant
            i <= list.data.len(),
            stations@.len() == i,
            entries == list@,
            GetStationsList::decoded(json_of(value)) == Some(entries),
            forall|j: int| 0 <= j < i ==> (#[trigger] stations@[j])@ == station_of(entries[j]),
        decreases list.data.len() - i,
    {
        let entry = &list.data[i];
        proof {
            get_stations_list::listed_capacities_are_plain(json_of(value));
            assert(GetStationsList::decoded(json_of(value))->0[i as int].capacity.scale == 0);
        }
        let capacity = Quantity { numeral: entry.capacity.numeral.clone(), scale: entry.capacity.scale };
        stations.push(
            model::Station {
                capacity: capacity.thousandfold(),
                name: entry.station_name.clone(),
                code: entry.station_code.clone(),
            },
        );
        i += 1;
    }
    assert(views(stations@) =~= Seq::new(entries.len(), |i: int| station_of(entries[i])));
    Ok(stations)
}

/// Every station of a listing holds its capacity in kilowatt hours: the
/// numeral that the API gave for the capacity in megawatt hours, times ten
/// to the power three. Nothing is rounded on the way.
pub proof fn stations_hold_kilowatt_hours(reply: ReplyView, i: int)
    requires
        stations_of(reply) is Ok,
        0 <= i < stations_of(reply)->Ok_0.len(),
    ensures
        posted(reply) is Ok,
        GetStationsList::decoded(posted(reply)->Ok_0) matches Some(listed) && {
            &&& listed.len() == stations_of(reply)->Ok_0.len()
            &&& listed[i].capacity == QuantityView::plain(listed[i].capacity.numeral)
            &&& stations_of(reply)->Ok_0[i].capacity == (QuantityView {
                numeral: listed[i].capacity.numeral,
                scale: 3,
            })
        },
{
    get_stations_list::listed_capacities_are_plain(posted(reply)->Ok_0);
}

/// The body of a call that is about one station.
pub open spec fn station_asked(station: model::StationView) -> Seq<(Seq<char>, Seq<char>)> {
    seq![("stationCodes"@, station.code)]
}

fn station_data(station: &model::Station) -> (r: Vec<Field>)
    ensures
        fields_view(r@) == station_asked(station@),
{
    let mut data: Vec<Field> = Vec::new();
    data.push(field("stationCodes", station.code.clone()));
    data
}

/// The request that reads the key figures of `station`.
pub fn station_real_kpi_request(api: &model::LoggedInApi, station: &model::Station) -> (r: Request)
    ensures
        r@ == asked(api@, endpoint::STATION_REAL_KPI@, Some(station_asked(station@))),
{
    post_request(api, endpoint::STATION_REAL_KPI, Some(station_data(station)))
}

/// The key figures of an entry of the answer.
pub open spec fn station_kpi_of(data: get_station_real_kpi::DataView) -> model::StationRealKpiView {
    model::StationRealKpiView { code: data.station_code, day_power: data.day_power }
}

/// The key figures that a query yields: those of the answer, in its order.
/// An answer that does not hold key figures of stations is not of the
/// expected shape.
pub open spec fn station_real_kpi_of(reply: ReplyView) -> Result<
    Seq<model::StationRealKpiView>,
    ErrorView,
> {
    match posted(reply) {
        Ok(document) => match GetStationRealKpi::decoded(document) {
            Some(list) => Ok(Seq::new(list.len(), |i: int| station_kpi_of(list[i]))),
            None => Err(ErrorView::UnexpectedApiResponse),
        },
        Err(error) => Err(error),
    }
}

/// Turns what came back for a query for the key figures of a station into
/// the key figures.
pub fn station_real_kpi(reply: Reply) -> (r: Result<Vec<model::StationRealKpi>, Error>)
    ensures
        list_view(r) == station_real_kpi_of(reply@),
{
    let value = match post(reply) {
        Ok(value) => value,
        Err(error) => {
            return Err(error);
        },
    };
    let list = match GetStationRealKpi::decode(&value) {
        Some(list) => list,
        None => {
            return Err(Error::UnexpectedApiResponse);
        },
    };
    let ghost entries = list@;
    let mut figures: Vec<model::StationRealKpi> = Vec::new();
    let mut i: usize = 0;
    while i < list.data.len()
        invariant
            i <= list.data.len(),
            figures@.len() == i,
            entries == list@,
            forall|j: int| 0 <= j < i ==> (#[trigger] figures@[j])@ == station_kpi_of(entries[j]),
        decreases list.data.len() - i,
    {
        let entry = &list.data[i];
        let day_power = Quantity {
            numeral: entry.data_item_map.day_power.numeral.clone(),
            scale: entry.data_item_map.day_power.scale,
        };
        figures.push(model::StationRealKpi { code: entry.station_code.clone(), day_power });
        i += 1;
    }
    assert(views(figures@) =~= Seq::new(entries.len(), |i: int| station_kpi_of(entries[i])));
    Ok(figures)
}

/// The request that lists the devices of `station`.
pub fn devices_request(api: &model::LoggedInApi, station: &model::Station) -> (r: Request)
    ensures
        r@ == asked(api@, endpoint::DEVICES@, Some(station_asked(station@))),
{
    post_request(api, endpoint::DEVICES, Some(station_data(station)))
}

/// The device of an entry of the listing.
pub open spec fn device_of(data: get_device_list::DataView) -> model::Device {
    model::Device { type_id: data.dev_type_id, id: data.id }
}

/// The devices that a listing yields: those of the answer, in its order,
/// whether the client knows their type or not. An answer that is not a
/// listing of devices is not of the expected shape.
pub open spec fn devices_of(reply: ReplyView) -> Result<Seq<model::Device>, ErrorView> {
    match posted(reply) {
        Ok(document) => match GetDevicesList::decoded(document) {
            Some(list) => Ok(Seq::new(list.len(), |i: int| device_of(list[i]))),
            None => Err(ErrorView::UnexpectedApiResponse),
        },
        Err(error) => Err(error),
    }
}

/// Turns what came back for the listing of the devices of a station into the
/// devices.
pub fn devices(reply: Reply) -> (r: Result<Vec<model::Device>, Error>)
    ensures
        list_view(r) == devices_of(reply@),
{
    let value = match post(reply) {
        Ok(value) => value,
        Err(error) => {
            return Err(error);
        },
    };
    let list = match GetDevicesList::decode(&value) {
        Some(list) => list,
        None => {
            return Err(Error::UnexpectedApiResponse);
        },
    };
    let ghost entries = list@;
    let mut devices: Vec<model::Device> = Vec::new();
    let mut i: usize = 0;
    while i < list.data.len()
        invariant
            i <= list.data.len(),
            devices@.len() == i,
            entries == list@,
            forall|j: int| 0 <= j < i ==> (#[trigger] devices@[j]) == device_of(entries[j]),
        decreases list.data.len() - i,
    {
        let entry = &list.data[i];
        devices.push(model::Device { type_id: entry.dev_type_id, id: entry.id });
        i += 1;
    }
    assert(views(devices@) =~= Seq::new(entries.len(), |i: int| device_of(entries[i])));
    Ok(devices)
}

/// The body of a query for the telemetry of a device: the device's id and
/// the code of its type, as decimal numerals.
pub open spec fn device_asked(device: model::Device) -> Seq<(Seq<char>, Seq<char>)> {
    seq![("devIds"@, decimal(device.id as nat)), ("devTypeId"@, decimal(device.type_id.code() as nat))]
}

pub(crate) fn device_data(device: &model::Device) -> (r: Vec<Field>)
    ensures
        fields_view(r@) == device_asked(*device),
{
    let mut data: Vec<Field> = Vec::new();
    data.push(field("devIds", decimal_text(device.id)));
    data.push(field("devTypeId", decimal_text(device.type_id.code())));
    data
}

/// What a query for the telemetry of a device asks the transport to send.
/// For a device whose type the client does not know there is nothing to
/// send: no record shape is known for the answer.
pub open spec fn device_real_kpi_asked(api: model::LoggedInApiView, device: model::Device) -> Result<
    RequestView,
    ErrorView,
> {
    match device.type_id {
        DeviceTypeId::UnsupportedDeviceTypeId(code) => Err(ErrorView::UnknownDeviceType(code)),
        DeviceTypeId::SupportedDeviceTypeId(_) => Ok(
            asked(api, endpoint::DEVICE_REAL_KPI@, Some(device_asked(device))),
        ),
    }
}

/// The content of a request or the failure that stands in its place.
pub open spec fn request_view(outcome: Result<Request, Error>) -> Result<RequestView, ErrorView> {
    match outcome {
        Ok(request) => Ok(request@),
        Err(error) => Err(error@),
    }
}

/// The request that reads the telemetry of `device`, if the client knows the
/// device's type.
pub fn device_real_kpi_request(api: &model::LoggedInApi, device: &model::Device) -> (r: Result<
    Request,
    Error,
>)
    ensures
        request_view(r) == device_real_kpi_asked(api@, *device),
{
    match device.type_id {
        DeviceTypeId::UnsupportedDeviceTypeId(code) => Err(Error::UnknownDeviceType(code)),
        DeviceTypeId::SupportedDeviceTypeId(_) => Ok(
            post_request(api, endpoint::DEVICE_REAL_KPI, Some(device_data(device))),
        ),
    }
}

/// The telemetry of a string inverter: its temperature and its active power.
pub open spec fn string_inverter_kpi_of(
    data: get_device_real_kpi::string_inverter::DataView,
) -> model::DeviceRealKpiView {
    model::DeviceRealKpiView {
        id: data.dev_id,
        temperature: Some(data.data_item_map.temperature),
        active_power: Some(data.data_item_map.active_power),
    }
}

/// The telemetry that a decoded answer holds, one entry per record, in the
/// order of the answer. Of each record the fields are set that the device
/// type reports.
pub open spec fn device_kpi_of(answer: GetDeviceRealKpiView) -> Seq<model::DeviceRealKpiView> {
    match answer {
        GetDeviceRealKpiView::StringInverter(records) => Seq::new(
            records.len(),
            |i: int| string_inverter_kpi_of(records[i]),
        ),
    }
}

/// The telemetry that a query yields. The answer is decoded by the device
/// type that it names, see [`GetDeviceRealKpi::decoded`].
pub open spec fn device_real_kpi_of(reply: ReplyView) -> Result<
    Seq<model::DeviceRealKpiView>,
    ErrorView,
> {
    match posted(reply) {
        Ok(document) => match GetDeviceRealKpi::decoded(document) {
            Ok(answer) => Ok(device_kpi_of(answer)),
            Err(error) => Err(error),
        },
        Err(error) => Err(error),
    }
}

/// Turns what came back for a query for the telemetry of a device into the
/// telemetry.
pub fn device_real_kpi(reply: Reply) -> (r: Result<Vec<model::DeviceRealKpi>, Error>)
    ensures
        list_view(r) == device_real_kpi_of(reply@),
{
    let value = match post(reply) {
        Ok(value) => value,
        Err(error) => {
            return Err(error);
        },
    };
    let answer = match GetDeviceRealKpi::decode(&value) {
        Ok(answer) => answer,
        Err(error) => {
            return Err(error);
        },
    };
    match answer {
        GetDeviceRealKpi::StringInverter(list) => {
            let ghost records = list@;
            let mut telemetry: Vec<model::DeviceRealKpi> = Vec::new();
            let mut i: usize = 0;
            while i < list.data.len()
                invariant
                    i <= list.data.len(),
                    telemetry@.len() == i,
                    records == list@,
                    forall|j: int|
                        0 <= j < i ==> (#[trigger] telemetry@[j])@ == string_inverter_kpi_of(
                            records[j],
                        ),
                decreases list.data.len() - i,
            {
                let record = &list.data[i];
                let temperature = Quantity {
                    numeral: record.data_item_map.temperature.numeral.clone(),
                    scale: record.data_item_map.temperature.scale,
                };
                let active_power = Quantity {
                    numeral: record.data_item_map.active_power.numeral.clone(),
                    scale: record.data_item_map.active_power.scale,
                };
                telemetry.push(
                    model::DeviceRealKpi {
                        id: record.dev_id,
                        temperature: Some(temperature),
                        active_power: Some(active_power),
                    },
                );
                i += 1;
            }
            assert(views(telemetry@) =~= Seq::new(
                records.len(),
                |i: int| string_inverter_kpi_of(records[i]),
            ));
            Ok(telemetry)
        },
    }
}

} // verus!
