//! The data provider: the request that asks it for a site's gauge height,
//! and the reading that its answer holds.

use vstd::prelude::*;
use vstd::string::StringExecFns;
use crate::amount::Amount;
use crate::errors::{OracleError, OracleErrorKind};
use crate::json::{
    field_problem,
    json_contents,
    json_of_text,
    length_at,
    length_in,
    parse_document,
    text_at,
    text_in,
    JsonNodeView,
};
use crate::level::{parse_level, parsed_level};
use crate::reading::{FloodData, FloodDataView};

verus! {

/// The most bytes that an answer of the provider may have.
pub const MAX_RESPONSE_BYTES: u64 = 10_000;

/// What one outbound call is charged, whatever comes of it.
pub const FETCH_CYCLES: u128 = 20_000_000_000;

/// The address that a request for the site `site_id` goes to.
pub open spec fn request_url(base_url: Seq<char>, site_id: Seq<char>) -> Seq<char> {
    base_url + "?format=json&sites="@ + site_id + "&parameterCd=00065&siteStatus=all"@
}

/// The methods that an outbound request may have.
#[derive(Clone, Copy, Debug, PartialEq, Eq, Structural)]
pub enum HttpMethod {
    Get,
    Post,
    Head,
}

/// An outbound request, as the network layer needs it described.
#[derive(Debug)]
pub struct OutboundRequest {
    pub url: String,
    pub method: HttpMethod,
    pub headers: Vec<HttpHeader>,
    pub body: Option<Vec<u8>>,
    /// The answer is cut off after this many bytes.
    pub max_response_bytes: u64,
    /// What the call is charged.
    pub cycles: u128,
    /// The entry point that the network layer calls on each copy of the
    /// answer, so that all copies agree.
    pub transform_method: String,
    /// What the network layer hands to that entry point with each copy.
    pub transform_context: Vec<u8>,
}

/// Whether `request` is the request for the latest gauge height of the
/// site `site_id` at the provider under `base_url`: a GET of the site's
/// address, without headers or body, with the bound on the answer, the
/// charge, and the transform without context.
pub open spec fn is_provider_request(
    request: OutboundRequest,
    base_url: Seq<char>,
    site_id: Seq<char>,
) -> bool {
    &&& request.url@ == request_url(base_url, site_id)
    &&& request.method == HttpMethod::Get
    &&& request.headers@.len() == 0
    &&& request.body is None
    &&& request.max_response_bytes == MAX_RESPONSE_BYTES
    &&& request.cycles == FETCH_CYCLES
    &&& request.transform_method@ == "transform_usgs_response"@
    &&& request.transform_context@.len() == 0
}

/// The request for the latest gauge height of a site.
pub fn build_request(base_url: &str, site_id: &str) -> (r: OutboundRequest)
    ensures
        is_provider_request(r, base_url@, site_id@),
{
    let mut url = String::from_str(base_url);
    url.append("?format=json&sites=");
    url.append(site_id);
    url.append("&parameterCd=00065&siteStatus=all");
    OutboundRequest {
        url,
        method: HttpMethod::Get,
        headers: Vec::new(),
        body: None,
        max_response_bytes: MAX_RESPONSE_BYTES,
        cycles: FETCH_CYCLES,
        transform_method: String::from_str("transform_usgs_response"),
        transform_context: Vec::new(),
    }
}

/// One header of a request or an answer.
#[derive(Debug)]
pub struct HttpHeader {
    pub name: String,
    pub value: String,
}

/// An answer of the provider, as the network layer hands it over.
#[derive(Debug)]
pub struct ProviderResponse {
    pub status: Amount,
    pub headers: Vec<HttpHeader>,
    pub body: Vec<u8>,
}

/// What the network layer hands to the transform: one copy of the answer,
/// and the context that the request named.
#[derive(Debug)]
pub struct TransformArgs {
    pub response: ProviderResponse,
    pub context: Vec<u8>,
}

/// The transform of the provider's answers: the answer as it came.
pub fn transform_usgs_response(args: TransformArgs) -> (r: ProviderResponse)
    ensures
        r == args.response,
{
    args.response
}

/// What `String::from_utf8` reports of bytes that are not UTF-8.
pub uninterp spec fn utf8_error_text(bytes: Seq<u8>) -> Seq<char>;

/// Calls `String::from_utf8`, and `to_string` on its error. The text comes
/// back exactly when the bytes are UTF-8, and then they are its encoding;
/// the report of the error is only given a name.
#[verifier::external_body]
fn text_from_utf8(bytes: Vec<u8>) -> (r: Result<String, String>)
    ensures
        match r {
            Ok(text) => vstd::utf8::valid_utf8(bytes@) && vstd::utf8::encode_utf8(text@) == bytes@,
            Err(report) => !vstd::utf8::valid_utf8(bytes@) && report@ == utf8_error_text(bytes@),
        },
{
    match String::from_utf8(bytes) {
        Ok(text) => Ok(text),
        Err(e) => Err(e.to_string()),
    }
}

/// The body of an answer as text.
pub fn body_text(body: Vec<u8>) -> (r: Result<String, OracleError>)
    ensures
        match r {
            Ok(text) => vstd::utf8::valid_utf8(body@) && text@ == vstd::utf8::decode_utf8(body@),
            Err(e) => !vstd::utf8::valid_utf8(body@) && e.says(
                OracleErrorKind::BodyNotUtf8,
                utf8_error_text(body@),
            ),
        },
{
    match text_from_utf8(body) {
        Ok(text) => {
            proof {
                vstd::utf8::encode_utf8_decode_utf8(text@);
            }
            Ok(text)
        },
        Err(report) => Err(OracleError::new(OracleErrorKind::BodyNotUtf8, report.as_str())),
    }
}

/// Where the list of time series stands in a document of the provider.
pub open spec fn series_pointer() -> Seq<char> {
    "/value/timeSeries"@
}

/// Where the name of the first time series' site stands.
pub open spec fn site_name_pointer() -> Seq<char> {
    "/value/timeSeries/0/sourceInfo/siteName"@
}

/// Where the groups of values of the first time series stand.
pub open spec fn groups_pointer() -> Seq<char> {
    "/value/timeSeries/0/values"@
}

/// Where the values of the first group stand.
pub open spec fn values_pointer() -> Seq<char> {
    "/value/timeSeries/0/values/0/value"@
}

/// Where the first value of the first group stands, as text.
pub open spec fn latest_pointer() -> Seq<char> {
    "/value/timeSeries/0/values/0/value/0/value"@
}

/// Who measured the readings.
pub open spec fn source_label() -> Seq<char> {
    "USGS Water Data"@
}

/// A failure about a place of the document where the expected kind of
/// value does not stand.
pub open spec fn malformed_at(contents: Map<Seq<char>, JsonNodeView>, pointer: Seq<char>) -> Result<
    FloodDataView,
    (OracleErrorKind, Seq<char>),
> {
    Err((OracleErrorKind::MalformedJson, field_problem(contents, pointer)))
}

/// What a document of the provider yields for the site `site_id` at the
/// time `now`: the reading made of the first value of the first group of
/// the first time series, or the failure and what it is about. Only the
/// places that are read have to be there.
pub open spec fn reading_of_contents(
    contents: Map<Seq<char>, JsonNodeView>,
    site_id: Seq<char>,
    now: u64,
) -> Result<FloodDataView, (OracleErrorKind, Seq<char>)> {
    if length_in(contents, series_pointer()) is None {
        malformed_at(contents, series_pointer())
    } else if length_in(contents, series_pointer()) == Some(0nat) {
        Err((OracleErrorKind::NoTimeSeries, Seq::empty()))
    } else if text_in(contents, site_name_pointer()) is None {
        malformed_at(contents, site_name_pointer())
    } else if length_in(contents, groups_pointer()) is None {
        malformed_at(contents, groups_pointer())
    } else if length_in(contents, groups_pointer()) == Some(0nat) {
        Err((OracleErrorKind::NoValues, Seq::empty()))
    } else if length_in(contents, values_pointer()) is None {
        malformed_at(contents, values_pointer())
    } else if length_in(contents, values_pointer()) == Some(0nat) {
        Err((OracleErrorKind::NoLatestValue, Seq::empty()))
    } else if text_in(contents, latest_pointer()) is None {
        malformed_at(contents, latest_pointer())
    } else {
        let text = text_in(contents, latest_pointer())->Some_0;
        match parsed_level(text) {
            None => Err((OracleErrorKind::BadLevel, text)),
            Some(level) => Ok(
                FloodDataView {
                    location: site_id,
                    water_level: level,
                    timestamp: now,
                    source: source_label(),
                    site_name: text_in(contents, site_name_pointer())->Some_0,
                },
            ),
        }
    }
}

/// What the body of an answer yields: it has to be UTF-8, and JSON, and
/// then it is read as [`reading_of_contents`] says.
pub open spec fn reading_of_body(body: Seq<u8>, site_id: Seq<char>, now: u64) -> Result<
    FloodDataView,
    (OracleErrorKind, Seq<char>),
> {
    if !vstd::utf8::valid_utf8(body) {
        Err((OracleErrorKind::BodyNotUtf8, utf8_error_text(body)))
    } else {
        match json_of_text(vstd::utf8::decode_utf8(body)) {
            Err(report) => Err((OracleErrorKind::MalformedJson, report)),
            Ok(contents) => reading_of_contents(contents, site_id, now),
        }
    }
}

/// Whether a result is the one that is described.
pub open spec fn is_reading_result(
    r: Result<FloodData, OracleError>,
    expected: Result<FloodDataView, (OracleErrorKind, Seq<char>)>,
) -> bool {
    match r {
        Ok(data) => expected == Ok::<FloodDataView, (OracleErrorKind, Seq<char>)>(data@),
        Err(e) => expected is Err && e.says(expected->Err_0.0, expected->Err_0.1),
    }
}

/// Reads the latest gauge height of the site `site_id` out of a parsed
/// document of the provider.
pub fn reading_of_document(document: &serde_json::Value, site_id: &str, now: u64) -> (r: Result<
    FloodData,
    OracleError,
>)
    ensures
        is_reading_result(r, reading_of_contents(json_contents(*document), site_id@, now)),
{
    let series = match length_at(document, "/value/timeSeries") {
        Ok(length) => length,
        Err(e) => {
            return Err(e);
        },
    };
    if series == 0 {
        return Err(OracleError::new(OracleErrorKind::NoTimeSeries, ""));
    }
    let site_name = match text_at(document, "/value/timeSeries/0/sourceInfo/siteName") {
        Ok(text) => text,
        Err(e) => {
            return Err(e);
        },
    };
    let groups = match length_at(document, "/value/timeSeries/0/values") {
        Ok(length) => length,
        Err(e) => {
            return Err(e);
        },
    };
    if groups == 0 {
        return Err(OracleError::new(OracleErrorKind::NoValues, ""));
    }
    let values = match length_at(document, "/value/timeSeries/0/values/0/value") {
        Ok(length) => length,
        Err(e) => {
            return Err(e);
        },
    };
    if values == 0 {
        return Err(OracleError::new(OracleErrorKind::NoLatestValue, ""));
    }
    let latest = match text_at(document, "/value/timeSeries/0/values/0/value/0/value") {
        Ok(text) => text,
        Err(e) => {
            return Err(e);
        },
    };
    match parse_level(latest.as_str()) {
        None => Err(OracleError::new(OracleErrorKind::BadLevel, latest.as_str())),
        Some(water_level) => Ok(
            FloodData {
                location: String::from_str(site_id),
                water_level,
                timestamp: now,
                source: String::from_str("USGS Water Data"),
                site_name,
            },
        ),
    }
}

/// Reads the latest gauge height of the site `site_id` out of an answer
/// of the provider.
pub fn parse_usgs_response(response: ProviderResponse, site_id: &str, now: u64) -> (r: Result<
    FloodData,
    OracleError,
>)
    ensures
        is_reading_result(r, reading_of_body(response.body@, site_id@, now)),
{
    let text = match body_text(response.body) {
        Ok(text) => text,
        Err(e) => {
            return Err(e);
        },
    };
    let document = match parse_document(text.as_str()) {
        Ok(document) => document,
        Err(e) => {
            return Err(e);
        },
    };
    reading_of_document(&document, site_id, now)
}

/// What an outbound call comes back with: an answer of the provider, or
/// what the network layer said of its failure to get one.
pub type FetchOutcome = Result<ProviderResponse, String>;

/// What the outcome of an outbound call yields: what its answer yields, or
/// the failure to get an answer, about what the network layer said of it.
pub open spec fn outcome_reading(outcome: FetchOutcome, site_id: Seq<char>, now: u64) -> Result<
    FloodDataView,
    (OracleErrorKind, Seq<char>),
> {
    match outcome {
        Ok(response) => reading_of_body(response.body@, site_id, now),
        Err(detail) => Err((OracleErrorKind::Transport, detail@)),
    }
}

/// Reads what came of an outbound call.
pub fn reading_of_outcome(
    outcome: FetchOutcome,
    site_id: &str,
    now: u64,
) -> (r: Result<FloodData, OracleError>)
    ensures
        is_reading_result(r, outcome_reading(outcome, site_id@, now)),
{
    match outcome {
        Ok(response) => parse_usgs_response(response, site_id, now),
        Err(detail) => Err(OracleError::new(OracleErrorKind::Transport, detail.as_str())),
    }
}

} // verus!
