//! NOAA CO-OPS Tides & Currents observations and tide predictions.
//!
//! Data comes from the CO-OPS `datagetter` API (typically
//! `https://api.tidesandcurrents.noaa.gov/api/prod/datagetter`), one request per
//! product, and the CO-OPS station metadata API.  Every product is best-effort:
//! a failed request, an `{"error": ...}` body, or an unreadable value leaves the
//! corresponding reading absent.

use crate::buoy_client::{cannot_parse, cannot_parse_message};
use crate::decimal::{parse_reading, reading_of, Reading, ReadingView};
use crate::text::{chars_of, opt_text, push_str};
use crate::web::{extend_query, parse_url, parsed_url, url_with_query};
use chrono::TimeZone;
use vstd::prelude::*;

verus! {

/// Error resulting from setup of a `CoOpsClient` instance.
///
/// Individual product fetches are best-effort and never produce a hard error;
/// this only covers construction-time failures.
#[derive(Debug)]
pub enum CoOpsClientError {
    Initialization(String),
}

impl CoOpsClientError {
    /// The message of this error (what its `Display` shows).
    pub fn message(&self) -> (r: String)
        ensures
            match self {
                CoOpsClientError::Initialization(msg) => r@ == "initialization error: "@ + msg@,
            },
    {
        match self {
            CoOpsClientError::Initialization(msg) => {
                let mut s = String::new();
                push_str(&mut s, "initialization error: ");
                push_str(&mut s, msg.as_str());
                s
            },
        }
    }
}

/// Client for fetching NOAA CO-OPS observations and tide predictions.
#[derive(Debug)]
pub struct CoOpsClient {
    client: reqwest::Client,
    base_url: String,
    station_list_url: String,
}

/// A CO-OPS `datagetter` product.
#[derive(Clone, Copy, Debug, PartialEq, Eq, Structural)]
pub enum CoOpsProduct {
    WaterLevel,
    Predictions,
    Wind,
    AirTemperature,
    WaterTemperature,
    AirPressure,
}

/// The `product` parameter of a product.
pub open spec fn product_name(p: CoOpsProduct) -> Seq<char> {
    match p {
        CoOpsProduct::WaterLevel => "water_level"@,
        CoOpsProduct::Predictions => "predictions"@,
        CoOpsProduct::Wind => "wind"@,
        CoOpsProduct::AirTemperature => "air_temperature"@,
        CoOpsProduct::WaterTemperature => "water_temperature"@,
        CoOpsProduct::AirPressure => "air_pressure"@,
    }
}

/// The `units` parameter of a product: water level and tide predictions in
/// feet, the rest metric.
pub open spec fn product_units(p: CoOpsProduct) -> Seq<char> {
    match p {
        CoOpsProduct::WaterLevel => "english"@,
        CoOpsProduct::Predictions => "english"@,
        _ => "metric"@,
    }
}

/// The parameters particular to a product.
pub open spec fn product_extra(p: CoOpsProduct) -> Seq<(Seq<char>, Seq<char>)> {
    match p {
        CoOpsProduct::WaterLevel => seq![("datum"@, "MLLW"@), ("date"@, "latest"@)],
        CoOpsProduct::Predictions => seq![
            ("datum"@, "MLLW"@),
            ("interval"@, "hilo"@),
            ("date"@, "today"@),
            ("range"@, "48"@),
        ],
        _ => seq![("date"@, "latest"@)],
    }
}

/// The query parameters of a request for `product` at `station`, in order.
pub open spec fn product_query(station: Seq<char>, p: CoOpsProduct) -> Seq<(Seq<char>, Seq<char>)> {
    seq![
        ("station"@, station),
        ("product"@, product_name(p)),
        ("units"@, product_units(p)),
        ("time_zone"@, "gmt"@),
        ("format"@, "json"@),
        ("application"@, "nws_exporter"@),
    ] + product_extra(p)
}

fn pair(k: &str, v: &str) -> (r: (String, String))
    ensures
        r.0@ == k@,
        r.1@ == v@,
{
    (k.to_owned(), v.to_owned())
}

impl CoOpsProduct {
    /// The `product` parameter.
    pub fn name(&self) -> (r: &'static str)
        ensures
            r@ == product_name(*self),
    {
        match self {
            CoOpsProduct::WaterLevel => "water_level",
            CoOpsProduct::Predictions => "predictions",
            CoOpsProduct::Wind => "wind",
            CoOpsProduct::AirTemperature => "air_temperature",
            CoOpsProduct::WaterTemperature => "water_temperature",
            CoOpsProduct::AirPressure => "air_pressure",
        }
    }

    /// The `units` parameter.
    pub fn units(&self) -> (r: &'static str)
        ensures
            r@ == product_units(*self),
    {
        match self {
            CoOpsProduct::WaterLevel => "english",
            CoOpsProduct::Predictions => "english",
            _ => "metric",
        }
    }

    /// The query parameters of a request for this product at `station`.
    pub fn query(&self, station: &str) -> (r: Vec<(String, String)>)
        ensures
            r.deep_view() == product_query(station@, *self),
    {
        let mut q: Vec<(String, String)> = Vec::new();
        q.push(pair("station", station));
        q.push(pair("product", self.name()));
        q.push(pair("units", self.units()));
        q.push(pair("time_zone", "gmt"));
        q.push(pair("format", "json"));
        q.push(pair("application", "nws_exporter"));
        match self {
            CoOpsProduct::WaterLevel => {
                q.push(pair("datum", "MLLW"));
                q.push(pair("date", "latest"));
            },
            CoOpsProduct::Predictions => {
                q.push(pair("datum", "MLLW"));
                q.push(pair("interval", "hilo"));
                q.push(pair("date", "today"));
                q.push(pair("range", "48"));
            },
            _ => {
                q.push(pair("date", "latest"));
            },
        }
        assert(q.deep_view() =~= product_query(station@, *self));
        q
    }
}

impl CoOpsClient {
    /// Create a new `CoOpsClient` from the provided reqwest client, base URL for
    /// the CO-OPS `datagetter` API, and URL for the CO-OPS tide-prediction station
    /// metadata list.  The base URL is checked first.
    pub fn new(client: reqwest::Client, base_url: &str, station_list_url: &str) -> (r: Result<
        Self,
        CoOpsClientError,
    >)
        ensures
            match (parsed_url(base_url@), parsed_url(station_list_url@)) {
                (Ok(b), Ok(s)) => r matches Ok(c) && c.http_client() == client && c.base_url_view() == b
                    && c.station_list_url_view() == s,
                (Err(e), _) => r matches Err(CoOpsClientError::Initialization(msg)) && msg@
                    == cannot_parse_message(base_url@, e),
                (Ok(_), Err(e)) => r matches Err(CoOpsClientError::Initialization(msg)) && msg@
                    == cannot_parse_message(station_list_url@, e),
            },
    {
        let base = match parse_url(base_url) {
            Ok(u) => u,
            Err(e) => {
                return Err(CoOpsClientError::Initialization(cannot_parse(base_url, e.as_str())));
            },
        };
        let list = match parse_url(station_list_url) {
            Ok(u) => u,
            Err(e) => {
                return Err(
                    CoOpsClientError::Initialization(cannot_parse(station_list_url, e.as_str())),
                );
            },
        };
        Ok(CoOpsClient { client, base_url: base, station_list_url: list })
    }

    /// The serialization of the `datagetter` base URL.
    pub closed spec fn base_url_view(&self) -> Seq<char> {
        self.base_url@
    }

    /// The serialization of the station list URL.
    pub closed spec fn station_list_url_view(&self) -> Seq<char> {
        self.station_list_url@
    }

    /// The HTTP client given at construction.
    pub closed spec fn http_client(&self) -> reqwest::Client {
        self.client
    }

    /// The HTTP client requests go through.
    pub fn http(&self) -> (r: &reqwest::Client)
        ensures
            *r == self.http_client(),
    {
        &self.client
    }

    /// The URL of the station metadata list.
    pub fn station_list_url(&self) -> (r: &String)
        ensures
            r@ == self.station_list_url_view(),
    {
        &self.station_list_url
    }

    /// The URL requesting `product` for `station_id`: the base URL with the
    /// product's query parameters appended (see `product_query`).
    pub fn product_url(&self, station_id: &str, product: CoOpsProduct) -> (r: Option<String>)
        ensures
            opt_text(r) == url_with_query(self.base_url_view(), product_query(station_id@, product)),
    {
        let q = product.query(station_id);
        extend_query(self.base_url.as_str(), &q)
    }
}

// ---------------------------------------------------------------------------
// Decoded responses
// ---------------------------------------------------------------------------

/// A row of a `{"data": [{"v": "..."}]}` response.
pub struct ValueRow {
    pub v: String,
}

/// A `{"data": [...]}` response of the `water_level`, `air_temperature`,
/// `water_temperature` and `air_pressure` products.
pub struct ValueResponse {
    pub data: Vec<ValueRow>,
}

/// A row of a `wind` response: direction, speed and gust.
pub struct WindRow {
    pub d: String,
    pub s: String,
    pub g: String,
}

/// A `wind` response.
pub struct WindResponse {
    pub data: Vec<WindRow>,
}

/// A row of a `predictions` response: time (`YYYY-MM-DD hh:mm`, UTC), height,
/// and type (`H` for a high tide, `L` for a low one).
pub struct PredictionRow {
    pub t: String,
    pub v: String,
    pub kind: String,
}

/// A `predictions` response.
pub struct PredictionsResponse {
    pub predictions: Vec<PredictionRow>,
}

/// A CO-OPS response body as the JSON decoder read it.  CO-OPS answers HTTP 200
/// with an `{"error": {"message": ...}}` body for products a station does not
/// have, so both readings of the body are kept.
pub struct CoOpsReply<T> {
    /// The body decodes as `{"error": {"message": <string>}}`.
    pub is_error: bool,
    /// The body decoded as the product's response, if it does.
    pub parsed: Option<T>,
}

/// The most recent value of a `{"data": [{"v": ...}]}` response: none for an
/// error body, a body that does not decode, no rows, or a value that is not a
/// number (see `parse_reading`: every text `f64::from_str` reads has a value).
pub open spec fn single_value(reply: &CoOpsReply<ValueResponse>) -> Option<ReadingView> {
    if reply.is_error {
        None
    } else {
        match &reply.parsed {
            None => None,
            Some(resp) => if resp.data.len() == 0 {
                None
            } else {
                parse_reading(resp.data[0].v@)
            },
        }
    }
}

/// Parse a CO-OPS `{"data": [{"v": "..."}]}` response (used by `water_level`,
/// `air_temperature`, `water_temperature`, and `air_pressure`) into the most recent
/// value.
pub fn parse_single_value(reply: &CoOpsReply<ValueResponse>) -> (r: Option<Reading>)
    ensures
        reading_of(r) == single_value(reply),
{
    if reply.is_error {
        return None;
    }
    match &reply.parsed {
        None => None,
        Some(resp) => {
            if resp.data.len() == 0 {
                None
            } else {
                Reading::parse(resp.data[0].v.as_str())
            }
        },
    }
}

/// Direction, speed and gust of the first row of a `wind` response; all absent
/// for an error body, a body that does not decode, or no rows.  Each value is
/// absent on its own when it is not a number (see `parse_reading`).
pub open spec fn wind_values(reply: &CoOpsReply<WindResponse>) -> (
    Option<ReadingView>,
    Option<ReadingView>,
    Option<ReadingView>,
) {
    if reply.is_error {
        (None, None, None)
    } else {
        match &reply.parsed {
            None => (None, None, None),
            Some(resp) => if resp.data.len() == 0 {
                (None, None, None)
            } else {
                let row = resp.data[0];
                (parse_reading(row.d@), parse_reading(row.s@), parse_reading(row.g@))
            },
        }
    }
}

/// The views of three optional readings.
pub open spec fn readings_of(r: (Option<Reading>, Option<Reading>, Option<Reading>)) -> (
    Option<ReadingView>,
    Option<ReadingView>,
    Option<ReadingView>,
) {
    (reading_of(r.0), reading_of(r.1), reading_of(r.2))
}

/// Parse a CO-OPS `wind` product response into `(direction_degrees, speed_mps, gust_mps)`.
pub fn parse_wind(reply: &CoOpsReply<WindResponse>) -> (r: (
    Option<Reading>,
    Option<Reading>,
    Option<Reading>,
))
    ensures
        readings_of(r) == wind_values(reply),
{
    if reply.is_error {
        return (None, None, None);
    }
    match &reply.parsed {
        None => (None, None, None),
        Some(resp) => {
            if resp.data.len() == 0 {
                (None, None, None)
            } else {
                let row = &resp.data[0];
                (
                    Reading::parse(row.d.as_str()),
                    Reading::parse(row.s.as_str()),
                    Reading::parse(row.g.as_str()),
                )
            }
        },
    }
}

/// A value response gives the reading of the `v` of its first row, and nothing
/// for an error body, a body that does not decode, or no rows.
pub proof fn lemma_single_value(reply: &CoOpsReply<ValueResponse>)
    ensures
        single_value(reply) is Some ==> !reply.is_error && reply.parsed is Some
            && reply.parsed->0.data.len() > 0,
        !reply.is_error && reply.parsed is Some && reply.parsed->0.data.len() > 0
            ==> single_value(reply) == parse_reading(reply.parsed->0.data[0].v@),
{
}

/// A wind response gives the direction from the `d`, the speed from the `s` and
/// the gust from the `g` of its first row, and nothing for an error body, a
/// body that does not decode, or no rows.
pub proof fn lemma_wind_values(reply: &CoOpsReply<WindResponse>)
    ensures
        !reply.is_error && reply.parsed is Some && reply.parsed->0.data.len() > 0 ==> ({
            let row = reply.parsed->0.data[0];
            &&& wind_values(reply).0 == parse_reading(row.d@)
            &&& wind_values(reply).1 == parse_reading(row.s@)
            &&& wind_values(reply).2 == parse_reading(row.g@)
        }),
        !(!reply.is_error && reply.parsed is Some && reply.parsed->0.data.len() > 0) ==> wind_values(
            reply,
        ) == (None::<ReadingView>, None::<ReadingView>, None::<ReadingView>),
{
}

/// Each product is requested under its CO-OPS name, for the station given:
/// water level and tide predictions in feet against MLLW, the rest in metric
/// units; every request asks for GMT times and JSON.
pub proof fn lemma_product_query(station: Seq<char>, p: CoOpsProduct)
    ensures
        product_query(station, p)[0] == ("station"@, station),
        product_query(station, p)[1].0 == "product"@,
        product_query(station, p)[2].0 == "units"@,
        product_query(station, p)[3] == ("time_zone"@, "gmt"@),
        product_query(station, p)[4] == ("format"@, "json"@),
        p == CoOpsProduct::WaterLevel ==> product_query(station, p)[1].1 == "water_level"@
            && product_query(station, p)[2].1 == "english"@ && product_query(station, p)[6]
            == ("datum"@, "MLLW"@),
        p == CoOpsProduct::Predictions ==> product_query(station, p)[1].1 == "predictions"@
            && product_query(station, p)[2].1 == "english"@ && product_query(station, p)[6]
            == ("datum"@, "MLLW"@) && product_query(station, p)[7] == ("interval"@, "hilo"@),
        p == CoOpsProduct::Wind ==> product_query(station, p)[1].1 == "wind"@
            && product_query(station, p)[2].1 == "metric"@,
        p == CoOpsProduct::AirTemperature ==> product_query(station, p)[1].1 == "air_temperature"@
            && product_query(station, p)[2].1 == "metric"@,
        p == CoOpsProduct::WaterTemperature ==> product_query(station, p)[1].1
            == "water_temperature"@ && product_query(station, p)[2].1 == "metric"@,
        p == CoOpsProduct::AirPressure ==> product_query(station, p)[1].1 == "air_pressure"@
            && product_query(station, p)[2].1 == "metric"@,
{
}

// ---------------------------------------------------------------------------
// Tide predictions
// ---------------------------------------------------------------------------

/// A predicted tide event: unix timestamp and height, in feet.
pub type TidePrediction = (i64, Reading);

/// A predicted tide event, by its view.
pub type TideView = (i64, ReadingView);

/// The view of an optional tide event.
pub open spec fn tide_of(e: Option<TidePrediction>) -> Option<TideView> {
    match e {
        Some(p) => Some((p.0, p.1@)),
        None => None,
    }
}

/// What `chrono::NaiveDateTime::parse_from_str(text, format)` gives, taken as
/// a UTC time, in seconds since the unix epoch (`None` when it does not parse).
pub uninterp spec fn naive_utc_seconds(text: Seq<char>, format: Seq<char>) -> Option<i64>;

/// `chrono::NaiveDateTime::parse_from_str`, with the parsed time read as UTC
/// (`Utc.from_utc_datetime(..).timestamp()`).  The contract claims only that the
/// outcome is the one named by `naive_utc_seconds`.
#[verifier::external_body]
fn parse_utc_seconds(text: &str, format: &str) -> (r: Option<i64>)
    ensures
        r == naive_utc_seconds(text@, format@),
{
    match chrono::NaiveDateTime::parse_from_str(text, format) {
        Ok(n) => Some(chrono::Utc.from_utc_datetime(&n).timestamp()),
        Err(_) => None,
    }
}

/// The format of a prediction's time.
pub open spec fn prediction_time_format() -> Seq<char> {
    "%Y-%m-%d %H:%M"@
}

/// The event a prediction row stands for, if it is later than `now`: its time
/// parses, is after `now` (predictions at or before `now` are ignored), and its
/// height is a number (see `parse_reading`: every text `f64::from_str` reads).
pub open spec fn prediction_event(row: PredictionRow, now: i64) -> Option<TideView> {
    match naive_utc_seconds(row.t@, prediction_time_format()) {
        None => None,
        Some(t) => if t <= now {
            None
        } else {
            match parse_reading(row.v@) {
                None => None,
                Some(h) => Some((t, h)),
            }
        },
    }
}

/// The row is an upcoming event of type `kind`.
pub open spec fn is_upcoming(row: PredictionRow, kind: char, now: i64) -> bool {
    row.kind@ == seq![kind] && prediction_event(row, now) is Some
}

/// The earliest upcoming event of type `kind` among the first `n` rows; on a
/// tie in time the first such row is kept.
pub open spec fn earliest_event(rows: Seq<PredictionRow>, kind: char, now: i64, n: int) -> Option<
    TideView,
>
    decreases n,
{
    if n <= 0 {
        None
    } else {
        let prev = earliest_event(rows, kind, now, n - 1);
        let row = rows[n - 1];
        if is_upcoming(row, kind, now) {
            let ev = prediction_event(row, now)->0;
            match prev {
                None => Some(ev),
                Some(p) => if ev.0 < p.0 {
                    Some(ev)
                } else {
                    prev
                },
            }
        } else {
            prev
        }
    }
}

/// The next high and low tides of a `predictions` response, both absent for an
/// error body or a body that does not decode.
pub open spec fn next_tides(reply: &CoOpsReply<PredictionsResponse>, now: i64) -> (
    Option<TideView>,
    Option<TideView>,
) {
    if reply.is_error {
        (None, None)
    } else {
        match &reply.parsed {
            None => (None, None),
            Some(resp) => {
                let rows = resp.predictions@;
                (
                    earliest_event(rows, 'H', now, rows.len() as int),
                    earliest_event(rows, 'L', now, rows.len() as int),
                )
            },
        }
    }
}

/// The text is exactly the one character `c`.
fn is_single(s: &String, c: char) -> (r: bool)
    ensures
        r == (s@ == seq![c]),
{
    let v = chars_of(s.as_str());
    let r = v.len() == 1 && v[0] == c;
    proof {
        if s@ == seq![c] {
            assert(v@[0] == c);
        }
        if r {
            assert(v@ =~= seq![c]);
        }
    }
    r
}

/// Parse a CO-OPS `predictions` (`interval=hilo`) response into the next
/// upcoming high and low tide, relative to `now` (unix seconds).  Predictions at
/// or before `now` are ignored; among the remaining rows of each type, the
/// earliest is kept.
pub fn parse_predictions(reply: &CoOpsReply<PredictionsResponse>, now: i64) -> (r: (
    Option<TidePrediction>,
    Option<TidePrediction>,
))
    ensures
        (tide_of(r.0), tide_of(r.1)) == next_tides(reply, now),
{
    if reply.is_error {
        return (None, None);
    }
    let resp = match &reply.parsed {
        None => {
            return (None, None);
        },
        Some(resp) => resp,
    };
    let rows = &resp.predictions;
    let mut next_high: Option<TidePrediction> = None;
    let mut next_low: Option<TidePrediction> = None;
    let mut i: usize = 0;
    while i < rows.len()
        invariant
            i <= rows.len(),
            tide_of(next_high) == earliest_event(rows@, 'H', now, i as int),
            tide_of(next_low) == earliest_event(rows@, 'L', now, i as int),
        decreases rows.len() - i,
    {
        let row = &rows[i];
        let t = parse_utc_seconds(row.t.as_str(), "%Y-%m-%d %H:%M");
        i = i + 1;
        match t {
            None => {},
            Some(unix) => {
                if unix > now {
                    match Reading::parse(row.v.as_str()) {
                        None => {},
                        Some(height) => {
                            let ev: TidePrediction = (unix, height);
                            if is_single(&row.kind, 'H') {
                                assert(row.kind@ != seq!['L']) by {
                                    assert(seq!['H'][0] != seq!['L'][0]);
                                }
                                let replace = match &next_high {
                                    None => true,
                                    Some(p) => unix < p.0,
                                };
                                if replace {
                                    next_high = Some(ev);
                                }
                            } else if is_single(&row.kind, 'L') {
                                let replace = match &next_low {
                                    None => true,
                                    Some(p) => unix < p.0,
                                };
                                if replace {
                                    next_low = Some(ev);
                                }
                            }
                        },
                    }
                }
            },
        }
    }
    (next_high, next_low)
}

/// A prediction row is an upcoming event exactly when its time parses (as
/// `%Y-%m-%d %H:%M`, UTC) to a time after `now` and its height is a number,
/// whatever the sign or size of the height; the event is that time and height.
pub proof fn lemma_prediction_event(row: PredictionRow, now: i64)
    ensures
        prediction_event(row, now) is Some <==> (naive_utc_seconds(row.t@, "%Y-%m-%d %H:%M"@) matches Some(
            t,
        ) && t > now && parse_reading(row.v@) is Some),
        prediction_event(row, now) matches Some(ev) ==> Some(ev.0) == naive_utc_seconds(
            row.t@,
            "%Y-%m-%d %H:%M"@,
        ) && Some(ev.1) == parse_reading(row.v@),
{
}

/// The time of a row's event (0 when it is not an upcoming event).
pub open spec fn upcoming_time(row: PredictionRow, now: i64) -> int {
    match prediction_event(row, now) {
        Some(e) => e.0 as int,
        None => 0,
    }
}

/// The earliest upcoming event of a type, when one exists, is no later than
/// every upcoming event of that type and comes from the first row with that
/// time; when none exists there is no event.
pub proof fn lemma_earliest_event(rows: Seq<PredictionRow>, kind: char, now: i64, n: int)
    requires
        0 <= n <= rows.len(),
    ensures
        match earliest_event(rows, kind, now, n) {
            None => forall|j: int| 0 <= j < n ==> !is_upcoming(#[trigger] rows[j], kind, now),
            Some(ev) => exists|j: int|
                {
                    &&& 0 <= j < n
                    &&& #[trigger] is_upcoming(rows[j], kind, now)
                    &&& prediction_event(rows[j], now) == Some(ev)
                    &&& forall|i: int|
                        0 <= i < j && is_upcoming(#[trigger] rows[i], kind, now)
                            ==> upcoming_time(rows[i], now) > ev.0
                    &&& forall|i: int|
                        j < i < n && is_upcoming(#[trigger] rows[i], kind, now)
                            ==> upcoming_time(rows[i], now) >= ev.0
                },
        },
    decreases n,
{
    if n > 0 {
        lemma_earliest_event(rows, kind, now, n - 1);
    }
}

// ---------------------------------------------------------------------------
// Observation
// ---------------------------------------------------------------------------

/// A CO-OPS observation: current readings (where the station has the relevant
/// sensor) plus the next upcoming high and low tide predictions.
#[derive(Debug, Clone, PartialEq)]
pub struct CoOpsObservation {
    pub station_id: String,
    pub tide_feet: Option<Reading>,
    pub wind_direction_degrees: Option<Reading>,
    pub wind_speed_mps: Option<Reading>,
    pub wind_gust_mps: Option<Reading>,
    pub pressure_hpa: Option<Reading>,
    pub air_temp_celsius: Option<Reading>,
    pub water_temp_celsius: Option<Reading>,
    pub next_high_tide_unix: Option<i64>,
    pub next_high_tide_feet: Option<Reading>,
    pub next_low_tide_unix: Option<i64>,
    pub next_low_tide_feet: Option<Reading>,
}

impl Default for CoOpsObservation {
    /// An observation of no station, with no readings.
    fn default() -> (r: CoOpsObservation)
        ensures
            r.station_id@ == Seq::<char>::empty(),
            r.tide_feet is None,
            r.wind_direction_degrees is None,
            r.wind_speed_mps is None,
            r.wind_gust_mps is None,
            r.pressure_hpa is None,
            r.air_temp_celsius is None,
            r.water_temp_celsius is None,
            r.next_high_tide_unix is None,
            r.next_high_tide_feet is None,
            r.next_low_tide_unix is None,
            r.next_low_tide_feet is None,
    {
        CoOpsObservation {
            station_id: String::new(),
            tide_feet: None,
            wind_direction_degrees: None,
            wind_speed_mps: None,
            wind_gust_mps: None,
            pressure_hpa: None,
            air_temp_celsius: None,
            water_temp_celsius: None,
            next_high_tide_unix: None,
            next_high_tide_feet: None,
            next_low_tide_unix: None,
            next_low_tide_feet: None,
        }
    }
}

/// The decoded responses to the product requests for one station; `None` where
/// a request failed (transport error, or an HTTP status other than 200).
pub struct CoOpsReplies {
    pub water_level: Option<CoOpsReply<ValueResponse>>,
    pub predictions: Option<CoOpsReply<PredictionsResponse>>,
    pub wind: Option<CoOpsReply<WindResponse>>,
    pub air_temperature: Option<CoOpsReply<ValueResponse>>,
    pub water_temperature: Option<CoOpsReply<ValueResponse>>,
    pub air_pressure: Option<CoOpsReply<ValueResponse>>,
}

pub open spec fn opt_single_value(reply: &Option<CoOpsReply<ValueResponse>>) -> Option<ReadingView> {
    match reply {
        Some(r) => single_value(r),
        None => None,
    }
}

fn opt_parse_single_value(reply: &Option<CoOpsReply<ValueResponse>>) -> (r: Option<Reading>)
    ensures
        reading_of(r) == opt_single_value(reply),
{
    match reply {
        Some(r) => parse_single_value(r),
        None => None,
    }
}

/// The time of an event.
pub open spec fn event_time(e: Option<TideView>) -> Option<i64> {
    match e {
        Some(p) => Some(p.0),
        None => None,
    }
}

/// The height of an event.
pub open spec fn event_height(e: Option<TideView>) -> Option<ReadingView> {
    match e {
        Some(p) => Some(p.1),
        None => None,
    }
}

impl CoOpsObservation {
    /// Assemble the observation of `station_id` from the product responses:
    /// each reading comes from its own product alone, and the tide schedule is
    /// taken relative to `now` (unix seconds).
    pub fn from_replies(station_id: &str, replies: &CoOpsReplies, now: i64) -> (r: CoOpsObservation)
        ensures
            r.station_id@ == station_id@,
            reading_of(r.tide_feet) == opt_single_value(&replies.water_level),
            reading_of(r.pressure_hpa) == opt_single_value(&replies.air_pressure),
            reading_of(r.air_temp_celsius) == opt_single_value(&replies.air_temperature),
            reading_of(r.water_temp_celsius) == opt_single_value(&replies.water_temperature),
            (reading_of(r.wind_direction_degrees), reading_of(r.wind_speed_mps), reading_of(
                r.wind_gust_mps,
            )) == match &replies.wind {
                Some(w) => wind_values(w),
                None => (None, None, None),
            },
            ({
                let (high, low) = match &replies.predictions {
                    Some(p) => next_tides(p, now),
                    None => (None, None),
                };
                &&& r.next_high_tide_unix == event_time(high)
                &&& reading_of(r.next_high_tide_feet) == event_height(high)
                &&& r.next_low_tide_unix == event_time(low)
                &&& reading_of(r.next_low_tide_feet) == event_height(low)
            }),
    {
        let (wind_direction_degrees, wind_speed_mps, wind_gust_mps) = match &replies.wind {
            Some(w) => parse_wind(w),
            None => (None, None, None),
        };
        let (next_high, next_low) = match &replies.predictions {
            Some(p) => parse_predictions(p, now),
            None => (None, None),
        };
        let next_high_tide_unix = match &next_high {
            Some(p) => Some(p.0),
            None => None,
        };
        let next_low_tide_unix = match &next_low {
            Some(p) => Some(p.0),
            None => None,
        };
        CoOpsObservation {
            station_id: station_id.to_owned(),
            tide_feet: opt_parse_single_value(&replies.water_level),
            wind_direction_degrees,
            wind_speed_mps,
            wind_gust_mps,
            pressure_hpa: opt_parse_single_value(&replies.air_pressure),
            air_temp_celsius: opt_parse_single_value(&replies.air_temperature),
            water_temp_celsius: opt_parse_single_value(&replies.water_temperature),
            next_high_tide_unix,
            next_high_tide_feet: match next_high {
                Some(p) => Some(p.1),
                None => None,
            },
            next_low_tide_unix,
            next_low_tide_feet: match next_low {
                Some(p) => Some(p.1),
                None => None,
            },
        }
    }
}

// ---------------------------------------------------------------------------
// Nearest station
// ---------------------------------------------------------------------------

/// `keys[i]` is the smallest of the present keys and no earlier key is as small.
pub open spec fn is_first_minimum(keys: Seq<Option<u64>>, i: int) -> bool {
    &&& 0 <= i < keys.len()
    &&& keys[i] is Some
    &&& forall|j: int| 0 <= j < keys.len() && keys[j] is Some ==> keys[i]->0 <= #[trigger] keys[j]->0
    &&& forall|j: int| 0 <= j < i && keys[j] is Some ==> keys[i]->0 < #[trigger] keys[j]->0
}

/// The index of the station to pick among candidates whose distances are given
/// as order-preserving keys (`None` for a station out of range): the first one
/// with the smallest key, or `None` when no candidate is in range.
pub fn nearest_candidate(keys: &Vec<Option<u64>>) -> (r: Option<usize>)
    ensures
        match r {
            Some(i) => is_first_minimum(keys@, i as int),
            None => forall|j: int| 0 <= j < keys.len() ==> #[trigger] keys@[j] is None,
        },
{
    let mut best: Option<usize> = None;
    let mut i: usize = 0;
    while i < keys.len()
        invariant
            i <= keys.len(),
            match best {
                Some(b) => {
                    &&& b < i
                    &&& keys@[b as int] is Some
                    &&& forall|j: int|
                        0 <= j < i && keys@[j] is Some ==> keys@[b as int]->0 <= #[trigger] keys@[j]->0
                    &&& forall|j: int|
                        0 <= j < b && keys@[j] is Some ==> keys@[b as int]->0 < #[trigger] keys@[j]->0
                },
                None => forall|j: int| 0 <= j < i ==> #[trigger] keys@[j] is None,
            },
        decreases keys.len() - i,
    {
        match keys[i] {
            None => {},
            Some(k) => {
                match best {
                    None => {
                        best = Some(i);
                    },
                    Some(b) => {
                        let kb = keys[b].unwrap();
                        if k < kb {
                            best = Some(i);
                        }
                    },
                }
            },
        }
        i = i + 1;
    }
    best
}

} // verus!
