//! NOAA NDBC buoy and coastal station observations.
//!
//! Observations come from the NDBC "realtime2" plain text feed of a station (e.g.
//! `https://www.ndbc.noaa.gov/data/realtime2/45186.txt`): two header lines that
//! start with `#` (column names and units), then one line per observation, most
//! recent first.

use crate::decimal::{parse_reading, reading_of, Reading, ReadingView};
use crate::text::{
    chars_of, decimal_text, opt_text, find_first_data_line, first_data_line, push_char, push_chars,
    push_decimal, push_str, split_words, string_of, to_uppercase, uppercase, views_of, words,
};
use crate::web::{error_text, join_url, joined_url, parse_url, parsed_url, status_line, status_text};
use vstd::prelude::*;

verus! {

/// Error resulting from setup of or calls to a `BuoyClient` instance.
#[derive(Debug)]
pub enum BuoyClientError {
    /// A transport error from the HTTP client.
    Internal(reqwest::Error),
    /// A URL given at construction did not parse.
    Initialization(String),
    /// The feed does not know the station (HTTP 404).
    InvalidStation(String),
    /// Any other HTTP status than 200 or 404, with the URL requested.
    Unexpected(u16, String),
    /// The feed text could not be read as an observation.
    Parse(String),
}

/// The text of an HTTP status as `reqwest::StatusCode` displays it, or the
/// bare number for a code it refuses.
pub open spec fn status_display(code: u16) -> Seq<char> {
    match status_line(code) {
        Some(t) => t,
        None => decimal_text(code as nat),
    }
}

pub(crate) fn status_display_text(code: u16) -> (r: String)
    ensures
        r@ == status_display(code),
{
    match status_text(code) {
        Some(t) => t,
        None => {
            let mut s = String::new();
            push_decimal(&mut s, code as u64);
            s
        },
    }
}

impl BuoyClientError {
    /// The message of this error (what its `Display` shows).
    pub fn message(&self) -> (r: String)
        ensures
            match self {
                BuoyClientError::Internal(_) => true,
                BuoyClientError::Initialization(msg) => r@ == "initialization error: "@ + msg@,
                BuoyClientError::InvalidStation(s) => r@ == "invalid station "@ + s@,
                BuoyClientError::Unexpected(status, url) => r@ == "unexpected status "@
                    + status_display(*status) + " for "@ + url@,
                BuoyClientError::Parse(msg) => r@ == "unable to parse observation: "@ + msg@,
            },
    {
        match self {
            BuoyClientError::Internal(e) => error_text(e),
            BuoyClientError::Initialization(msg) => {
                let mut s = String::new();
                push_str(&mut s, "initialization error: ");
                push_str(&mut s, msg.as_str());
                s
            },
            BuoyClientError::InvalidStation(station) => {
                let mut s = String::new();
                push_str(&mut s, "invalid station ");
                push_str(&mut s, station.as_str());
                s
            },
            BuoyClientError::Unexpected(status, url) => {
                let mut s = String::new();
                push_str(&mut s, "unexpected status ");
                let st = status_display_text(*status);
                push_str(&mut s, st.as_str());
                push_str(&mut s, " for ");
                push_str(&mut s, url.as_str());
                s
            },
            BuoyClientError::Parse(msg) => {
                let mut s = String::new();
                push_str(&mut s, "unable to parse observation: ");
                push_str(&mut s, msg.as_str());
                s
            },
        }
    }
}

/// The message of an `Initialization` error for a URL that did not parse.
pub open spec fn cannot_parse_message(url: Seq<char>, reason: Seq<char>) -> Seq<char> {
    "cannot parse "@ + url + ": "@ + reason
}

pub(crate) fn cannot_parse(url: &str, reason: &str) -> (r: String)
    ensures
        r@ == cannot_parse_message(url@, reason@),
{
    let mut s = String::new();
    push_str(&mut s, "cannot parse ");
    push_str(&mut s, url);
    push_str(&mut s, ": ");
    push_str(&mut s, reason);
    s
}

/// Client for fetching NOAA NDBC buoy and coastal station observations.
#[derive(Debug)]
pub struct BuoyClient {
    client: reqwest::Client,
    base_url: String,
}

/// The NDBC text for a missing measurement.
pub open spec fn ndbc_missing() -> Seq<char> {
    seq!['M', 'M']
}

/// The value of one NDBC column: none for the missing-measurement marker `MM`,
/// otherwise the number the column writes, read as `f64::from_str` reads it
/// (see `parse_reading`): none only for text that is not a number.
pub open spec fn ndbc_value(raw: Seq<char>) -> Option<ReadingView> {
    if raw == ndbc_missing() {
        None
    } else {
        parse_reading(raw)
    }
}

/// The path (relative to the feed's base URL) of a station's observation file.
pub open spec fn observation_path(station_id: Seq<char>) -> Seq<char> {
    uppercase(station_id) + seq!['.', 't', 'x', 't']
}

/// The UTC timestamp of an observation line, `YYYY-MM-DDThh:mm:00Z`, from its
/// first five columns.
pub open spec fn observation_timestamp(f: Seq<Seq<char>>) -> Seq<char> {
    f[0] + seq!['-'] + f[1] + seq!['-'] + f[2] + seq!['T'] + f[3] + seq![':'] + f[4] + seq![
        ':',
        '0',
        '0',
        'Z',
    ]
}

/// The value of an optional trailing column.
pub open spec fn optional_column(f: Seq<Seq<char>>, i: int) -> Option<ReadingView> {
    if i < f.len() {
        ndbc_value(f[i])
    } else {
        None
    }
}

/// `obs` holds the observation written by the columns `f` of a data line, for
/// the station `station_id`.
pub open spec fn is_observation_of(obs: BuoyObservation, station_id: Seq<char>, f: Seq<Seq<char>>) -> bool {
    &&& obs.station_id@ == uppercase(station_id)
    &&& obs.timestamp@ == observation_timestamp(f)
    &&& reading_of(obs.wind_direction_degrees) == ndbc_value(f[5])
    &&& reading_of(obs.wind_speed_mps) == ndbc_value(f[6])
    &&& reading_of(obs.wind_gust_mps) == ndbc_value(f[7])
    &&& reading_of(obs.wave_height_meters) == ndbc_value(f[8])
    &&& reading_of(obs.dominant_wave_period_secs) == ndbc_value(f[9])
    &&& reading_of(obs.average_wave_period_secs) == ndbc_value(f[10])
    &&& reading_of(obs.wave_direction_degrees) == ndbc_value(f[11])
    &&& reading_of(obs.pressure_hpa) == ndbc_value(f[12])
    &&& reading_of(obs.air_temp_celsius) == ndbc_value(f[13])
    &&& reading_of(obs.water_temp_celsius) == ndbc_value(f[14])
    &&& reading_of(obs.dewpoint_celsius) == ndbc_value(f[15])
    &&& reading_of(obs.visibility_nmi) == ndbc_value(f[16])
    &&& reading_of(obs.pressure_tendency_hpa) == optional_column(f, 17)
    &&& reading_of(obs.tide_feet) == optional_column(f, 18)
}

/// The message of a `Parse` error for a feed with no observation line.
pub open spec fn no_observations_message(station_id: Seq<char>) -> Seq<char> {
    "no observations found for station "@ + station_id
}

/// The message of a `Parse` error for an observation line with too few columns.
pub open spec fn too_few_columns_message(found: nat) -> Seq<char> {
    "expected at least 17 columns, found "@ + decimal_text(found)
}

impl BuoyClient {
    /// Create a new `BuoyClient` from the provided reqwest client and base URL for
    /// the NDBC realtime2 data feed (typically `https://www.ndbc.noaa.gov/data/realtime2/`).
    pub fn new(client: reqwest::Client, base_url: &str) -> (r: Result<Self, BuoyClientError>)
        ensures
            match parsed_url(base_url@) {
                Ok(u) => r matches Ok(c) && c.base_url_view() == u && c.http_client() == client,
                Err(e) => r matches Err(BuoyClientError::Initialization(msg)) && msg@
                    == cannot_parse_message(base_url@, e),
            },
    {
        match parse_url(base_url) {
            Ok(u) => Ok(BuoyClient { client, base_url: u }),
            Err(e) => Err(BuoyClientError::Initialization(cannot_parse(base_url, e.as_str()))),
        }
    }

    /// The serialization of the feed's base URL.
    pub closed spec fn base_url_view(&self) -> Seq<char> {
        self.base_url@
    }

    /// The feed's base URL.
    pub fn base_url(&self) -> (r: &String)
        ensures
            r@ == self.base_url_view(),
    {
        &self.base_url
    }

    /// The HTTP client given at construction.
    pub closed spec fn http_client(&self) -> reqwest::Client {
        self.client
    }

    /// The HTTP client requests go through.
    pub fn http(&self) -> (r: &reqwest::Client)
        ensures
            *r == self.http_client(),
    {
        &self.client
    }

    /// The URL of a station's observation file: the station ID in upper case with
    /// `.txt` appended, joined onto the base URL.
    pub fn observation_url(&self, station_id: &str) -> (r: String)
        requires
            joined_url(self.base_url_view(), observation_path(station_id@)) is Some,
        ensures
            Some(r@) == joined_url(self.base_url_view(), observation_path(station_id@)),
    {
        let path = observation_path_text(station_id);
        match join_url(self.base_url.as_str(), path.as_str()) {
            Some(u) => u,
            None => String::new(),
        }
    }

    /// `observation_url`, or `None` where joining the path onto the base URL fails.
    pub fn checked_observation_url(&self, station_id: &str) -> (r: Option<String>)
        ensures
            opt_text(r) == joined_url(self.base_url_view(), observation_path(station_id@)),
    {
        let path = observation_path_text(station_id);
        match join_url(self.base_url.as_str(), path.as_str()) {
            Some(_) => Some(self.observation_url(station_id)),
            None => None,
        }
    }

    /// What a response with HTTP status `status` to a request for `url` means:
    /// 200 is success, 404 an unknown station, anything else unexpected.
    pub fn check_status(status: u16, station_id: &str, url: &str) -> (r: Result<(), BuoyClientError>)
        ensures
            status == 200 ==> r is Ok,
            status == 404 ==> (r matches Err(BuoyClientError::InvalidStation(s)) && s@
                == station_id@),
            status != 200 && status != 404 ==> (r matches Err(BuoyClientError::Unexpected(c, u))
                && c == status && u@ == url@),
    {
        if status == 200 {
            Ok(())
        } else if status == 404 {
            Err(BuoyClientError::InvalidStation(station_id.to_owned()))
        } else {
            Err(BuoyClientError::Unexpected(status, url.to_owned()))
        }
    }
}

/// The path of a station's observation file, relative to the feed's base URL.
fn observation_path_text(station_id: &str) -> (r: String)
    ensures
        r@ == observation_path(station_id@),
{
    let mut path = to_uppercase(station_id);
    push_str(&mut path, ".txt");
    proof {
        reveal_strlit(".txt");
        assert(path@ =~= observation_path(station_id@));
    }
    path
}

/// The value of one NDBC column (see `ndbc_value`).
pub fn ndbc_field(raw: &str) -> (r: Option<Reading>)
    ensures
        reading_of(r) == ndbc_value(raw@),
{
    let chars = chars_of(raw);
    ndbc_field_chars(&chars)
}

fn ndbc_field_chars(raw: &Vec<char>) -> (r: Option<Reading>)
    ensures
        reading_of(r) == ndbc_value(raw@),
{
    if raw.len() == 2 && raw[0] == 'M' && raw[1] == 'M' {
        assert(raw@ =~= ndbc_missing());
        None
    } else {
        assert(raw@ != ndbc_missing()) by {
            if raw@ == ndbc_missing() {
                assert(raw@[0] == 'M' && raw@[1] == 'M');
            }
        }
        Reading::parse_chars(raw)
    }
}

fn column(f: &Vec<Vec<char>>, i: usize) -> (r: Option<Reading>)
    requires
        i < f.len(),
    ensures
        reading_of(r) == ndbc_value(f@[i as int]@),
{
    ndbc_field_chars(&f[i])
}

fn optional_col(f: &Vec<Vec<char>>, i: usize) -> (r: Option<Reading>)
    ensures
        reading_of(r) == optional_column(views_of(f@), i as int),
{
    if i < f.len() {
        ndbc_field_chars(&f[i])
    } else {
        None
    }
}

/// Parse the most recent observation out of the body of an NDBC realtime2 text
/// response: the first line with content that is not a `#` header.  Its
/// whitespace-separated columns are year, month, day, hour, minute, then the
/// readings; at least 17 columns are required, and the 18th and 19th (pressure
/// tendency and tide) are read when present.
pub fn parse_latest_observation(station_id: &str, body: &str) -> (r: Result<BuoyObservation, BuoyClientError>)
    ensures
        match first_data_line(body@) {
            None => r matches Err(BuoyClientError::Parse(msg)) && msg@ == no_observations_message(
                station_id@,
            ),
            Some(line) => {
                let f = words(line);
                if f.len() < 17 {
                    r matches Err(BuoyClientError::Parse(msg)) && msg@ == too_few_columns_message(
                        f.len(),
                    )
                } else {
                    r matches Ok(obs) && is_observation_of(obs, station_id@, f)
                }
            },
        },
{
    let chars = chars_of(body);
    let found = find_first_data_line(&chars);
    match found {
        None => {
            let mut msg = String::new();
            push_str(&mut msg, "no observations found for station ");
            push_str(&mut msg, station_id);
            Err(BuoyClientError::Parse(msg))
        },
        Some((a, b)) => {
            let f = split_words(&chars, a, b);
            let ghost fv = views_of(f@);
            if f.len() < 17 {
                let mut msg = String::new();
                push_str(&mut msg, "expected at least 17 columns, found ");
                push_decimal(&mut msg, f.len() as u64);
                return Err(BuoyClientError::Parse(msg));
            }
            let mut timestamp = string_of(&f[0]);
            push_char(&mut timestamp, '-');
            push_chars(&mut timestamp, &f[1]);
            push_char(&mut timestamp, '-');
            push_chars(&mut timestamp, &f[2]);
            push_char(&mut timestamp, 'T');
            push_chars(&mut timestamp, &f[3]);
            push_char(&mut timestamp, ':');
            push_chars(&mut timestamp, &f[4]);
            push_char(&mut timestamp, ':');
            push_char(&mut timestamp, '0');
            push_char(&mut timestamp, '0');
            push_char(&mut timestamp, 'Z');
            proof {
                assert(timestamp@ =~= observation_timestamp(fv));
            }
            let obs = BuoyObservation {
                station_id: to_uppercase(station_id),
                timestamp,
                wind_direction_degrees: column(&f, 5),
                wind_speed_mps: column(&f, 6),
                wind_gust_mps: column(&f, 7),
                wave_height_meters: column(&f, 8),
                dominant_wave_period_secs: column(&f, 9),
                average_wave_period_secs: column(&f, 10),
                wave_direction_degrees: column(&f, 11),
                pressure_hpa: column(&f, 12),
                air_temp_celsius: column(&f, 13),
                water_temp_celsius: column(&f, 14),
                dewpoint_celsius: column(&f, 15),
                visibility_nmi: column(&f, 16),
                pressure_tendency_hpa: optional_col(&f, 17),
                tide_feet: optional_col(&f, 18),
            };
            Ok(obs)
        },
    }
}

/// An observation holds each reading from the column the NDBC header names
/// for it (`#YY MM DD hh mm WDIR WSPD GST WVHT DPD APD MWD PRES ATMP WTMP DEWP
/// VIS PTDY TIDE`): the timestamp from the first five columns, wind direction,
/// speed and gust from columns 6 to 8, wave height, dominant and average
/// period and direction from 9 to 12, pressure, air and water temperature,
/// dewpoint and visibility from 13 to 17, and pressure tendency and tide from
/// columns 18 and 19 when the line has them.
pub proof fn lemma_observation_columns(obs: BuoyObservation, station_id: Seq<char>, f: Seq<Seq<char>>)
    requires
        f.len() >= 17,
        is_observation_of(obs, station_id, f),
    ensures
        obs.station_id@ == uppercase(station_id),
        obs.timestamp@ == f[0] + seq!['-'] + f[1] + seq!['-'] + f[2] + seq!['T'] + f[3] + seq![':']
            + f[4] + seq![':', '0', '0', 'Z'],
        reading_of(obs.wind_direction_degrees) == ndbc_value(f[5]),
        reading_of(obs.wind_speed_mps) == ndbc_value(f[6]),
        reading_of(obs.wind_gust_mps) == ndbc_value(f[7]),
        reading_of(obs.wave_height_meters) == ndbc_value(f[8]),
        reading_of(obs.dominant_wave_period_secs) == ndbc_value(f[9]),
        reading_of(obs.average_wave_period_secs) == ndbc_value(f[10]),
        reading_of(obs.wave_direction_degrees) == ndbc_value(f[11]),
        reading_of(obs.pressure_hpa) == ndbc_value(f[12]),
        reading_of(obs.air_temp_celsius) == ndbc_value(f[13]),
        reading_of(obs.water_temp_celsius) == ndbc_value(f[14]),
        reading_of(obs.dewpoint_celsius) == ndbc_value(f[15]),
        reading_of(obs.visibility_nmi) == ndbc_value(f[16]),
        reading_of(obs.pressure_tendency_hpa) == (if f.len() > 17 {
            ndbc_value(f[17])
        } else {
            None
        }),
        reading_of(obs.tide_feet) == (if f.len() > 18 {
            ndbc_value(f[18])
        } else {
            None
        }),
{
}

/// A column has no value exactly when it is the missing marker `MM` or is not
/// a number; otherwise its value is the reading of its text.
pub proof fn lemma_ndbc_value(raw: Seq<char>)
    ensures
        ndbc_value(raw) is None <==> (raw == seq!['M', 'M'] || parse_reading(raw) is None),
        raw != seq!['M', 'M'] ==> ndbc_value(raw) == parse_reading(raw),
{
}

/// A single observation from a NOAA NDBC buoy or coastal weather station.
#[derive(Debug, Clone, PartialEq)]
pub struct BuoyObservation {
    /// Buoy or station ID (e.g. "45186")
    pub station_id: String,
    /// UTC timestamp of the observation, formatted as an RFC 3339 string
    pub timestamp: String,
    pub wind_direction_degrees: Option<Reading>,
    pub wind_speed_mps: Option<Reading>,
    pub wind_gust_mps: Option<Reading>,
    pub wave_height_meters: Option<Reading>,
    pub dominant_wave_period_secs: Option<Reading>,
    pub average_wave_period_secs: Option<Reading>,
    pub wave_direction_degrees: Option<Reading>,
    pub pressure_hpa: Option<Reading>,
    pub air_temp_celsius: Option<Reading>,
    pub water_temp_celsius: Option<Reading>,
    pub dewpoint_celsius: Option<Reading>,
    pub visibility_nmi: Option<Reading>,
    pub pressure_tendency_hpa: Option<Reading>,
    pub tide_feet: Option<Reading>,
}

} // verus!
