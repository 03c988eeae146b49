//! NOAA water gauge data from the National Water Prediction Service API
//! (`https://api.water.noaa.gov/nwps/v1/`).

use crate::buoy_client::{cannot_parse, cannot_parse_message, status_display, status_display_text};
use crate::decimal::Reading;
use crate::text::{opt_text, push_str};
use crate::web::{error_text, extend_path, parse_url, parsed_url, url_with_segments};
use vstd::prelude::*;

verus! {

/// Error resulting from setup of or calls to a `WaterGaugeClient` instance.
#[derive(Debug)]
pub enum WaterClientError {
    /// A transport or decoding error from the HTTP client.
    Internal(reqwest::Error),
    /// The base URL given at construction did not parse.
    Initialization(String),
    /// The API does not know the gauge (HTTP 404).
    InvalidGauge(String),
    /// Any other HTTP status than 200 or 404, with the URL requested.
    Unexpected(u16, String),
}

impl WaterClientError {
    /// The message of this error (what its `Display` shows).
    pub fn message(&self) -> (r: String)
        ensures
            match self {
                WaterClientError::Internal(_) => true,
                WaterClientError::Initialization(msg) => r@ == "initialization error: "@ + msg@,
                WaterClientError::InvalidGauge(g) => r@ == "invalid gauge "@ + g@,
                WaterClientError::Unexpected(status, url) => r@ == "unexpected status "@
                    + status_display(*status) + " for "@ + url@,
            },
    {
        match self {
            WaterClientError::Internal(e) => error_text(e),
            WaterClientError::Initialization(msg) => {
                let mut s = String::new();
                push_str(&mut s, "initialization error: ");
                push_str(&mut s, msg.as_str());
                s
            },
            WaterClientError::InvalidGauge(g) => {
                let mut s = String::new();
                push_str(&mut s, "invalid gauge ");
                push_str(&mut s, g.as_str());
                s
            },
            WaterClientError::Unexpected(status, url) => {
                let mut s = String::new();
                push_str(&mut s, "unexpected status ");
                let st = status_display_text(*status);
                push_str(&mut s, st.as_str());
                push_str(&mut s, " for ");
                push_str(&mut s, url.as_str());
                s
            },
        }
    }
}

/// Client for fetching NOAA water gauge data.
#[derive(Debug)]
pub struct WaterGaugeClient {
    client: reqwest::Client,
    base_url: String,
}

/// The path segments appended to the base URL for a gauge.
pub open spec fn gauge_segments(gauge_id: Seq<char>) -> Seq<Seq<char>> {
    seq!["gauges"@, gauge_id]
}

fn gauge_segment_list(gauge_id: &str) -> (r: Vec<String>)
    ensures
        r.deep_view() == gauge_segments(gauge_id@),
{
    let segments = vec!["gauges".to_owned(), gauge_id.to_owned()];
    assert(segments.deep_view() =~= gauge_segments(gauge_id@));
    segments
}

impl WaterGaugeClient {
    /// Create a new `WaterGaugeClient` from the provided reqwest client and base URL
    /// for the NOAA NWPS API (typically `https://api.water.noaa.gov/nwps/v1/`).
    pub fn new(client: reqwest::Client, base_url: &str) -> (r: Result<Self, WaterClientError>)
        ensures
            match parsed_url(base_url@) {
                Ok(u) => r matches Ok(c) && c.base_url_view() == u && c.http_client() == client,
                Err(e) => r matches Err(WaterClientError::Initialization(msg)) && msg@
                    == cannot_parse_message(base_url@, e),
            },
    {
        match parse_url(base_url) {
            Ok(u) => Ok(WaterGaugeClient { client, base_url: u }),
            Err(e) => Err(WaterClientError::Initialization(cannot_parse(base_url, e.as_str()))),
        }
    }

    /// The serialization of the API's base URL.
    pub closed spec fn base_url_view(&self) -> Seq<char> {
        self.base_url@
    }

    /// The HTTP client given at construction.
    pub closed spec fn http_client(&self) -> reqwest::Client {
        self.client
    }

    /// The HTTP client requests go through.
    pub fn http(&self) -> (r: &reqwest::Client)
        ensures
            *r == self.http_client(),
    {
        &self.client
    }

    /// The URL of a gauge: the path segments `gauges` and the gauge ID appended
    /// to the base URL.
    pub fn gauge_url(&self, gauge_id: &str) -> (r: String)
        requires
            url_with_segments(self.base_url_view(), gauge_segments(gauge_id@)) is Some,
        ensures
            Some(r@) == url_with_segments(self.base_url_view(), gauge_segments(gauge_id@)),
    {
        let segments = gauge_segment_list(gauge_id);
        match extend_path(self.base_url.as_str(), &segments) {
            Some(u) => u,
            None => String::new(),
        }
    }

    /// `gauge_url`, or `None` where the base URL cannot take path segments.
    pub fn checked_gauge_url(&self, gauge_id: &str) -> (r: Option<String>)
        ensures
            opt_text(r) == url_with_segments(self.base_url_view(), gauge_segments(gauge_id@)),
    {
        let segments = gauge_segment_list(gauge_id);
        match extend_path(self.base_url.as_str(), &segments) {
            Some(_) => Some(self.gauge_url(gauge_id)),
            None => None,
        }
    }

    /// What a response with HTTP status `status` to a request for `url` means:
    /// 200 is success, 404 an unknown gauge, anything else unexpected.
    pub fn check_status(status: u16, gauge_id: &str, url: &str) -> (r: Result<(), WaterClientError>)
        ensures
            status == 200 ==> r is Ok,
            status == 404 ==> (r matches Err(WaterClientError::InvalidGauge(g)) && g@
                == gauge_id@),
            status != 200 && status != 404 ==> (r matches Err(WaterClientError::Unexpected(c, u))
                && c == status && u@ == url@),
    {
        if status == 200 {
            Ok(())
        } else if status == 404 {
            Err(WaterClientError::InvalidGauge(gauge_id.to_owned()))
        } else {
            Err(WaterClientError::Unexpected(status, url.to_owned()))
        }
    }
}

/// Full gauge response from the NOAA NWPS API, including current status and
/// flood thresholds.
pub struct WaterGauge {
    /// Gauge location ID (e.g. "DSPI2")
    pub lid: String,
    pub name: String,
    pub state: Option<GeoRef>,
    pub county: Option<String>,
    pub latitude: Option<Reading>,
    pub longitude: Option<Reading>,
    pub status: Option<GaugeStatus>,
    pub flood: Option<FloodInfo>,
}

/// An abbreviated reference to a geographic entity (state, RFC, WFO) with a short code.
pub struct GeoRef {
    pub abbreviation: String,
    pub name: Option<String>,
}

/// Current observed and forecast status for a gauge.
pub struct GaugeStatus {
    pub observed: Option<StatusReading>,
}

/// A single observed or forecast reading with stage (primary) and flow (secondary).
pub struct StatusReading {
    /// Stage in feet (use `primary_unit` to confirm units)
    pub primary: Option<Reading>,
    pub primary_unit: Option<String>,
    /// Flow (use `secondary_unit` to confirm units; often kcfs)
    pub secondary: Option<Reading>,
    pub secondary_unit: Option<String>,
    pub flood_category: Option<String>,
    pub valid_time: Option<String>,
}

/// Flood stage and flow threshold information.
pub struct FloodInfo {
    pub stage_units: Option<String>,
    pub flow_units: Option<String>,
    pub categories: Option<FloodCategories>,
}

/// Flood stage/flow thresholds for each flood severity level.
pub struct FloodCategories {
    pub action: Option<FloodThreshold>,
    pub minor: Option<FloodThreshold>,
    pub moderate: Option<FloodThreshold>,
    pub major: Option<FloodThreshold>,
}

pub struct FloodThreshold {
    pub stage: Option<Reading>,
    pub flow: Option<Reading>,
}

} // verus!
