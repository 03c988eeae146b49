use nws_exporter::water_client::{WaterClientError, WaterGaugeClient};

#[test]
fn gauge_url_appends_segments() {
    let client = WaterGaugeClient::new(reqwest::Client::new(), "https://api.water.noaa.gov/nwps/v1").unwrap();
    assert_eq!(client.gauge_url("dspi2"), "https://api.water.noaa.gov/nwps/v1/gauges/dspi2");
    assert_eq!(client.checked_gauge_url("a/b").unwrap(), "https://api.water.noaa.gov/nwps/v1/gauges/a%2Fb");
}

#[test]
fn gauge_url_keeps_trailing_slash_segment() {
    // The path segment API appends after the empty segment a trailing slash leaves.
    let client = WaterGaugeClient::new(reqwest::Client::new(), "https://api.water.noaa.gov/nwps/v1/").unwrap();
    assert_eq!(client.gauge_url("dspi2"), "https://api.water.noaa.gov/nwps/v1//gauges/dspi2");
}

#[test]
fn cannot_be_a_base_url_has_no_gauge_url() {
    let client = WaterGaugeClient::new(reqwest::Client::new(), "mailto:someone@example.com").unwrap();
    assert_eq!(client.checked_gauge_url("dspi2"), None);
}

#[test]
fn water_status_and_messages() {
    assert!(WaterGaugeClient::check_status(200, "dspi2", "u").is_ok());
    let e = WaterGaugeClient::check_status(404, "dspi2", "u").unwrap_err();
    assert!(matches!(e, WaterClientError::InvalidGauge(ref g) if g == "dspi2"));
    assert_eq!(e.message(), "invalid gauge dspi2");
    let e = WaterGaugeClient::check_status(500, "dspi2", "https://x/gauges/dspi2").unwrap_err();
    assert_eq!(e.message(), "unexpected status 500 Internal Server Error for https://x/gauges/dspi2");
    let e = WaterGaugeClient::check_status(42, "dspi2", "u").unwrap_err();
    assert_eq!(e.message(), "unexpected status 42 for u");
}
