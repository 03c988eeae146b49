use chrono::{TimeZone, Utc};
use nws_exporter::coops_client::{
    nearest_candidate, parse_predictions, parse_single_value, parse_wind, CoOpsClient, CoOpsClientError,
    CoOpsObservation, CoOpsProduct, CoOpsReplies, CoOpsReply, PredictionRow, PredictionsResponse, ValueResponse,
    ValueRow, WindResponse, WindRow,
};
use nws_exporter::decimal::{Decimal, Reading};
use serde_json::Value;

// The JSON decoding of CO-OPS bodies, as the exporter performs it before handing
// the rows to the library.

fn is_error_body(v: &Value) -> bool {
    v.get("error").and_then(|e| e.get("message")).map(|m| m.is_string()).unwrap_or(false)
}

fn field(row: &Value, name: &str) -> Option<String> {
    row.get(name).and_then(|s| s.as_str()).map(|s| s.to_string())
}

fn rows<T>(v: &Value, key: &str, f: impl Fn(&Value) -> Option<T>) -> Option<Vec<T>> {
    v.get(key)?.as_array()?.iter().map(f).collect()
}

fn value_reply(body: &str) -> CoOpsReply<ValueResponse> {
    let v: Value = serde_json::from_str(body).unwrap();
    CoOpsReply {
        is_error: is_error_body(&v),
        parsed: rows(&v, "data", |r| Some(ValueRow { v: field(r, "v")? })).map(|data| ValueResponse { data }),
    }
}

fn wind_reply(body: &str) -> CoOpsReply<WindResponse> {
    let v: Value = serde_json::from_str(body).unwrap();
    CoOpsReply {
        is_error: is_error_body(&v),
        parsed: rows(&v, "data", |r| Some(WindRow { d: field(r, "d")?, s: field(r, "s")?, g: field(r, "g")? }))
            .map(|data| WindResponse { data }),
    }
}

fn predictions_reply(body: &str) -> CoOpsReply<PredictionsResponse> {
    let v: Value = serde_json::from_str(body).unwrap();
    CoOpsReply {
        is_error: is_error_body(&v),
        parsed: rows(&v, "predictions", |r| {
            Some(PredictionRow { t: field(r, "t")?, v: field(r, "v")?, kind: field(r, "type")? })
        })
        .map(|predictions| PredictionsResponse { predictions }),
    }
}

fn value(d: Option<Reading>) -> Option<f64> {
    d.map(|d| d.text().parse::<f64>().unwrap())
}

fn event(e: Option<(i64, Reading)>) -> Option<(i64, f64)> {
    e.map(|(t, d)| (t, d.text().parse::<f64>().unwrap()))
}

#[test]
fn test_parse_single_value() {
    let body = r#"{"metadata":{"id":"8454000"},"data":[{"t":"2026-06-23 04:06", "v":"2.351", "s":"0.033", "f":"0,0,0,0", "q":"p"}]}"#;
    assert_eq!(value(parse_single_value(&value_reply(body))), Some(2.351));
}

#[test]
fn test_parse_single_value_error_response() {
    let body = r#"{"error":{"message":"No data was found. Please make sure the Datum input is valid."}}"#;
    assert_eq!(value(parse_single_value(&value_reply(body))), None);
}

#[test]
fn test_parse_wind() {
    let body = r#"{"data":[{"t":"2026-06-23 04:06", "s":"11.86", "d":"155.0", "dr":"SSE", "g":"14.19", "f":"0,0"}]}"#;
    let (d, s, g) = parse_wind(&wind_reply(body));
    assert_eq!((value(d), value(s), value(g)), (Some(155.0), Some(11.86), Some(14.19)));
}

#[test]
fn test_parse_wind_error_response() {
    let body = r#"{"error":{"message":"No data was found."}}"#;
    let (d, s, g) = parse_wind(&wind_reply(body));
    assert_eq!((value(d), value(s), value(g)), (None, None, None));
}

#[test]
fn test_parse_predictions_picks_next_after_now() {
    let body = r#"{ "predictions" : [
        {"t":"2026-06-23 02:48", "v":"1.346", "type":"L"},
        {"t":"2026-06-23 07:24", "v":"3.974", "type":"H"},
        {"t":"2026-06-23 12:30", "v":"0.915", "type":"L"},
        {"t":"2026-06-23 20:00", "v":"4.686", "type":"H"}
    ]}"#;
    let now = Utc.with_ymd_and_hms(2026, 6, 23, 5, 0, 0).unwrap();

    let (next_high, next_low) = parse_predictions(&predictions_reply(body), now.timestamp());

    assert_eq!(
        event(next_high),
        Some((Utc.with_ymd_and_hms(2026, 6, 23, 7, 24, 0).unwrap().timestamp(), 3.974))
    );
    assert_eq!(
        event(next_low),
        Some((Utc.with_ymd_and_hms(2026, 6, 23, 12, 30, 0).unwrap().timestamp(), 0.915))
    );
}

#[test]
fn test_parse_predictions_error_response() {
    let body = r#"{"error":{"message":"No Predictions data was found."}}"#;
    let (high, low) = parse_predictions(&predictions_reply(body), Utc::now().timestamp());
    assert_eq!((event(high), event(low)), (None, None));
}

#[test]
fn predictions_at_now_are_ignored_and_earliest_first_wins() {
    let body = r#"{ "predictions" : [
        {"t":"2026-06-23 05:00", "v":"9.0", "type":"H"},
        {"t":"2026-06-23 20:00", "v":"4.0", "type":"H"},
        {"t":"2026-06-23 08:00", "v":"3.0", "type":"H"},
        {"t":"2026-06-23 08:00", "v":"3.5", "type":"H"},
        {"t":"not a time", "v":"1.0", "type":"L"},
        {"t":"2026-06-23 09:00", "v":"oops", "type":"L"},
        {"t":"2026-06-23 06:00", "v":"1.0", "type":"X"}
    ]}"#;
    let now = Utc.with_ymd_and_hms(2026, 6, 23, 5, 0, 0).unwrap().timestamp();
    let (high, low) = parse_predictions(&predictions_reply(body), now);
    assert_eq!(event(high), Some((Utc.with_ymd_and_hms(2026, 6, 23, 8, 0, 0).unwrap().timestamp(), 3.0)));
    assert_eq!(low, None);
}

#[test]
fn single_value_of_empty_or_undecodable_body() {
    assert_eq!(parse_single_value(&value_reply(r#"{"data":[]}"#)), None);
    assert_eq!(parse_single_value(&value_reply(r#"{"something":"else"}"#)), None);
    assert_eq!(parse_single_value(&value_reply(r#"{"data":[{"v":""}]}"#)), None);
}

#[test]
fn observation_from_replies() {
    let replies = CoOpsReplies {
        water_level: Some(value_reply(r#"{"data":[{"v":"2.351"}]}"#)),
        predictions: Some(predictions_reply(r#"{"predictions":[{"t":"2026-06-23 07:24","v":"3.974","type":"H"}]}"#)),
        wind: None,
        air_temperature: Some(value_reply(r#"{"error":{"message":"none"}}"#)),
        water_temperature: Some(value_reply(r#"{"data":[{"v":"18.2"}]}"#)),
        air_pressure: None,
    };
    let now = Utc.with_ymd_and_hms(2026, 6, 23, 5, 0, 0).unwrap().timestamp();
    let obs = CoOpsObservation::from_replies("8443970", &replies, now);
    assert_eq!(obs.station_id, "8443970");
    assert_eq!(value(obs.tide_feet), Some(2.351));
    assert_eq!(value(obs.water_temp_celsius), Some(18.2));
    assert_eq!(obs.air_temp_celsius, None);
    assert_eq!(obs.pressure_hpa, None);
    assert_eq!(obs.wind_speed_mps, None);
    assert_eq!(obs.next_high_tide_unix, Some(Utc.with_ymd_and_hms(2026, 6, 23, 7, 24, 0).unwrap().timestamp()));
    assert_eq!(value(obs.next_high_tide_feet), Some(3.974));
    assert_eq!(obs.next_low_tide_unix, None);
}

#[test]
fn product_urls_carry_the_query() {
    let client = CoOpsClient::new(
        reqwest::Client::new(),
        "https://api.tidesandcurrents.noaa.gov/api/prod/datagetter",
        "https://api.tidesandcurrents.noaa.gov/mdapi/prod/webapi/stations.json?type=tidepredictions",
    )
    .unwrap();
    assert_eq!(
        client.product_url("8443970", CoOpsProduct::Predictions).unwrap(),
        "https://api.tidesandcurrents.noaa.gov/api/prod/datagetter?station=8443970&product=predictions&units=english&time_zone=gmt&format=json&application=nws_exporter&datum=MLLW&interval=hilo&date=today&range=48"
    );
    assert_eq!(
        client.product_url("8443970", CoOpsProduct::Wind).unwrap(),
        "https://api.tidesandcurrents.noaa.gov/api/prod/datagetter?station=8443970&product=wind&units=metric&time_zone=gmt&format=json&application=nws_exporter&date=latest"
    );
    assert_eq!(
        client.station_list_url(),
        "https://api.tidesandcurrents.noaa.gov/mdapi/prod/webapi/stations.json?type=tidepredictions"
    );
}

#[test]
fn coops_client_rejects_bad_urls_in_order() {
    match CoOpsClient::new(reqwest::Client::new(), "::", "also bad") {
        Err(e @ CoOpsClientError::Initialization(_)) => {
            assert!(e.message().starts_with("initialization error: cannot parse ::: "))
        }
        Ok(_) => panic!("accepted a bad base URL"),
    }
    match CoOpsClient::new(reqwest::Client::new(), "https://example.com/", "also bad") {
        Err(CoOpsClientError::Initialization(msg)) => assert!(msg.starts_with("cannot parse also bad: ")),
        Ok(_) => panic!("accepted a bad station list URL"),
    }
}

#[test]
fn nearest_candidate_picks_first_smallest_key() {
    assert_eq!(nearest_candidate(&vec![]), None);
    assert_eq!(nearest_candidate(&vec![None, None]), None);
    assert_eq!(nearest_candidate(&vec![Some(5), None, Some(3), Some(3), Some(9)]), Some(2));
    assert_eq!(nearest_candidate(&vec![None, Some(7)]), Some(1));
}

#[test]
fn values_in_exponent_form_are_read() {
    let body = r#"{"data":[{"t":"2026-06-23 04:06", "v":"1e5"}]}"#;
    assert_eq!(parse_single_value(&value_reply(body)), Some(Reading::Exact(Decimal { mantissa: 100000, scale: 0 })));
    let body = r#"{"data":[{"t":"2026-06-23 04:06", "v":"inf"}]}"#;
    assert_eq!(parse_single_value(&value_reply(body)), Some(Reading::Written("inf".to_string())));
    let body = r#"{"data":[{"t":"2026-06-23 04:06", "v":"x"}]}"#;
    assert_eq!(parse_single_value(&value_reply(body)), None);
    let body = r#"{"data":[{"t":"2026-06-23 04:06", "d":"1.55E2", "s":"1e1", "g":"nan"}]}"#;
    assert_eq!(
        parse_wind(&wind_reply(body)),
        (
            Some(Reading::Exact(Decimal { mantissa: 155, scale: 0 })),
            Some(Reading::Exact(Decimal { mantissa: 10, scale: 0 })),
            Some(Reading::Written("nan".to_string()))
        )
    );
    let body = r#"{ "predictions" : [
        {"t":"2026-06-23 07:24", "v":"3.974e0", "type":"H"},
        {"t":"2026-06-23 12:30", "v":"915E-3", "type":"L"}
    ]}"#;
    let now = Utc.with_ymd_and_hms(2026, 6, 23, 5, 0, 0).unwrap().timestamp();
    let (high, low) = parse_predictions(&predictions_reply(body), now);
    assert_eq!(event(high), Some((Utc.with_ymd_and_hms(2026, 6, 23, 7, 24, 0).unwrap().timestamp(), 3.974)));
    assert_eq!(event(low), Some((Utc.with_ymd_and_hms(2026, 6, 23, 12, 30, 0).unwrap().timestamp(), 0.915)));
}

#[test]
fn default_observation_has_no_readings() {
    let o = CoOpsObservation::default();
    assert_eq!(o.station_id, "");
    assert_eq!(o.tide_feet, None);
    assert_eq!(o.next_high_tide_unix, None);
    assert_eq!(o.next_low_tide_feet, None);
}

#[test]
fn prediction_heights_f64_reads_are_kept() {
    let body = r#"{ "predictions" : [
        {"t":"2026-06-23 07:24", "v":"inf", "type":"H"},
        {"t":"2026-06-23 12:30", "v":"1e30", "type":"L"}
    ]}"#;
    let now = Utc.with_ymd_and_hms(2026, 6, 23, 5, 0, 0).unwrap().timestamp();
    let (high, low) = parse_predictions(&predictions_reply(body), now);
    assert_eq!(event(high), Some((Utc.with_ymd_and_hms(2026, 6, 23, 7, 24, 0).unwrap().timestamp(), f64::INFINITY)));
    assert_eq!(event(low), Some((Utc.with_ymd_and_hms(2026, 6, 23, 12, 30, 0).unwrap().timestamp(), 1e30)));
}
