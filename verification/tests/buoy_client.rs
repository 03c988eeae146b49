use nws_exporter::buoy_client::{ndbc_field, parse_latest_observation, BuoyClient, BuoyClientError};
use nws_exporter::decimal::{Decimal, Reading};

const WAUKEGAN_45186: &str = "\
#YY  MM DD hh mm WDIR WSPD GST  WVHT   DPD   APD MWD   PRES  ATMP  WTMP  DEWP  VIS PTDY  TIDE
#yr  mo dy hr mn degT m/s  m/s     m   sec   sec degT   hPa  degC  degC  degC  nmi  hPa    ft
2026 06 20 20 10 300  5.0  6.0   0.2    MM    MM  17 1014.1  19.9  11.9    MM   MM   MM    MM
2026 06 20 20 00 290  5.0  8.0   0.2    MM    MM   6 1014.2  20.5  11.8    MM   MM -0.5    MM
";

const SDBC1: &str = "\
#YY  MM DD hh mm WDIR WSPD GST  WVHT   DPD   APD MWD   PRES  ATMP  WTMP  DEWP  VIS PTDY  TIDE
#yr  mo dy hr mn degT m/s  m/s     m   sec   sec degT   hPa  degC  degC  degC  nmi  hPa    ft
2026 06 20 19 54  MM   MM   MM    MM    MM    MM  MM 1015.6    MM  20.0    MM   MM   MM    MM
";

/// The value of a reading as a float, as the exporter publishes it.
fn value(d: Option<Reading>) -> Option<f64> {
    d.map(|d| d.text().parse::<f64>().unwrap())
}

#[test]
fn test_parse_latest_observation_full_fields() {
    let obs = parse_latest_observation("45186", WAUKEGAN_45186).unwrap();
    assert_eq!(obs.station_id, "45186");
    assert_eq!(obs.timestamp, "2026-06-20T20:10:00Z");
    assert_eq!(value(obs.wind_direction_degrees), Some(300.0));
    assert_eq!(value(obs.wind_speed_mps), Some(5.0));
    assert_eq!(value(obs.wind_gust_mps), Some(6.0));
    assert_eq!(value(obs.wave_height_meters), Some(0.2));
    assert_eq!(value(obs.dominant_wave_period_secs), None);
    assert_eq!(value(obs.average_wave_period_secs), None);
    assert_eq!(value(obs.wave_direction_degrees), Some(17.0));
    assert_eq!(value(obs.pressure_hpa), Some(1014.1));
    assert_eq!(value(obs.air_temp_celsius), Some(19.9));
    assert_eq!(value(obs.water_temp_celsius), Some(11.9));
    assert_eq!(value(obs.dewpoint_celsius), None);
    assert_eq!(value(obs.visibility_nmi), None);
    assert_eq!(value(obs.pressure_tendency_hpa), None);
    assert_eq!(value(obs.tide_feet), None);
}

#[test]
fn test_parse_latest_observation_mostly_missing() {
    let obs = parse_latest_observation("sdbc1", SDBC1).unwrap();
    assert_eq!(obs.station_id, "SDBC1");
    assert_eq!(value(obs.wind_direction_degrees), None);
    assert_eq!(value(obs.pressure_hpa), Some(1015.6));
    assert_eq!(value(obs.water_temp_celsius), Some(20.0));
    assert_eq!(value(obs.air_temp_celsius), None);
}

#[test]
fn test_parse_latest_observation_no_data_lines() {
    let body = "#YY  MM DD hh mm WDIR WSPD GST  WVHT   DPD   APD MWD   PRES  ATMP  WTMP  DEWP  VIS PTDY  TIDE\n#yr  mo dy hr mn degT m/s  m/s     m   sec   sec degT   hPa  degC  degC  degC  nmi  hPa    ft\n";
    let err = parse_latest_observation("45186", body).unwrap_err();
    assert!(matches!(err, BuoyClientError::Parse(_)));
}

#[test]
fn test_observation_url_uppercases_station() {
    let client = BuoyClient::new(reqwest::Client::new(), "https://www.ndbc.noaa.gov/data/realtime2/").unwrap();
    let url = client.observation_url("sdbc1");
    assert_eq!(url.as_str(), "https://www.ndbc.noaa.gov/data/realtime2/SDBC1.txt");
}

#[test]
fn parse_reads_exact_decimals() {
    let obs = parse_latest_observation("45186", WAUKEGAN_45186).unwrap();
    assert_eq!(obs.pressure_hpa, Some(Reading::Exact(Decimal { mantissa: 10141, scale: 1 })));
    assert_eq!(obs.wind_direction_degrees, Some(Reading::Exact(Decimal { mantissa: 300, scale: 0 })));
}

#[test]
fn parse_error_messages() {
    match parse_latest_observation("45186", "# only a header\n\n   \n") {
        Err(BuoyClientError::Parse(msg)) => assert_eq!(msg, "no observations found for station 45186"),
        other => panic!("unexpected {:?}", other),
    }
    match parse_latest_observation("45186", "2026 06 20 20 10 300 5.0\n") {
        Err(BuoyClientError::Parse(msg)) => assert_eq!(msg, "expected at least 17 columns, found 7"),
        other => panic!("unexpected {:?}", other),
    }
}

#[test]
fn parse_skips_blank_lines_and_reads_trailing_columns() {
    let body = "#YY MM\n\r\n   \t\n2026 06 20 20 10 300 5.0 6.0 0.2 MM MM 17 1014.1 19.9 11.9 MM MM -0.5 1.25\r\n";
    let obs = parse_latest_observation("45186", body).unwrap();
    assert_eq!(value(obs.pressure_tendency_hpa), Some(-0.5));
    assert_eq!(value(obs.tide_feet), Some(1.25));
    assert_eq!(obs.timestamp, "2026-06-20T20:10:00Z");
}

#[test]
fn parse_with_exactly_seventeen_columns() {
    let body = "2026 06 20 20 10 300 5.0 6.0 0.2 MM MM 17 1014.1 19.9 11.9 MM MM\n";
    let obs = parse_latest_observation("x", body).unwrap();
    assert_eq!(obs.pressure_tendency_hpa, None);
    assert_eq!(obs.tide_feet, None);
    assert_eq!(obs.station_id, "X");
}

#[test]
fn ndbc_field_handles_missing_and_garbage() {
    assert_eq!(ndbc_field("MM"), None);
    assert_eq!(ndbc_field("abc"), None);
    assert_eq!(ndbc_field("-0.5"), Some(Reading::Exact(Decimal { mantissa: -5, scale: 1 })));
}

#[test]
fn status_classification() {
    assert!(BuoyClient::check_status(200, "45186", "u").is_ok());
    assert!(matches!(BuoyClient::check_status(404, "45186", "u"), Err(BuoyClientError::InvalidStation(s)) if s == "45186"));
    let err = BuoyClient::check_status(503, "45186", "https://x/45186.txt").unwrap_err();
    assert_eq!(err.message(), "unexpected status 503 Service Unavailable for https://x/45186.txt");
}

#[test]
fn bad_base_url_is_an_initialization_error() {
    match BuoyClient::new(reqwest::Client::new(), "not a url") {
        Err(e @ BuoyClientError::Initialization(_)) => {
            assert_eq!(e.message(), "initialization error: cannot parse not a url: relative URL without a base")
        }
        other => panic!("unexpected {:?}", other.map(|_| ())),
    }
}

#[test]
fn base_url_is_held_as_its_serialization() {
    let client = BuoyClient::new(reqwest::Client::new(), "HTTPS://www.NDBC.noaa.gov").unwrap();
    assert_eq!(client.base_url().as_str(), "https://www.ndbc.noaa.gov/");
    assert_eq!(
        client.checked_observation_url("45186").unwrap().as_str(),
        "https://www.ndbc.noaa.gov/45186.txt"
    );
}

#[test]
fn columns_in_exponent_form_are_read() {
    let body = "#YY  MM DD hh mm WDIR WSPD GST  WVHT   DPD   APD MWD   PRES  ATMP  WTMP  DEWP  VIS PTDY  TIDE\n\
2026 06 20 20 10 1e5 5.0E-1 inf 0.2 NaN 12345678901234567890 17 1014.1 19.9 11.9 MM MM MM MM\n";
    let obs = parse_latest_observation("45186", body).unwrap();
    assert_eq!(obs.wind_direction_degrees, Some(Reading::Exact(Decimal { mantissa: 100000, scale: 0 })));
    assert_eq!(obs.wind_speed_mps, Some(Reading::Exact(Decimal { mantissa: 50, scale: 2 })));
    // Numbers f64 reads that a decimal cannot hold are kept as written.
    assert_eq!(obs.wind_gust_mps, Some(Reading::Written("inf".to_string())));
    assert_eq!(value(obs.wind_gust_mps), Some(f64::INFINITY));
    assert!(value(obs.dominant_wave_period_secs).unwrap().is_nan());
    assert_eq!(value(obs.average_wave_period_secs), Some(12345678901234567890.0));
    assert_eq!(ndbc_field("1e5"), Some(Reading::Exact(Decimal { mantissa: 100000, scale: 0 })));
}
