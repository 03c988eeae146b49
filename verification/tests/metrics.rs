use nws_exporter::buoy_client::parse_latest_observation;
use nws_exporter::buoy_metrics::{BuoyMetric, BuoyMetrics};
use nws_exporter::coops_client::CoOpsObservation;
use nws_exporter::decimal::{Decimal, Reading};
use nws_exporter::gauge::GaugeFamily;
use nws_exporter::water_client::{
    FloodCategories, FloodInfo, FloodThreshold, GaugeStatus, GeoRef, StatusReading, WaterGauge,
};
use nws_exporter::water_metrics::{WaterLevelMetrics, WaterMetric};

fn d(mantissa: i64, scale: u32) -> Reading {
    Reading::Exact(Decimal { mantissa, scale })
}

fn labels(values: &[&str]) -> Vec<String> {
    values.iter().map(|s| s.to_string()).collect()
}

const LINE: &str = "2026 06 20 20 10 300 5.0 6.0 0.2 MM MM 17 1014.1 19.9 11.9 MM MM MM 1.5\n";

fn coops() -> CoOpsObservation {
    CoOpsObservation {
        station_id: "8443970".to_string(),
        tide_feet: Some(d(2351, 3)),
        wind_direction_degrees: None,
        wind_speed_mps: Some(d(1186, 2)),
        wind_gust_mps: None,
        pressure_hpa: None,
        air_temp_celsius: Some(d(211, 1)),
        water_temp_celsius: None,
        next_high_tide_unix: Some(1782199440),
        next_high_tide_feet: Some(d(3974, 3)),
        next_low_tide_unix: None,
        next_low_tide_feet: None,
    }
}

#[test]
fn buoy_update_sets_station_and_readings() {
    let obs = parse_latest_observation("45186", LINE).unwrap();
    let mut m = BuoyMetrics::new();
    m.update(&obs, "Waukegan Buoy, IL");
    let l = labels(&["45186", "Waukegan Buoy, IL"]);
    assert_eq!(m.family(BuoyMetric::Station).get(&l), Some(d(1, 0)));
    assert_eq!(m.family(BuoyMetric::WindDirection).get(&l), Some(d(300, 0)));
    assert_eq!(m.family(BuoyMetric::Pressure).get(&l), Some(d(10141, 1)));
    assert_eq!(m.family(BuoyMetric::Tide).get(&l), Some(d(15, 1)));
    assert_eq!(m.family(BuoyMetric::Dewpoint).get(&l), None);
    assert_eq!(m.family(BuoyMetric::NextHighTideFeet).get(&l), None);
    assert_eq!(m.family(BuoyMetric::Pressure).samples().len(), 1);
}

#[test]
fn coops_readings_take_precedence() {
    let obs = parse_latest_observation("45186", LINE).unwrap();
    let mut m = BuoyMetrics::new();
    m.update(&obs, "W");
    m.apply_coops("45186", "W", &coops());
    let l = labels(&["45186", "W"]);
    // CO-OPS has these readings.
    assert_eq!(m.family(BuoyMetric::Tide).get(&l), Some(d(2351, 3)));
    assert_eq!(m.family(BuoyMetric::WindSpeed).get(&l), Some(d(1186, 2)));
    assert_eq!(m.family(BuoyMetric::AirTemperature).get(&l), Some(d(211, 1)));
    // CO-OPS has none: NDBC stays.
    assert_eq!(m.family(BuoyMetric::WindDirection).get(&l), Some(d(300, 0)));
    assert_eq!(m.family(BuoyMetric::WaterTemperature).get(&l), Some(d(119, 1)));
    // Predictions come from CO-OPS only.
    assert_eq!(m.family(BuoyMetric::NextHighTideFeet).get(&l), Some(d(3974, 3)));
    assert_eq!(m.family(BuoyMetric::NextHighTideTimestamp).get(&l), Some(d(1782199440, 0)));
    assert_eq!(m.family(BuoyMetric::NextLowTideTimestamp).get(&l), None);
    // A later NDBC update overrides again.
    m.update(&obs, "W");
    assert_eq!(m.family(BuoyMetric::Tide).get(&l), Some(d(15, 1)));
}

#[test]
fn stations_do_not_interfere() {
    let obs = parse_latest_observation("45186", LINE).unwrap();
    let other = parse_latest_observation("sdbc1", "2026 06 20 19 54 MM MM MM MM MM MM MM 1015.6 MM 20.0 MM MM MM MM\n").unwrap();
    let mut m = BuoyMetrics::new();
    m.update(&obs, "");
    m.update(&other, "");
    assert_eq!(m.family(BuoyMetric::Pressure).get(&labels(&["45186", ""])), Some(d(10141, 1)));
    assert_eq!(m.family(BuoyMetric::Pressure).get(&labels(&["SDBC1", ""])), Some(d(10156, 1)));
    assert_eq!(m.family(BuoyMetric::WindDirection).get(&labels(&["SDBC1", ""])), None);
    assert_eq!(m.family(BuoyMetric::Station).samples().len(), 2);
}

#[test]
fn locations() {
    let mut m = BuoyMetrics::new();
    m.set_location("44013", "Boston", d(42346, 3), d(-70651, 3));
    m.set_coops_location("44013", "Boston", "8443970", d(423548, 4), d(-710534, 4));
    assert_eq!(m.family(BuoyMetric::Latitude).get(&labels(&["44013", "Boston"])), Some(d(42346, 3)));
    assert_eq!(m.family(BuoyMetric::Longitude).get(&labels(&["44013", "Boston"])), Some(d(-70651, 3)));
    assert_eq!(
        m.family(BuoyMetric::CoOpsLongitude).get(&labels(&["44013", "Boston", "8443970"])),
        Some(d(-710534, 4))
    );
}

#[test]
fn metric_catalogues() {
    let buoy = BuoyMetric::all();
    assert_eq!(buoy.len(), 23);
    assert!(buoy.iter().all(|m| m.name().starts_with("nws_buoy_")));
    assert_eq!(BuoyMetric::NextLowTideTimestamp.name(), "nws_buoy_next_low_tide_timestamp_seconds");
    assert_eq!(BuoyMetric::Station.help(), "Buoy or coastal station metadata");
    assert!(BuoyMetric::CoOpsLatitude.has_coops_label());
    assert!(!BuoyMetric::Latitude.has_coops_label());
    let water = WaterMetric::all();
    assert_eq!(water.len(), 7);
    assert!(water.iter().all(|m| m.name().starts_with("nws_water_")));
    assert_eq!(WaterMetric::Flow.help(), "Current observed flow in kcfs (thousands of cubic feet per second)");
}

#[test]
fn metric_names_are_distinct() {
    let buoy: Vec<&str> = BuoyMetric::all().iter().map(|m| m.name()).collect();
    for (i, a) in buoy.iter().enumerate() {
        for b in &buoy[i + 1..] {
            assert_ne!(a, b);
        }
    }
    let water: Vec<&str> = WaterMetric::all().iter().map(|m| m.name()).collect();
    for (i, a) in water.iter().enumerate() {
        for b in &water[i + 1..] {
            assert_ne!(a, b);
        }
    }
}

fn threshold(stage: Option<Reading>) -> Option<FloodThreshold> {
    Some(FloodThreshold { stage, flow: None })
}

fn gauge(primary: Option<Reading>, secondary: Option<Reading>, state: Option<&str>) -> WaterGauge {
    WaterGauge {
        lid: "DSPI2".to_string(),
        name: "Des Plaines River".to_string(),
        state: state.map(|s| GeoRef { abbreviation: s.to_string(), name: None }),
        county: None,
        latitude: None,
        longitude: None,
        status: Some(GaugeStatus {
            observed: Some(StatusReading {
                primary,
                primary_unit: Some("ft".to_string()),
                secondary,
                secondary_unit: Some("kcfs".to_string()),
                flood_category: None,
                valid_time: None,
            }),
        }),
        flood: Some(FloodInfo {
            stage_units: None,
            flow_units: None,
            categories: Some(FloodCategories {
                action: threshold(Some(d(10, 0))),
                minor: threshold(Some(d(-999, 0))),
                moderate: threshold(None),
                major: None,
            }),
        }),
    }
}

#[test]
fn water_update_filters_the_sentinel() {
    let mut m = WaterLevelMetrics::new();
    m.update(&gauge(Some(d(512, 2)), Some(d(-9990, 1)), Some("IL")));
    let l = labels(&["DSPI2", "Des Plaines River"]);
    assert_eq!(m.family(WaterMetric::GaugeInfo).get(&labels(&["DSPI2", "Des Plaines River", "IL"])), Some(d(1, 0)));
    assert_eq!(m.family(WaterMetric::Stage).get(&l), Some(d(512, 2)));
    assert_eq!(m.family(WaterMetric::Flow).get(&l), None);
    assert_eq!(m.family(WaterMetric::ActionStage).get(&l), Some(d(10, 0)));
    assert_eq!(m.family(WaterMetric::MinorFloodStage).get(&l), None);
    assert_eq!(m.family(WaterMetric::ModerateFloodStage).get(&l), None);
    assert_eq!(m.family(WaterMetric::MajorFloodStage).get(&l), None);
    // A sentinel reading leaves the previous value in place.
    m.update(&gauge(Some(d(-999, 0)), Some(d(3, 1)), None));
    assert_eq!(m.family(WaterMetric::Stage).get(&l), Some(d(512, 2)));
    assert_eq!(m.family(WaterMetric::Flow).get(&l), Some(d(3, 1)));
    assert_eq!(m.family(WaterMetric::GaugeInfo).get(&labels(&["DSPI2", "Des Plaines River", ""])), Some(d(1, 0)));
}

#[test]
fn gauge_family_set_and_get() {
    let mut f = GaugeFamily::new();
    assert_eq!(f.get(&labels(&["a"])), None);
    f.set(labels(&["a"]), d(1, 0));
    f.set(labels(&["b"]), d(2, 0));
    f.set(labels(&["a"]), d(3, 0));
    assert_eq!(f.get(&labels(&["a"])), Some(d(3, 0)));
    assert_eq!(f.get(&labels(&["b"])), Some(d(2, 0)));
    assert_eq!(f.samples().len(), 2);
}

#[test]
fn sentinel_filter_on_written_readings() {
    let w = |t: &str| Reading::Written(t.to_string());
    let l = labels(&["DSPI2", "Des Plaines River"]);
    let mut m = WaterLevelMetrics::new();
    m.update(&gauge(Some(w("inf")), Some(w("NaN")), None));
    assert_eq!(m.family(WaterMetric::Stage).get(&l), Some(w("inf")));
    assert_eq!(m.family(WaterMetric::Flow).get(&l), None);
    m.update(&gauge(Some(w("-inf")), Some(w("-99999999999999999999999")), None));
    assert_eq!(m.family(WaterMetric::Stage).get(&l), Some(w("inf")));
    assert_eq!(m.family(WaterMetric::Flow).get(&l), None);
    m.update(&gauge(Some(w("-998.99999999999999999999")), Some(w("-999.00000000000000000001")), None));
    assert_eq!(m.family(WaterMetric::Stage).get(&l), Some(w("-998.99999999999999999999")));
    assert_eq!(m.family(WaterMetric::Flow).get(&l), None);
    assert!(w("1e400").gt_int(-999));
    assert!(!w("-1e400").gt_int(-999));
    assert!(w("-1e-400").gt_int(-999));
    assert!(w("-9.9899999999999999999999e2").gt_int(-999));
    assert!(!w("-9.9900000000000000000001e2").gt_int(-999));
    assert!(!w("-99900000000000000000000e-20").gt_int(-999));
    assert!(w("0.000000000000000000000000").gt_int(-1));
    assert!(!w("0.000000000000000000000000").gt_int(0));
    assert!(w("0.000000000000000000000001").gt_int(0));
    assert!(!w("abc").gt_int(-999));
}
