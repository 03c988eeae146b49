//! The values of the buoy and coastal station metrics.
//!
//! All metrics use the prefix `nws_buoy_` and carry a `buoy` label set to the
//! station ID (e.g. `45186`) and a `buoy_name` label set to the station's
//! friendly name (e.g. `Waukegan Buoy, IL`), if known.  The two CO-OPS location
//! metrics carry a third label, `coops_station`.
//!
//! For buoys matched to a nearby NOAA CO-OPS tide station, wind direction, speed
//! and gust, pressure, air and water temperature, and tide are sourced from
//! CO-OPS instead of NDBC whenever CO-OPS has a reading, via `apply_coops`.  The
//! four tide-prediction metrics have no NDBC equivalent and are only ever
//! populated via `apply_coops`.

use crate::buoy_client::BuoyObservation;
use crate::coops_client::CoOpsObservation;
use crate::decimal::{duplicate_opt, reading_of, Decimal, Reading, ReadingView};
use crate::gauge::{GaugeFamily, LabelValues};
use vstd::prelude::*;

verus! {

/// The metrics of a buoy or coastal station, in registration order.
#[derive(Clone, Copy, Debug, PartialEq, Eq, Structural)]
pub enum BuoyMetric {
    Station,
    WindDirection,
    WindSpeed,
    WindGust,
    WaveHeight,
    DominantWavePeriod,
    AverageWavePeriod,
    WaveDirection,
    Pressure,
    PressureTendency,
    AirTemperature,
    WaterTemperature,
    Dewpoint,
    Visibility,
    Tide,
    NextHighTideFeet,
    NextHighTideTimestamp,
    NextLowTideFeet,
    NextLowTideTimestamp,
    Latitude,
    Longitude,
    CoOpsLatitude,
    CoOpsLongitude,
}

/// The registered name of a metric.
pub open spec fn metric_name(m: BuoyMetric) -> Seq<char> {
    match m {
        BuoyMetric::Station => "nws_buoy_station"@,
        BuoyMetric::WindDirection => "nws_buoy_wind_direction_degrees"@,
        BuoyMetric::WindSpeed => "nws_buoy_wind_speed_mps"@,
        BuoyMetric::WindGust => "nws_buoy_wind_gust_mps"@,
        BuoyMetric::WaveHeight => "nws_buoy_wave_height_meters"@,
        BuoyMetric::DominantWavePeriod => "nws_buoy_dominant_wave_period_seconds"@,
        BuoyMetric::AverageWavePeriod => "nws_buoy_average_wave_period_seconds"@,
        BuoyMetric::WaveDirection => "nws_buoy_wave_direction_degrees"@,
        BuoyMetric::Pressure => "nws_buoy_pressure_hpa"@,
        BuoyMetric::PressureTendency => "nws_buoy_pressure_tendency_hpa"@,
        BuoyMetric::AirTemperature => "nws_buoy_air_temperature_degrees"@,
        BuoyMetric::WaterTemperature => "nws_buoy_water_temperature_degrees"@,
        BuoyMetric::Dewpoint => "nws_buoy_dewpoint_degrees"@,
        BuoyMetric::Visibility => "nws_buoy_visibility_nmi"@,
        BuoyMetric::Tide => "nws_buoy_tide_feet"@,
        BuoyMetric::NextHighTideFeet => "nws_buoy_next_high_tide_feet"@,
        BuoyMetric::NextHighTideTimestamp => "nws_buoy_next_high_tide_timestamp_seconds"@,
        BuoyMetric::NextLowTideFeet => "nws_buoy_next_low_tide_feet"@,
        BuoyMetric::NextLowTideTimestamp => "nws_buoy_next_low_tide_timestamp_seconds"@,
        BuoyMetric::Latitude => "nws_buoy_latitude_degrees"@,
        BuoyMetric::Longitude => "nws_buoy_longitude_degrees"@,
        BuoyMetric::CoOpsLatitude => "nws_buoy_coops_latitude_degrees"@,
        BuoyMetric::CoOpsLongitude => "nws_buoy_coops_longitude_degrees"@,
    }
}

/// The help text of a metric.
pub open spec fn metric_help(m: BuoyMetric) -> Seq<char> {
    match m {
        BuoyMetric::Station => "Buoy or coastal station metadata"@,
        BuoyMetric::WindDirection => "Wind direction, in degrees clockwise from true north"@,
        BuoyMetric::WindSpeed => "Wind speed, in meters per second"@,
        BuoyMetric::WindGust => "Peak wind gust speed, in meters per second"@,
        BuoyMetric::WaveHeight => "Significant wave height, in meters"@,
        BuoyMetric::DominantWavePeriod => "Dominant wave period, in seconds"@,
        BuoyMetric::AverageWavePeriod => "Average wave period, in seconds"@,
        BuoyMetric::WaveDirection => "Mean wave direction, in degrees clockwise from true north"@,
        BuoyMetric::Pressure => "Sea level pressure, in hectopascals"@,
        BuoyMetric::PressureTendency => "Pressure tendency over the last 3 hours, in hectopascals"@,
        BuoyMetric::AirTemperature => "Air temperature, in degrees celsius"@,
        BuoyMetric::WaterTemperature => "Water temperature, in degrees celsius"@,
        BuoyMetric::Dewpoint => "Dewpoint, in degrees celsius"@,
        BuoyMetric::Visibility => "Visibility, in nautical miles"@,
        BuoyMetric::Tide => "Water level above or below mean lower low water, in feet"@,
        BuoyMetric::NextHighTideFeet => "Predicted height of the next high tide, in feet"@,
        BuoyMetric::NextHighTideTimestamp => "Predicted time of the next high tide, as a unix timestamp"@,
        BuoyMetric::NextLowTideFeet => "Predicted height of the next low tide, in feet"@,
        BuoyMetric::NextLowTideTimestamp => "Predicted time of the next low tide, as a unix timestamp"@,
        BuoyMetric::Latitude => "Latitude of the buoy or coastal station, in decimal degrees"@,
        BuoyMetric::Longitude => "Longitude of the buoy or coastal station, in decimal degrees"@,
        BuoyMetric::CoOpsLatitude => "Latitude of the matched CO-OPS tide station, in decimal degrees"@,
        BuoyMetric::CoOpsLongitude => "Longitude of the matched CO-OPS tide station, in decimal degrees"@,
    }
}

/// All metrics, in registration order.
pub open spec fn all_metrics() -> Seq<BuoyMetric> {
    seq![
        BuoyMetric::Station,
        BuoyMetric::WindDirection,
        BuoyMetric::WindSpeed,
        BuoyMetric::WindGust,
        BuoyMetric::WaveHeight,
        BuoyMetric::DominantWavePeriod,
        BuoyMetric::AverageWavePeriod,
        BuoyMetric::WaveDirection,
        BuoyMetric::Pressure,
        BuoyMetric::PressureTendency,
        BuoyMetric::AirTemperature,
        BuoyMetric::WaterTemperature,
        BuoyMetric::Dewpoint,
        BuoyMetric::Visibility,
        BuoyMetric::Tide,
        BuoyMetric::NextHighTideFeet,
        BuoyMetric::NextHighTideTimestamp,
        BuoyMetric::NextLowTideFeet,
        BuoyMetric::NextLowTideTimestamp,
        BuoyMetric::Latitude,
        BuoyMetric::Longitude,
        BuoyMetric::CoOpsLatitude,
        BuoyMetric::CoOpsLongitude,
    ]
}

/// The metric carries the `coops_station` label besides `buoy` and `buoy_name`.
pub open spec fn has_coops_label(m: BuoyMetric) -> bool {
    m == BuoyMetric::CoOpsLatitude || m == BuoyMetric::CoOpsLongitude
}

impl BuoyMetric {
    /// The registered name.
    pub fn name(&self) -> (r: &'static str)
        ensures
            r@ == metric_name(*self),
    {
        match self {
            BuoyMetric::Station => "nws_buoy_station",
            BuoyMetric::WindDirection => "nws_buoy_wind_direction_degrees",
            BuoyMetric::WindSpeed => "nws_buoy_wind_speed_mps",
            BuoyMetric::WindGust => "nws_buoy_wind_gust_mps",
            BuoyMetric::WaveHeight => "nws_buoy_wave_height_meters",
            BuoyMetric::DominantWavePeriod => "nws_buoy_dominant_wave_period_seconds",
            BuoyMetric::AverageWavePeriod => "nws_buoy_average_wave_period_seconds",
            BuoyMetric::WaveDirection => "nws_buoy_wave_direction_degrees",
            BuoyMetric::Pressure => "nws_buoy_pressure_hpa",
            BuoyMetric::PressureTendency => "nws_buoy_pressure_tendency_hpa",
            BuoyMetric::AirTemperature => "nws_buoy_air_temperature_degrees",
            BuoyMetric::WaterTemperature => "nws_buoy_water_temperature_degrees",
            BuoyMetric::Dewpoint => "nws_buoy_dewpoint_degrees",
            BuoyMetric::Visibility => "nws_buoy_visibility_nmi",
            BuoyMetric::Tide => "nws_buoy_tide_feet",
            BuoyMetric::NextHighTideFeet => "nws_buoy_next_high_tide_feet",
            BuoyMetric::NextHighTideTimestamp => "nws_buoy_next_high_tide_timestamp_seconds",
            BuoyMetric::NextLowTideFeet => "nws_buoy_next_low_tide_feet",
            BuoyMetric::NextLowTideTimestamp => "nws_buoy_next_low_tide_timestamp_seconds",
            BuoyMetric::Latitude => "nws_buoy_latitude_degrees",
            BuoyMetric::Longitude => "nws_buoy_longitude_degrees",
            BuoyMetric::CoOpsLatitude => "nws_buoy_coops_latitude_degrees",
            BuoyMetric::CoOpsLongitude => "nws_buoy_coops_longitude_degrees",
        }
    }

    /// The help text.
    pub fn help(&self) -> (r: &'static str)
        ensures
            r@ == metric_help(*self),
    {
        match self {
            BuoyMetric::Station => "Buoy or coastal station metadata",
            BuoyMetric::WindDirection => "Wind direction, in degrees clockwise from true north",
            BuoyMetric::WindSpeed => "Wind speed, in meters per second",
            BuoyMetric::WindGust => "Peak wind gust speed, in meters per second",
            BuoyMetric::WaveHeight => "Significant wave height, in meters",
            BuoyMetric::DominantWavePeriod => "Dominant wave period, in seconds",
            BuoyMetric::AverageWavePeriod => "Average wave period, in seconds",
            BuoyMetric::WaveDirection => "Mean wave direction, in degrees clockwise from true north",
            BuoyMetric::Pressure => "Sea level pressure, in hectopascals",
            BuoyMetric::PressureTendency => "Pressure tendency over the last 3 hours, in hectopascals",
            BuoyMetric::AirTemperature => "Air temperature, in degrees celsius",
            BuoyMetric::WaterTemperature => "Water temperature, in degrees celsius",
            BuoyMetric::Dewpoint => "Dewpoint, in degrees celsius",
            BuoyMetric::Visibility => "Visibility, in nautical miles",
            BuoyMetric::Tide => "Water level above or below mean lower low water, in feet",
            BuoyMetric::NextHighTideFeet => "Predicted height of the next high tide, in feet",
            BuoyMetric::NextHighTideTimestamp => "Predicted time of the next high tide, as a unix timestamp",
            BuoyMetric::NextLowTideFeet => "Predicted height of the next low tide, in feet",
            BuoyMetric::NextLowTideTimestamp => "Predicted time of the next low tide, as a unix timestamp",
            BuoyMetric::Latitude => "Latitude of the buoy or coastal station, in decimal degrees",
            BuoyMetric::Longitude => "Longitude of the buoy or coastal station, in decimal degrees",
            BuoyMetric::CoOpsLatitude => "Latitude of the matched CO-OPS tide station, in decimal degrees",
            BuoyMetric::CoOpsLongitude => "Longitude of the matched CO-OPS tide station, in decimal degrees",
        }
    }

    /// Whether the metric carries the `coops_station` label.
    pub fn has_coops_label(&self) -> (r: bool)
        ensures
            r == has_coops_label(*self),
    {
        match self {
            BuoyMetric::CoOpsLatitude => true,
            BuoyMetric::CoOpsLongitude => true,
            _ => false,
        }
    }

    /// All metrics, in registration order.
    pub fn all() -> (r: Vec<BuoyMetric>)
        ensures
            r@ == all_metrics(),
    {
        let r = vec![
            BuoyMetric::Station,
            BuoyMetric::WindDirection,
            BuoyMetric::WindSpeed,
            BuoyMetric::WindGust,
            BuoyMetric::WaveHeight,
            BuoyMetric::DominantWavePeriod,
            BuoyMetric::AverageWavePeriod,
            BuoyMetric::WaveDirection,
            BuoyMetric::Pressure,
            BuoyMetric::PressureTendency,
            BuoyMetric::AirTemperature,
            BuoyMetric::WaterTemperature,
            BuoyMetric::Dewpoint,
            BuoyMetric::Visibility,
            BuoyMetric::Tide,
            BuoyMetric::NextHighTideFeet,
            BuoyMetric::NextHighTideTimestamp,
            BuoyMetric::NextLowTideFeet,
            BuoyMetric::NextLowTideTimestamp,
            BuoyMetric::Latitude,
            BuoyMetric::Longitude,
            BuoyMetric::CoOpsLatitude,
            BuoyMetric::CoOpsLongitude,
        ];
        assert(r@ =~= all_metrics());
        r
    }
}

/// Every buoy metric is named with the prefix `nws_buoy_`.
pub proof fn lemma_metric_names_prefixed(m: BuoyMetric)
    ensures
        metric_name(m).len() > 9,
        metric_name(m).take(9) == "nws_buoy_"@,
{
    reveal_strlit("nws_buoy_");
    match m {
        BuoyMetric::Station => reveal_strlit("nws_buoy_station"),
        BuoyMetric::WindDirection => reveal_strlit("nws_buoy_wind_direction_degrees"),
        BuoyMetric::WindSpeed => reveal_strlit("nws_buoy_wind_speed_mps"),
        BuoyMetric::WindGust => reveal_strlit("nws_buoy_wind_gust_mps"),
        BuoyMetric::WaveHeight => reveal_strlit("nws_buoy_wave_height_meters"),
        BuoyMetric::DominantWavePeriod => reveal_strlit("nws_buoy_dominant_wave_period_seconds"),
        BuoyMetric::AverageWavePeriod => reveal_strlit("nws_buoy_average_wave_period_seconds"),
        BuoyMetric::WaveDirection => reveal_strlit("nws_buoy_wave_direction_degrees"),
        BuoyMetric::Pressure => reveal_strlit("nws_buoy_pressure_hpa"),
        BuoyMetric::PressureTendency => reveal_strlit("nws_buoy_pressure_tendency_hpa"),
        BuoyMetric::AirTemperature => reveal_strlit("nws_buoy_air_temperature_degrees"),
        BuoyMetric::WaterTemperature => reveal_strlit("nws_buoy_water_temperature_degrees"),
        BuoyMetric::Dewpoint => reveal_strlit("nws_buoy_dewpoint_degrees"),
        BuoyMetric::Visibility => reveal_strlit("nws_buoy_visibility_nmi"),
        BuoyMetric::Tide => reveal_strlit("nws_buoy_tide_feet"),
        BuoyMetric::NextHighTideFeet => reveal_strlit("nws_buoy_next_high_tide_feet"),
        BuoyMetric::NextHighTideTimestamp => reveal_strlit("nws_buoy_next_high_tide_timestamp_seconds"),
        BuoyMetric::NextLowTideFeet => reveal_strlit("nws_buoy_next_low_tide_feet"),
        BuoyMetric::NextLowTideTimestamp => reveal_strlit("nws_buoy_next_low_tide_timestamp_seconds"),
        BuoyMetric::Latitude => reveal_strlit("nws_buoy_latitude_degrees"),
        BuoyMetric::Longitude => reveal_strlit("nws_buoy_longitude_degrees"),
        BuoyMetric::CoOpsLatitude => reveal_strlit("nws_buoy_coops_latitude_degrees"),
        BuoyMetric::CoOpsLongitude => reveal_strlit("nws_buoy_coops_longitude_degrees"),
    }
    assert(metric_name(m).take(9) =~= "nws_buoy_"@);
}

/// The length of a metric's name and its twelfth character, which tell the
/// names apart.
spec fn name_key(m: BuoyMetric) -> (nat, char) {
    match m {
        BuoyMetric::Station => (16, 'a'),
        BuoyMetric::WindDirection => (31, 'n'),
        BuoyMetric::WindSpeed => (23, 'n'),
        BuoyMetric::WindGust => (22, 'n'),
        BuoyMetric::WaveHeight => (27, 'v'),
        BuoyMetric::DominantWavePeriod => (37, 'm'),
        BuoyMetric::AverageWavePeriod => (36, 'e'),
        BuoyMetric::WaveDirection => (31, 'v'),
        BuoyMetric::Pressure => (21, 'e'),
        BuoyMetric::PressureTendency => (30, 'e'),
        BuoyMetric::AirTemperature => (32, 'r'),
        BuoyMetric::WaterTemperature => (34, 't'),
        BuoyMetric::Dewpoint => (25, 'w'),
        BuoyMetric::Visibility => (23, 's'),
        BuoyMetric::Tide => (18, 'd'),
        BuoyMetric::NextHighTideFeet => (28, 'x'),
        BuoyMetric::NextHighTideTimestamp => (41, 'x'),
        BuoyMetric::NextLowTideFeet => (27, 'x'),
        BuoyMetric::NextLowTideTimestamp => (40, 'x'),
        BuoyMetric::Latitude => (25, 't'),
        BuoyMetric::Longitude => (26, 'n'),
        BuoyMetric::CoOpsLatitude => (31, 'o'),
        BuoyMetric::CoOpsLongitude => (32, 'o'),
    }
}

proof fn lemma_name_key(m: BuoyMetric)
    ensures
        metric_name(m).len() == name_key(m).0,
        metric_name(m)[11] == name_key(m).1,
{
    match m {
        BuoyMetric::Station => reveal_strlit("nws_buoy_station"),
        BuoyMetric::WindDirection => reveal_strlit("nws_buoy_wind_direction_degrees"),
        BuoyMetric::WindSpeed => reveal_strlit("nws_buoy_wind_speed_mps"),
        BuoyMetric::WindGust => reveal_strlit("nws_buoy_wind_gust_mps"),
        BuoyMetric::WaveHeight => reveal_strlit("nws_buoy_wave_height_meters"),
        BuoyMetric::DominantWavePeriod => reveal_strlit("nws_buoy_dominant_wave_period_seconds"),
        BuoyMetric::AverageWavePeriod => reveal_strlit("nws_buoy_average_wave_period_seconds"),
        BuoyMetric::WaveDirection => reveal_strlit("nws_buoy_wave_direction_degrees"),
        BuoyMetric::Pressure => reveal_strlit("nws_buoy_pressure_hpa"),
        BuoyMetric::PressureTendency => reveal_strlit("nws_buoy_pressure_tendency_hpa"),
        BuoyMetric::AirTemperature => reveal_strlit("nws_buoy_air_temperature_degrees"),
        BuoyMetric::WaterTemperature => reveal_strlit("nws_buoy_water_temperature_degrees"),
        BuoyMetric::Dewpoint => reveal_strlit("nws_buoy_dewpoint_degrees"),
        BuoyMetric::Visibility => reveal_strlit("nws_buoy_visibility_nmi"),
        BuoyMetric::Tide => reveal_strlit("nws_buoy_tide_feet"),
        BuoyMetric::NextHighTideFeet => reveal_strlit("nws_buoy_next_high_tide_feet"),
        BuoyMetric::NextHighTideTimestamp => reveal_strlit("nws_buoy_next_high_tide_timestamp_seconds"),
        BuoyMetric::NextLowTideFeet => reveal_strlit("nws_buoy_next_low_tide_feet"),
        BuoyMetric::NextLowTideTimestamp => reveal_strlit("nws_buoy_next_low_tide_timestamp_seconds"),
        BuoyMetric::Latitude => reveal_strlit("nws_buoy_latitude_degrees"),
        BuoyMetric::Longitude => reveal_strlit("nws_buoy_longitude_degrees"),
        BuoyMetric::CoOpsLatitude => reveal_strlit("nws_buoy_coops_latitude_degrees"),
        BuoyMetric::CoOpsLongitude => reveal_strlit("nws_buoy_coops_longitude_degrees"),
    }
}

/// Distinct metrics are registered under distinct names.
pub proof fn lemma_metric_names_distinct(m1: BuoyMetric, m2: BuoyMetric)
    requires
        m1 != m2,
    ensures
        metric_name(m1) != metric_name(m2),
{
    lemma_name_key(m1);
    lemma_name_key(m2);
}

/// The position of a metric in `all_metrics`.
spec fn metric_position(m: BuoyMetric) -> int {
    match m {
        BuoyMetric::Station => 0,
        BuoyMetric::WindDirection => 1,
        BuoyMetric::WindSpeed => 2,
        BuoyMetric::WindGust => 3,
        BuoyMetric::WaveHeight => 4,
        BuoyMetric::DominantWavePeriod => 5,
        BuoyMetric::AverageWavePeriod => 6,
        BuoyMetric::WaveDirection => 7,
        BuoyMetric::Pressure => 8,
        BuoyMetric::PressureTendency => 9,
        BuoyMetric::AirTemperature => 10,
        BuoyMetric::WaterTemperature => 11,
        BuoyMetric::Dewpoint => 12,
        BuoyMetric::Visibility => 13,
        BuoyMetric::Tide => 14,
        BuoyMetric::NextHighTideFeet => 15,
        BuoyMetric::NextHighTideTimestamp => 16,
        BuoyMetric::NextLowTideFeet => 17,
        BuoyMetric::NextLowTideTimestamp => 18,
        BuoyMetric::Latitude => 19,
        BuoyMetric::Longitude => 20,
        BuoyMetric::CoOpsLatitude => 21,
        BuoyMetric::CoOpsLongitude => 22,
    }
}

proof fn lemma_positions()
    ensures
        all_metrics().len() == 23,
        forall|i: int| 0 <= i < 23 ==> metric_position(#[trigger] all_metrics()[i]) == i,
{
    assert forall|i: int| 0 <= i < 23 implies metric_position(#[trigger] all_metrics()[i]) == i by {
        if i == 0 {
            assert(all_metrics()[0] == BuoyMetric::Station);
        }
        else if i == 1 {
            assert(all_metrics()[1] == BuoyMetric::WindDirection);
        }
        else if i == 2 {
            assert(all_metrics()[2] == BuoyMetric::WindSpeed);
        }
        else if i == 3 {
            assert(all_metrics()[3] == BuoyMetric::WindGust);
        }
        else if i == 4 {
            assert(all_metrics()[4] == BuoyMetric::WaveHeight);
        }
        else if i == 5 {
            assert(all_metrics()[5] == BuoyMetric::DominantWavePeriod);
        }
        else if i == 6 {
            assert(all_metrics()[6] == BuoyMetric::AverageWavePeriod);
        }
        else if i == 7 {
            assert(all_metrics()[7] == BuoyMetric::WaveDirection);
        }
        else if i == 8 {
            assert(all_metrics()[8] == BuoyMetric::Pressure);
        }
        else if i == 9 {
            assert(all_metrics()[9] == BuoyMetric::PressureTendency);
        }
        else if i == 10 {
            assert(all_metrics()[10] == BuoyMetric::AirTemperature);
        }
        else if i == 11 {
            assert(all_metrics()[11] == BuoyMetric::WaterTemperature);
        }
        else if i == 12 {
            assert(all_metrics()[12] == BuoyMetric::Dewpoint);
        }
        else if i == 13 {
            assert(all_metrics()[13] == BuoyMetric::Visibility);
        }
        else if i == 14 {
            assert(all_metrics()[14] == BuoyMetric::Tide);
        }
        else if i == 15 {
            assert(all_metrics()[15] == BuoyMetric::NextHighTideFeet);
        }
        else if i == 16 {
            assert(all_metrics()[16] == BuoyMetric::NextHighTideTimestamp);
        }
        else if i == 17 {
            assert(all_metrics()[17] == BuoyMetric::NextLowTideFeet);
        }
        else if i == 18 {
            assert(all_metrics()[18] == BuoyMetric::NextLowTideTimestamp);
        }
        else if i == 19 {
            assert(all_metrics()[19] == BuoyMetric::Latitude);
        }
        else if i == 20 {
            assert(all_metrics()[20] == BuoyMetric::Longitude);
        }
        else if i == 21 {
            assert(all_metrics()[21] == BuoyMetric::CoOpsLatitude);
        }
        else if i == 22 {
            assert(all_metrics()[22] == BuoyMetric::CoOpsLongitude);
        }
    }
}

/// `all` lists every metric, and none twice: each metric is registered once.
pub proof fn lemma_all_metrics_once(m: BuoyMetric)
    ensures
        all_metrics().contains(m),
        all_metrics().no_duplicates(),
{
    lemma_positions();
    assert(all_metrics()[metric_position(m)] == m);
    assert forall|i: int, j: int|
        0 <= i < all_metrics().len() && 0 <= j < all_metrics().len() && i != j implies all_metrics()[i]
        != all_metrics()[j] by {
        assert(metric_position(all_metrics()[i]) == i);
        assert(metric_position(all_metrics()[j]) == j);
    }
}

// ---------------------------------------------------------------------------
// Updates
// ---------------------------------------------------------------------------

/// The label values `[buoy, buoy_name]`.
pub open spec fn buoy_labels(station_id: Seq<char>, name: Seq<char>) -> LabelValues {
    seq![station_id, name]
}

/// The label values `[buoy, buoy_name, coops_station]`.
pub open spec fn coops_location_labels(station_id: Seq<char>, name: Seq<char>, coops_station: Seq<
    char,
>) -> LabelValues {
    seq![station_id, name, coops_station]
}

/// The value of the station metadata metric.
pub open spec fn one() -> ReadingView {
    ReadingView::Exact(Decimal { mantissa: 1, scale: 0 })
}

/// A whole number as a decimal.
pub open spec fn whole(o: Option<i64>) -> Option<ReadingView> {
    match o {
        Some(t) => Some(ReadingView::Exact(Decimal { mantissa: t, scale: 0 })),
        None => None,
    }
}

/// `m` with `k` set to `o`'s value when there is one, and unchanged otherwise.
pub open spec fn set_if(m: Map<LabelValues, ReadingView>, k: LabelValues, o: Option<ReadingView>) -> Map<
    LabelValues,
    ReadingView,
> {
    match o {
        Some(v) => m.insert(k, v),
        None => m,
    }
}

/// The NDBC reading an observation holds for a metric (none for metrics NDBC
/// does not report).
pub open spec fn ndbc_reading(m: BuoyMetric, obs: BuoyObservation) -> Option<ReadingView> {
    match m {
        BuoyMetric::WindDirection => reading_of(obs.wind_direction_degrees),
        BuoyMetric::WindSpeed => reading_of(obs.wind_speed_mps),
        BuoyMetric::WindGust => reading_of(obs.wind_gust_mps),
        BuoyMetric::WaveHeight => reading_of(obs.wave_height_meters),
        BuoyMetric::DominantWavePeriod => reading_of(obs.dominant_wave_period_secs),
        BuoyMetric::AverageWavePeriod => reading_of(obs.average_wave_period_secs),
        BuoyMetric::WaveDirection => reading_of(obs.wave_direction_degrees),
        BuoyMetric::Pressure => reading_of(obs.pressure_hpa),
        BuoyMetric::PressureTendency => reading_of(obs.pressure_tendency_hpa),
        BuoyMetric::AirTemperature => reading_of(obs.air_temp_celsius),
        BuoyMetric::WaterTemperature => reading_of(obs.water_temp_celsius),
        BuoyMetric::Dewpoint => reading_of(obs.dewpoint_celsius),
        BuoyMetric::Visibility => reading_of(obs.visibility_nmi),
        BuoyMetric::Tide => reading_of(obs.tide_feet),
        _ => None,
    }
}

/// The CO-OPS reading an observation holds for a metric (none for metrics that
/// CO-OPS does not supply).
pub open spec fn coops_reading(m: BuoyMetric, coops: CoOpsObservation) -> Option<ReadingView> {
    match m {
        BuoyMetric::WindDirection => reading_of(coops.wind_direction_degrees),
        BuoyMetric::WindSpeed => reading_of(coops.wind_speed_mps),
        BuoyMetric::WindGust => reading_of(coops.wind_gust_mps),
        BuoyMetric::Pressure => reading_of(coops.pressure_hpa),
        BuoyMetric::AirTemperature => reading_of(coops.air_temp_celsius),
        BuoyMetric::WaterTemperature => reading_of(coops.water_temp_celsius),
        BuoyMetric::Tide => reading_of(coops.tide_feet),
        BuoyMetric::NextHighTideFeet => reading_of(coops.next_high_tide_feet),
        BuoyMetric::NextHighTideTimestamp => whole(coops.next_high_tide_unix),
        BuoyMetric::NextLowTideFeet => reading_of(coops.next_low_tide_feet),
        BuoyMetric::NextLowTideTimestamp => whole(coops.next_low_tide_unix),
        _ => None,
    }
}

/// What `update` does to the values of metric `m` for the label values `k`.
pub open spec fn update_effect(
    m: BuoyMetric,
    values: Map<LabelValues, ReadingView>,
    obs: BuoyObservation,
    k: LabelValues,
) -> Map<LabelValues, ReadingView> {
    if m == BuoyMetric::Station {
        values.insert(k, one())
    } else {
        set_if(values, k, ndbc_reading(m, obs))
    }
}

/// What `apply_coops` does to the values of metric `m` for the label values `k`.
pub open spec fn coops_effect(
    m: BuoyMetric,
    values: Map<LabelValues, ReadingView>,
    coops: CoOpsObservation,
    k: LabelValues,
) -> Map<LabelValues, ReadingView> {
    set_if(values, k, coops_reading(m, coops))
}

/// Holder for the values of the buoy and coastal station metrics.
pub struct BuoyMetrics {
    station: GaugeFamily,
    wind_direction: GaugeFamily,
    wind_speed: GaugeFamily,
    wind_gust: GaugeFamily,
    wave_height: GaugeFamily,
    dominant_wave_period: GaugeFamily,
    average_wave_period: GaugeFamily,
    wave_direction: GaugeFamily,
    pressure: GaugeFamily,
    pressure_tendency: GaugeFamily,
    air_temp: GaugeFamily,
    water_temp: GaugeFamily,
    dewpoint: GaugeFamily,
    visibility: GaugeFamily,
    tide: GaugeFamily,
    next_high_tide_feet: GaugeFamily,
    next_high_tide_timestamp: GaugeFamily,
    next_low_tide_feet: GaugeFamily,
    next_low_tide_timestamp: GaugeFamily,
    latitude: GaugeFamily,
    longitude: GaugeFamily,
    coops_latitude: GaugeFamily,
    coops_longitude: GaugeFamily,
}

fn labels_of(a: &str, b: &str) -> (r: Vec<String>)
    ensures
        r.deep_view() == seq![a@, b@],
{
    let r = vec![a.to_owned(), b.to_owned()];
    assert(r.deep_view() =~= seq![a@, b@]);
    r
}

fn labels_of3(a: &str, b: &str, c: &str) -> (r: Vec<String>)
    ensures
        r.deep_view() == seq![a@, b@, c@],
{
    let r = vec![a.to_owned(), b.to_owned(), c.to_owned()];
    assert(r.deep_view() =~= seq![a@, b@, c@]);
    r
}

fn set_opt(f: &mut GaugeFamily, labels: Vec<String>, o: Option<Reading>)
    requires
        old(f).wf(),
    ensures
        final(f).wf(),
        final(f).view() == set_if(old(f).view(), labels.deep_view(), reading_of(o)),
{
    match o {
        Some(v) => f.set(labels, v),
        None => {},
    }
}

fn whole_value(o: Option<i64>) -> (r: Option<Reading>)
    ensures
        reading_of(r) == whole(o),
{
    match o {
        Some(t) => Some(Reading::Exact(Decimal { mantissa: t, scale: 0 })),
        None => None,
    }
}

impl BuoyMetrics {
    /// The current values of a metric, by label values.
    pub closed spec fn values(&self, m: BuoyMetric) -> Map<LabelValues, ReadingView> {
        self.family_of(m).view()
    }

    closed spec fn family_of(&self, m: BuoyMetric) -> GaugeFamily {
        match m {
            BuoyMetric::Station => self.station,
            BuoyMetric::WindDirection => self.wind_direction,
            BuoyMetric::WindSpeed => self.wind_speed,
            BuoyMetric::WindGust => self.wind_gust,
            BuoyMetric::WaveHeight => self.wave_height,
            BuoyMetric::DominantWavePeriod => self.dominant_wave_period,
            BuoyMetric::AverageWavePeriod => self.average_wave_period,
            BuoyMetric::WaveDirection => self.wave_direction,
            BuoyMetric::Pressure => self.pressure,
            BuoyMetric::PressureTendency => self.pressure_tendency,
            BuoyMetric::AirTemperature => self.air_temp,
            BuoyMetric::WaterTemperature => self.water_temp,
            BuoyMetric::Dewpoint => self.dewpoint,
            BuoyMetric::Visibility => self.visibility,
            BuoyMetric::Tide => self.tide,
            BuoyMetric::NextHighTideFeet => self.next_high_tide_feet,
            BuoyMetric::NextHighTideTimestamp => self.next_high_tide_timestamp,
            BuoyMetric::NextLowTideFeet => self.next_low_tide_feet,
            BuoyMetric::NextLowTideTimestamp => self.next_low_tide_timestamp,
            BuoyMetric::Latitude => self.latitude,
            BuoyMetric::Longitude => self.longitude,
            BuoyMetric::CoOpsLatitude => self.coops_latitude,
            BuoyMetric::CoOpsLongitude => self.coops_longitude,
        }
    }

    /// Every family is well formed.
    pub closed spec fn wf(&self) -> bool {
        &&& self.station.wf()
        &&& self.wind_direction.wf()
        &&& self.wind_speed.wf()
        &&& self.wind_gust.wf()
        &&& self.wave_height.wf()
        &&& self.dominant_wave_period.wf()
        &&& self.average_wave_period.wf()
        &&& self.wave_direction.wf()
        &&& self.pressure.wf()
        &&& self.pressure_tendency.wf()
        &&& self.air_temp.wf()
        &&& self.water_temp.wf()
        &&& self.dewpoint.wf()
        &&& self.visibility.wf()
        &&& self.tide.wf()
        &&& self.next_high_tide_feet.wf()
        &&& self.next_high_tide_timestamp.wf()
        &&& self.next_low_tide_feet.wf()
        &&& self.next_low_tide_timestamp.wf()
        &&& self.latitude.wf()
        &&& self.longitude.wf()
        &&& self.coops_latitude.wf()
        &&& self.coops_longitude.wf()
    }

    /// Metrics with no values yet.
    pub fn new() -> (r: BuoyMetrics)
        ensures
            r.wf(),
            forall|m: BuoyMetric| #[trigger] r.values(m) == Map::<LabelValues, ReadingView>::empty(),
    {
        BuoyMetrics {
            station: GaugeFamily::new(),
            wind_direction: GaugeFamily::new(),
            wind_speed: GaugeFamily::new(),
            wind_gust: GaugeFamily::new(),
            wave_height: GaugeFamily::new(),
            dominant_wave_period: GaugeFamily::new(),
            average_wave_period: GaugeFamily::new(),
            wave_direction: GaugeFamily::new(),
            pressure: GaugeFamily::new(),
            pressure_tendency: GaugeFamily::new(),
            air_temp: GaugeFamily::new(),
            water_temp: GaugeFamily::new(),
            dewpoint: GaugeFamily::new(),
            visibility: GaugeFamily::new(),
            tide: GaugeFamily::new(),
            next_high_tide_feet: GaugeFamily::new(),
            next_high_tide_timestamp: GaugeFamily::new(),
            next_low_tide_feet: GaugeFamily::new(),
            next_low_tide_timestamp: GaugeFamily::new(),
            latitude: GaugeFamily::new(),
            longitude: GaugeFamily::new(),
            coops_latitude: GaugeFamily::new(),
            coops_longitude: GaugeFamily::new(),
        }
    }

    /// The family holding a metric's values.
    pub fn family(&self, m: BuoyMetric) -> (r: &GaugeFamily)
        ensures
            r.view() == self.values(m),
    {
        match m {
            BuoyMetric::Station => &self.station,
            BuoyMetric::WindDirection => &self.wind_direction,
            BuoyMetric::WindSpeed => &self.wind_speed,
            BuoyMetric::WindGust => &self.wind_gust,
            BuoyMetric::WaveHeight => &self.wave_height,
            BuoyMetric::DominantWavePeriod => &self.dominant_wave_period,
            BuoyMetric::AverageWavePeriod => &self.average_wave_period,
            BuoyMetric::WaveDirection => &self.wave_direction,
            BuoyMetric::Pressure => &self.pressure,
            BuoyMetric::PressureTendency => &self.pressure_tendency,
            BuoyMetric::AirTemperature => &self.air_temp,
            BuoyMetric::WaterTemperature => &self.water_temp,
            BuoyMetric::Dewpoint => &self.dewpoint,
            BuoyMetric::Visibility => &self.visibility,
            BuoyMetric::Tide => &self.tide,
            BuoyMetric::NextHighTideFeet => &self.next_high_tide_feet,
            BuoyMetric::NextHighTideTimestamp => &self.next_high_tide_timestamp,
            BuoyMetric::NextLowTideFeet => &self.next_low_tide_feet,
            BuoyMetric::NextLowTideTimestamp => &self.next_low_tide_timestamp,
            BuoyMetric::Latitude => &self.latitude,
            BuoyMetric::Longitude => &self.longitude,
            BuoyMetric::CoOpsLatitude => &self.coops_latitude,
            BuoyMetric::CoOpsLongitude => &self.coops_longitude,
        }
    }

    /// Set the gauge of metric `m` with label values `labels` to `o`'s value, if any.
    fn set_metric(&mut self, m: BuoyMetric, labels: Vec<String>, o: Option<Reading>)
        requires
            old(self).wf(),
        ensures
            final(self).wf(),
            forall|m2: BuoyMetric| #[trigger] final(self).values(m2) == if m2 == m {
                set_if(old(self).values(m2), labels.deep_view(), reading_of(o))
            } else {
                old(self).values(m2)
            },
    {
        match m {
            BuoyMetric::Station => set_opt(&mut self.station, labels, o),
            BuoyMetric::WindDirection => set_opt(&mut self.wind_direction, labels, o),
            BuoyMetric::WindSpeed => set_opt(&mut self.wind_speed, labels, o),
            BuoyMetric::WindGust => set_opt(&mut self.wind_gust, labels, o),
            BuoyMetric::WaveHeight => set_opt(&mut self.wave_height, labels, o),
            BuoyMetric::DominantWavePeriod => set_opt(&mut self.dominant_wave_period, labels, o),
            BuoyMetric::AverageWavePeriod => set_opt(&mut self.average_wave_period, labels, o),
            BuoyMetric::WaveDirection => set_opt(&mut self.wave_direction, labels, o),
            BuoyMetric::Pressure => set_opt(&mut self.pressure, labels, o),
            BuoyMetric::PressureTendency => set_opt(&mut self.pressure_tendency, labels, o),
            BuoyMetric::AirTemperature => set_opt(&mut self.air_temp, labels, o),
            BuoyMetric::WaterTemperature => set_opt(&mut self.water_temp, labels, o),
            BuoyMetric::Dewpoint => set_opt(&mut self.dewpoint, labels, o),
            BuoyMetric::Visibility => set_opt(&mut self.visibility, labels, o),
            BuoyMetric::Tide => set_opt(&mut self.tide, labels, o),
            BuoyMetric::NextHighTideFeet => set_opt(&mut self.next_high_tide_feet, labels, o),
            BuoyMetric::NextHighTideTimestamp => set_opt(&mut self.next_high_tide_timestamp, labels, o),
            BuoyMetric::NextLowTideFeet => set_opt(&mut self.next_low_tide_feet, labels, o),
            BuoyMetric::NextLowTideTimestamp => set_opt(&mut self.next_low_tide_timestamp, labels, o),
            BuoyMetric::Latitude => set_opt(&mut self.latitude, labels, o),
            BuoyMetric::Longitude => set_opt(&mut self.longitude, labels, o),
            BuoyMetric::CoOpsLatitude => set_opt(&mut self.coops_latitude, labels, o),
            BuoyMetric::CoOpsLongitude => set_opt(&mut self.coops_longitude, labels, o),
        }
    }

    /// Update the metrics from the most recent observation of a buoy or coastal
    /// station: the station metric is set to 1 and every reading the
    /// observation has is set, under the labels `[obs.station_id, name]`.
    /// `name` is the station's friendly name, or an empty string if not known.
    pub fn update(&mut self, obs: &BuoyObservation, name: &str)
        requires
            old(self).wf(),
        ensures
            final(self).wf(),
            forall|m: BuoyMetric|
                #[trigger] final(self).values(m) == update_effect(
                    m,
                    old(self).values(m),
                    *obs,
                    buoy_labels(obs.station_id@, name@),
                ),
    {
        let id = obs.station_id.as_str();
        self.set_metric(BuoyMetric::Station, labels_of(id, name), Some(Reading::Exact(Decimal { mantissa: 1, scale: 0 })));
        self.set_metric(BuoyMetric::WindDirection, labels_of(id, name), duplicate_opt(&obs.wind_direction_degrees));
        self.set_metric(BuoyMetric::WindSpeed, labels_of(id, name), duplicate_opt(&obs.wind_speed_mps));
        self.set_metric(BuoyMetric::WindGust, labels_of(id, name), duplicate_opt(&obs.wind_gust_mps));
        self.set_metric(BuoyMetric::WaveHeight, labels_of(id, name), duplicate_opt(&obs.wave_height_meters));
        self.set_metric(BuoyMetric::DominantWavePeriod, labels_of(id, name), duplicate_opt(&obs.dominant_wave_period_secs));
        self.set_metric(BuoyMetric::AverageWavePeriod, labels_of(id, name), duplicate_opt(&obs.average_wave_period_secs));
        self.set_metric(BuoyMetric::WaveDirection, labels_of(id, name), duplicate_opt(&obs.wave_direction_degrees));
        self.set_metric(BuoyMetric::Pressure, labels_of(id, name), duplicate_opt(&obs.pressure_hpa));
        self.set_metric(BuoyMetric::PressureTendency, labels_of(id, name), duplicate_opt(&obs.pressure_tendency_hpa));
        self.set_metric(BuoyMetric::AirTemperature, labels_of(id, name), duplicate_opt(&obs.air_temp_celsius));
        self.set_metric(BuoyMetric::WaterTemperature, labels_of(id, name), duplicate_opt(&obs.water_temp_celsius));
        self.set_metric(BuoyMetric::Dewpoint, labels_of(id, name), duplicate_opt(&obs.dewpoint_celsius));
        self.set_metric(BuoyMetric::Visibility, labels_of(id, name), duplicate_opt(&obs.visibility_nmi));
        self.set_metric(BuoyMetric::Tide, labels_of(id, name), duplicate_opt(&obs.tide_feet));
    }

    /// Override readings with the NOAA CO-OPS ones, and set the tide prediction
    /// metrics, under the labels `[station_id, name]`.  Readings CO-OPS does not
    /// have are left as they were.
    pub fn apply_coops(&mut self, station_id: &str, name: &str, coops: &CoOpsObservation)
        requires
            old(self).wf(),
        ensures
            final(self).wf(),
            forall|m: BuoyMetric|
                #[trigger] final(self).values(m) == coops_effect(
                    m,
                    old(self).values(m),
                    *coops,
                    buoy_labels(station_id@, name@),
                ),
    {
        set_opt(&mut self.wind_direction, labels_of(station_id, name), duplicate_opt(&coops.wind_direction_degrees));
        set_opt(&mut self.wind_speed, labels_of(station_id, name), duplicate_opt(&coops.wind_speed_mps));
        set_opt(&mut self.wind_gust, labels_of(station_id, name), duplicate_opt(&coops.wind_gust_mps));
        set_opt(&mut self.pressure, labels_of(station_id, name), duplicate_opt(&coops.pressure_hpa));
        set_opt(&mut self.air_temp, labels_of(station_id, name), duplicate_opt(&coops.air_temp_celsius));
        set_opt(&mut self.water_temp, labels_of(station_id, name), duplicate_opt(&coops.water_temp_celsius));
        set_opt(&mut self.tide, labels_of(station_id, name), duplicate_opt(&coops.tide_feet));
        set_opt(
            &mut self.next_high_tide_feet,
            labels_of(station_id, name),
            duplicate_opt(&coops.next_high_tide_feet),
        );
        set_opt(
            &mut self.next_high_tide_timestamp,
            labels_of(station_id, name),
            whole_value(coops.next_high_tide_unix),
        );
        set_opt(&mut self.next_low_tide_feet, labels_of(station_id, name), duplicate_opt(&coops.next_low_tide_feet));
        set_opt(
            &mut self.next_low_tide_timestamp,
            labels_of(station_id, name),
            whole_value(coops.next_low_tide_unix),
        );
    }

    /// Set the station's own coordinates.
    pub fn set_location(&mut self, station_id: &str, name: &str, lat: Reading, lon: Reading)
        requires
            old(self).wf(),
        ensures
            final(self).wf(),
            forall|m: BuoyMetric| #[trigger]
                final(self).values(m) == if m == BuoyMetric::Latitude {
                    old(self).values(m).insert(buoy_labels(station_id@, name@), lat@)
                } else if m == BuoyMetric::Longitude {
                    old(self).values(m).insert(buoy_labels(station_id@, name@), lon@)
                } else {
                    old(self).values(m)
                },
    {
        self.latitude.set(labels_of(station_id, name), lat);
        self.longitude.set(labels_of(station_id, name), lon);
    }

    /// Set the coordinates of the CO-OPS tide station matched to this buoy.
    pub fn set_coops_location(
        &mut self,
        station_id: &str,
        name: &str,
        coops_station: &str,
        lat: Reading,
        lon: Reading,
    )
        requires
            old(self).wf(),
        ensures
            final(self).wf(),
            forall|m: BuoyMetric| #[trigger]
                final(self).values(m) == if m == BuoyMetric::CoOpsLatitude {
                    old(self).values(m).insert(
                        coops_location_labels(station_id@, name@, coops_station@),
                        lat@,
                    )
                } else if m == BuoyMetric::CoOpsLongitude {
                    old(self).values(m).insert(
                        coops_location_labels(station_id@, name@, coops_station@),
                        lon@,
                    )
                } else {
                    old(self).values(m)
                },
    {
        self.coops_latitude.set(labels_of3(station_id, name, coops_station), lat);
        self.coops_longitude.set(labels_of3(station_id, name, coops_station), lon);
    }
}

// ---------------------------------------------------------------------------
// Laws
// ---------------------------------------------------------------------------

/// When a buoy's CO-OPS observation is applied after its NDBC observation
/// (`update` then `apply_coops` with the same station and name), every metric but
/// the station metadata holds the CO-OPS reading when CO-OPS has one, otherwise
/// the NDBC reading, otherwise what it held before; the values of every other
/// label set are untouched.
pub proof fn lemma_coops_takes_precedence(
    m: BuoyMetric,
    before: Map<LabelValues, ReadingView>,
    obs: BuoyObservation,
    name: Seq<char>,
    coops: CoOpsObservation,
)
    requires
        m != BuoyMetric::Station,
    ensures
        ({
            let k = buoy_labels(obs.station_id@, name);
            let after = coops_effect(m, update_effect(m, before, obs, k), coops, k);
            &&& coops_reading(m, coops) is Some ==> after.contains_key(k) && after[k]
                == coops_reading(m, coops)->0
            &&& coops_reading(m, coops) is None && ndbc_reading(m, obs) is Some
                ==> after.contains_key(k) && after[k] == ndbc_reading(m, obs)->0
            &&& coops_reading(m, coops) is None && ndbc_reading(m, obs) is None ==> after
                == before
            &&& forall|k2: LabelValues|
                k2 != k ==> (#[trigger] after.contains_key(k2) == before.contains_key(k2)
                    && after[k2] == before[k2])
        }),
{
}

/// An NDBC observation never touches the tide prediction metrics (nor the
/// location metrics): those are set only by CO-OPS observations and the
/// location setters.
pub proof fn lemma_update_leaves_predictions(
    m: BuoyMetric,
    before: Map<LabelValues, ReadingView>,
    obs: BuoyObservation,
    k: LabelValues,
)
    requires
        m == BuoyMetric::NextHighTideFeet || m == BuoyMetric::NextHighTideTimestamp || m
            == BuoyMetric::NextLowTideFeet || m == BuoyMetric::NextLowTideTimestamp || m
            == BuoyMetric::Latitude || m == BuoyMetric::Longitude || m == BuoyMetric::CoOpsLatitude
            || m == BuoyMetric::CoOpsLongitude,
    ensures
        update_effect(m, before, obs, k) == before,
{
}

/// After an update the station metadata metric of that station is 1, whatever
/// the observation holds; so a station metric whose values are all 1 keeps
/// them so.
pub proof fn lemma_station_metric_is_one(
    before: Map<LabelValues, ReadingView>,
    obs: BuoyObservation,
    k: LabelValues,
)
    ensures
        update_effect(BuoyMetric::Station, before, obs, k).contains_key(k),
        update_effect(BuoyMetric::Station, before, obs, k)[k] == one(),
        (forall|k2: LabelValues| #[trigger] before.contains_key(k2) ==> before[k2] == one()) ==> (
        forall|k2: LabelValues| #[trigger]
            update_effect(BuoyMetric::Station, before, obs, k).contains_key(k2) ==> update_effect(
                BuoyMetric::Station,
                before,
                obs,
                k,
            )[k2] == one()),
{
}

/// What an update does to each metric, field by field of the observation:
/// under the labels `k` the station metric is set to 1 and each reading metric
/// takes the observation's field of the same name when it has a value; the
/// prediction and location metrics are left as they were.
pub proof fn lemma_update_fields(values: Map<LabelValues, ReadingView>, obs: BuoyObservation, k: LabelValues)
    ensures
        update_effect(BuoyMetric::Station, values, obs, k) == values.insert(
            k,
            ReadingView::Exact(Decimal { mantissa: 1, scale: 0 }),
        ),
        update_effect(BuoyMetric::WindDirection, values, obs, k) == set_if(values, k, reading_of(obs.wind_direction_degrees)),
        update_effect(BuoyMetric::WindSpeed, values, obs, k) == set_if(values, k, reading_of(obs.wind_speed_mps)),
        update_effect(BuoyMetric::WindGust, values, obs, k) == set_if(values, k, reading_of(obs.wind_gust_mps)),
        update_effect(BuoyMetric::WaveHeight, values, obs, k) == set_if(values, k, reading_of(obs.wave_height_meters)),
        update_effect(BuoyMetric::DominantWavePeriod, values, obs, k) == set_if(values, k, reading_of(obs.dominant_wave_period_secs)),
        update_effect(BuoyMetric::AverageWavePeriod, values, obs, k) == set_if(values, k, reading_of(obs.average_wave_period_secs)),
        update_effect(BuoyMetric::WaveDirection, values, obs, k) == set_if(values, k, reading_of(obs.wave_direction_degrees)),
        update_effect(BuoyMetric::Pressure, values, obs, k) == set_if(values, k, reading_of(obs.pressure_hpa)),
        update_effect(BuoyMetric::PressureTendency, values, obs, k) == set_if(values, k, reading_of(obs.pressure_tendency_hpa)),
        update_effect(BuoyMetric::AirTemperature, values, obs, k) == set_if(values, k, reading_of(obs.air_temp_celsius)),
        update_effect(BuoyMetric::WaterTemperature, values, obs, k) == set_if(values, k, reading_of(obs.water_temp_celsius)),
        update_effect(BuoyMetric::Dewpoint, values, obs, k) == set_if(values, k, reading_of(obs.dewpoint_celsius)),
        update_effect(BuoyMetric::Visibility, values, obs, k) == set_if(values, k, reading_of(obs.visibility_nmi)),
        update_effect(BuoyMetric::Tide, values, obs, k) == set_if(values, k, reading_of(obs.tide_feet)),
        update_effect(BuoyMetric::NextHighTideFeet, values, obs, k) == values,
        update_effect(BuoyMetric::NextHighTideTimestamp, values, obs, k) == values,
        update_effect(BuoyMetric::NextLowTideFeet, values, obs, k) == values,
        update_effect(BuoyMetric::NextLowTideTimestamp, values, obs, k) == values,
        update_effect(BuoyMetric::Latitude, values, obs, k) == values,
        update_effect(BuoyMetric::Longitude, values, obs, k) == values,
        update_effect(BuoyMetric::CoOpsLatitude, values, obs, k) == values,
        update_effect(BuoyMetric::CoOpsLongitude, values, obs, k) == values,
{
}

/// What applying a CO-OPS observation does to each metric, field by field:
/// under the labels `k` each metric that CO-OPS supplies takes the CO-OPS field
/// of the same name when it has a value (the tide timestamps as whole numbers
/// of seconds); every other metric is left as it was.
pub proof fn lemma_apply_coops_fields(values: Map<LabelValues, ReadingView>, coops: CoOpsObservation, k: LabelValues)
    ensures
        coops_effect(BuoyMetric::WindDirection, values, coops, k) == set_if(values, k, reading_of(coops.wind_direction_degrees)),
        coops_effect(BuoyMetric::WindSpeed, values, coops, k) == set_if(values, k, reading_of(coops.wind_speed_mps)),
        coops_effect(BuoyMetric::WindGust, values, coops, k) == set_if(values, k, reading_of(coops.wind_gust_mps)),
        coops_effect(BuoyMetric::Pressure, values, coops, k) == set_if(values, k, reading_of(coops.pressure_hpa)),
        coops_effect(BuoyMetric::AirTemperature, values, coops, k) == set_if(values, k, reading_of(coops.air_temp_celsius)),
        coops_effect(BuoyMetric::WaterTemperature, values, coops, k) == set_if(values, k, reading_of(coops.water_temp_celsius)),
        coops_effect(BuoyMetric::Tide, values, coops, k) == set_if(values, k, reading_of(coops.tide_feet)),
        coops_effect(BuoyMetric::NextHighTideFeet, values, coops, k) == set_if(values, k, reading_of(coops.next_high_tide_feet)),
        coops_effect(BuoyMetric::NextLowTideFeet, values, coops, k) == set_if(values, k, reading_of(coops.next_low_tide_feet)),
        coops_effect(BuoyMetric::NextHighTideTimestamp, values, coops, k) == set_if(
            values,
            k,
            match coops.next_high_tide_unix {
                Some(t) => Some(ReadingView::Exact(Decimal { mantissa: t, scale: 0 })),
                None => None,
            },
        ),
        coops_effect(BuoyMetric::NextLowTideTimestamp, values, coops, k) == set_if(
            values,
            k,
            match coops.next_low_tide_unix {
                Some(t) => Some(ReadingView::Exact(Decimal { mantissa: t, scale: 0 })),
                None => None,
            },
        ),
        coops_effect(BuoyMetric::Station, values, coops, k) == values,
        coops_effect(BuoyMetric::WaveHeight, values, coops, k) == values,
        coops_effect(BuoyMetric::DominantWavePeriod, values, coops, k) == values,
        coops_effect(BuoyMetric::AverageWavePeriod, values, coops, k) == values,
        coops_effect(BuoyMetric::WaveDirection, values, coops, k) == values,
        coops_effect(BuoyMetric::PressureTendency, values, coops, k) == values,
        coops_effect(BuoyMetric::Dewpoint, values, coops, k) == values,
        coops_effect(BuoyMetric::Visibility, values, coops, k) == values,
        coops_effect(BuoyMetric::Latitude, values, coops, k) == values,
        coops_effect(BuoyMetric::Longitude, values, coops, k) == values,
        coops_effect(BuoyMetric::CoOpsLatitude, values, coops, k) == values,
        coops_effect(BuoyMetric::CoOpsLongitude, values, coops, k) == values,
{
}

/// Buoy metrics are labelled `[buoy, buoy_name]` in that order, and the CO-OPS
/// location metrics `[buoy, buoy_name, coops_station]`.
pub proof fn lemma_label_order(station_id: Seq<char>, name: Seq<char>, coops_station: Seq<char>)
    ensures
        buoy_labels(station_id, name).len() == 2,
        buoy_labels(station_id, name)[0] == station_id,
        buoy_labels(station_id, name)[1] == name,
        coops_location_labels(station_id, name, coops_station).len() == 3,
        coops_location_labels(station_id, name, coops_station)[0] == station_id,
        coops_location_labels(station_id, name, coops_station)[1] == name,
        coops_location_labels(station_id, name, coops_station)[2] == coops_station,
{
}

} // verus!
