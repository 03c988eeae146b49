use nws_exporter::buoy_client::BuoyClient;
use nws_exporter::buoy_metrics::BuoyMetrics;
use nws_exporter::tasks::{BuoyUpdateTask, Pass, PassKind, PassStep, WeatherUpdateTask};
use std::time::Duration;
use vstd::hash_map::StringHashMap;

fn run(kind: PassKind, total: usize, results: &[bool]) -> (Vec<usize>, PassStep) {
    let mut pass = Pass::start(kind, total);
    let mut fetched = Vec::new();
    let mut results = results.iter();
    loop {
        match pass.step() {
            PassStep::Fetch(i) => {
                fetched.push(i);
                pass.record(*results.next().unwrap());
            }
            step => return (fetched, step),
        }
    }
}

#[test]
fn refresh_pass_visits_every_id() {
    assert_eq!(run(PassKind::Refresh, 3, &[true, false, true]), (vec![0, 1, 2], PassStep::Done));
    assert_eq!(run(PassKind::Refresh, 0, &[]), (vec![], PassStep::Done));
}

#[test]
fn initialize_pass_stops_at_first_failure() {
    assert_eq!(run(PassKind::Initialize, 3, &[true, false, true]), (vec![0, 1], PassStep::Failed));
    assert_eq!(run(PassKind::Initialize, 2, &[true, true]), (vec![0, 1], PassStep::Done));
}

#[test]
fn buoy_task_names() {
    let mut names = StringHashMap::new();
    names.insert("45186".to_string(), "Waukegan Buoy, IL".to_string());
    let client = BuoyClient::new(reqwest::Client::new(), "https://www.ndbc.noaa.gov/data/realtime2/").unwrap();
    let task = BuoyUpdateTask::new(vec!["45186".to_string()], BuoyMetrics::new(), client, names, Duration::from_secs(300));
    assert_eq!(task.name_for("45186"), "Waukegan Buoy, IL");
    assert_eq!(task.name_for("SDBC1"), "");
    assert_eq!(task.interval, Duration::from_secs(300));
}

#[test]
fn weather_task_holds_its_parts() {
    let task = WeatherUpdateTask::new(vec!["KBOS".to_string()], 1u8, "client", Duration::from_secs(60));
    assert_eq!(task.stations, vec!["KBOS".to_string()]);
    assert_eq!(task.metrics, 1u8);
    assert_eq!(task.client, "client");
}
