//! Verified core of a Prometheus exporter for NOAA weather data: feed parsing,
//! request URLs, and the bookkeeping of exported metric values.

pub mod buoy_client;
pub mod buoy_metrics;
pub mod coops_client;
pub mod decimal;
pub mod gauge;
pub mod tasks;
pub mod text;
pub mod water_client;
pub mod water_metrics;
pub mod web;
