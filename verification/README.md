# nws_exporter

A Prometheus exporter for NOAA water gauge levels and NOAA NDBC buoy and
coastal station observations, with the data handling written in Verus and
proved against its contracts.

## Layout

- `src/` is the verified library.
  - `buoy_client`: the NDBC realtime2 text feed (finding the latest
    observation line and reading its columns), observation URLs, and the
    meaning of an HTTP status.
  - `coops_client`: CO-OPS request URLs, reading decoded product responses,
    picking the next high and low tide, and picking the nearest station.
  - `water_client`: NWPS gauge URLs, statuses and the gauge response types.
  - `buoy_metrics`, `water_metrics`: the metric catalogues and what each
    observation does to the metric values, over `gauge::GaugeFamily`, a map
    from label values to a value.
  - `decimal`: readings: numbers read as `f64::from_str` reads them, held
    exactly as decimals or, where a decimal cannot hold them, as written.
  - `tasks`: the passes of the periodic update tasks (which ID to fetch next,
    and what a failed fetch means).
  - `text`, `web`: text helpers, and the calls into `reqwest`/`url`.
- `app/` is the program around it: command line, HTTP requests and JSON
  decoding, Prometheus registration and the metrics endpoint, and the
  floating-point distance computation.
- `tests/` runs the library on concrete inputs.
