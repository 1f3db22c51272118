# wictk

The decision logic of WICTK (Weather Is Cool To Know) — a backend serving
nowcasts, lightning, alerts and earthquakes, a client logger that exports them
to HEMRS, and a notifier that turns weather alerts into ntfy notifications —
written in Verus, with the I/O around it in ordinary Rust.

## Layout

- `src/` — the verified library.
  - `backend/` — validation of the earthquake endpoint's query
    (`earthquake_query`), the choice and order of the earthquakes it answers
    with (`earthquake_selection`), which alerts hold a requested place
    (`alerts`), how endpoints read a location (`locations`), error answers
    (`errors`) and the service's settings.
  - `feeds/` — the checks the USGS earthquake feed and its events must pass,
    the feed's names for alert levels and statuses, and which events of the
    lightning feed become strikes.
  - `notifier/` — notifications, the record of what was sent to each topic,
    the publish request and how its answer is taken in (an alert is recorded
    only once the service accepted it, and is then never published to that
    topic again), and the notifier's settings.
  - `client_logger/` — the client logger's command line, its sensors, the
    URLs it requests, and the HEMRS export: under which sensor, time and
    device each reading of a nowcast, a lightning batch or an alert count is
    stored.
  - `log_level.rs`, `http.rs`, `text.rs` — log levels, HTTP statuses, and text
    primitives (string equality, byte order, trimming, concatenation).
  - `external.rs` — the outside type the library carries (`reqwest::Client`)
    and the trusted wrappers around chrono's timestamp conversions.
- `tests/` — tests of the library.
- `app/` — HTTP requests (the HEMRS posts among them, which pair each of the
  library's slots with its reading), JSON decoding, clap command lines,
  logging, and the floating-point geometry (point in polygon, great-circle distance) whose
  results the library takes as flags.
