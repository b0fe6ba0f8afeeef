# meteo_station

The verified core of the MeteoStation weather-station tools: a BMP388
barometer driver, a terminal dashboard fed by BLE advertisements, and a web
dashboard backed by minute buckets in SQLite.

## Layout

- `src/` — the library, verified with Verus. Every public function states
  what it returns in its `ensures`; the `lemma_*` proof functions state the
  properties that relate several calls.
  - `barometer`, `calib` — the barometer driver as a state machine, and the
    decoding of its calibration block and raw samples.
  - `connection` — one BLE connection cycle of the terminal feed as a state
    machine.
  - `frame`, `link`, `model`, `clock`, `keys` — selecting station frames,
    the dashboard's link state and frame de-duplication, signal state,
    uptime labels and quit keys.
  - `minute`, `window`, `selection`, `live` — minute bucketing, history time
    windows and their bucket ladder, the web time selector, and the live
    badge.
  - `series`, `metric`, `theme`, `geometry`, `iterm2`, `image_cache`,
    `text` — the capped chart series, comparison metrics, colour rules and
    palette, image geometry, the iTerm2 inline-image escape, the per-panel
    chart image cache, and text building.
- `tests/` — tests of the library on concrete values.
- `app/` — ordinary Rust around the library: the loops that drive the two
  state machines, floating-point measures and compensation, terminal and colour
  conversions, the minute accumulator and the SQLite store.

Outside crates are called from `src/` only through the few `external_body`
wrappers in `iterm2` (base64, image), `selection` (chrono) and `text`
(`String::push`); each states in its doc comment what it assumes.
