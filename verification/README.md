# pricer_models

Market-data building blocks for yield-curve and FX calibration, written in
Verus: every function in `src/` carries a contract that the verifier proves.

- `src/` — the verified library: curve definitions (`definition`), their
  conversion into bootstrap instruments (`adapter`), the dependency graph of
  a multi-curve build and the assembled curve set (`multi_curve`,
  `curve_set`, `keyed`), business-day arithmetic (`date_utils`), solver and
  curve settings (`bootstrap_config`, `curve_config`, `global_bootstrapper`),
  cache keys and statistics (`result_cache`), and error types.
  Floating-point settings and error fields are carried as `f64` bit patterns.
- `app/` — ordinary Rust around the library: the floating-point curve
  mathematics, the thread-safe LRU cache of built curves, JSON loading and
  saving of curve definitions, and printable error types.
- `tests/` — tests of the library.
