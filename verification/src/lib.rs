//! Market-data building blocks for yield-curve and FX calibration:
//! declarative curve definitions and their conversion into bootstrap
//! instruments, the dependency order of a multi-curve build and the curve
//! set it produces, business-day date arithmetic, solver and curve
//! settings, cache keys and statistics, and the error vocabulary of the
//! curve engine and of market data.

pub mod seq_facts;
pub mod rate_index;
pub mod bootstrap_config;
pub mod engine_error;
pub mod multi_curve;
pub mod date_utils;
pub mod curves;
pub mod convention;
pub mod text;
pub mod definition;
pub mod adapter;
pub mod engine;
pub mod result_cache;
pub mod market_error;
pub mod index_mapper;
pub mod fx_curves;
pub mod fx_calibration;
pub mod curve_config;
pub mod global_bootstrapper;
pub mod keyed;
pub mod curve_set;
