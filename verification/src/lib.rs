//! Data acquisition and normalization for a single-location weather-hazard
//! dashboard: risk and forecast decoding, outlook selection and the per-fetch
//! state that feeds the view.

pub mod display;
pub mod error;
pub mod fetch;
pub mod forecast_codec;
pub mod hazard;
pub mod outlook;
pub mod risk_codec;
pub mod store;
