//! Builds a one-line weather summary (current conditions, forecast, trend)
//! for a desktop status bar.
pub mod json;
pub mod types;
pub mod weather;
