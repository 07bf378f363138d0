//! Air-quality helpers for a chat bot that reports PurpleAir sensor data.
//!
//! The crate turns raw PM2.5 concentration readings into Air Quality Index
//! values by piecewise-linear interpolation over the EPA breakpoint table,
//! decodes the provider's JSON payload (whose `Stats` member is itself a JSON
//! document serialized as a string), and builds the textual replies the bot
//! sends.  All numeric work is done in fixed-point integers: concentrations
//! are carried in thousandths of a microgram per cubic metre, AQI values in
//! tenths of a point.

pub mod aqi;
pub mod decode;
pub mod json;
pub mod reply;
