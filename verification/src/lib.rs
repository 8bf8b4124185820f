//! Bridge between a solar-inverter monitoring device and a home-automation hub.
//!
//! The crate holds the decisions of the bridge: every network exchange is
//! described as a step that a caller performs and reports back.
pub mod breaker;
pub mod config;
pub mod day;
pub mod http;
pub mod integration;
pub mod json;
pub mod resilience;
pub mod retry;
pub mod services;
pub mod text;
