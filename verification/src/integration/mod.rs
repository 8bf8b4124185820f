//! The two endpoints that the bridge talks to.
pub mod homeassistant;
pub mod solarlog;
