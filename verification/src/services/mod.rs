//! The synchronization engine.
pub mod solar;
pub mod solarbridge;
pub mod ticker;

pub use solar::SolarService;
pub use solarbridge::SolarBridgeBackgroundService;
pub use ticker::Ticker;
