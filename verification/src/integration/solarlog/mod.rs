//! The solar-inverter monitoring device.
pub mod client;
pub mod error;
pub mod http_client;
pub mod status;

pub use client::Client;
pub use error::{Error, ErrorModel};
pub use status::{InverterStatus, StatusClass, UnknownStatus};
