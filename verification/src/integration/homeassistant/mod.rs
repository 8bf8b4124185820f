//! The home-automation hub.
pub mod client;
pub mod error;
pub mod http_client;
pub mod schemas;

pub use client::Client;
pub use error::{Error, ErrorModel};
