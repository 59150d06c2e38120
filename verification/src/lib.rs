//! A pull-based metrics bridge for a SoftEther VPN server: the verified core
//! that decides, for every scrape, which gauges are written and what is
//! answered.

pub mod config;
pub mod exporter;
pub mod family;
pub mod http;
pub mod hub;
pub mod laws;
pub mod model;
pub mod refresh;
pub mod registry;
pub mod sample;
pub mod system;

pub use config::{Config, Hub, Settings};
pub use exporter::Exporter;
pub use registry::MetricRegistry;
