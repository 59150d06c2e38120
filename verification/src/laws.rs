//! What holds of the exporter as a whole: the laws that relate the catalog,
//! the collectors, the registry and the serving loop.

pub mod catalog;
pub mod host;
pub mod hubs;
pub mod registry;
pub mod serving;
