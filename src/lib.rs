//! A client for a service registry and configuration center: instance
//! registration with an adaptive heartbeat, load-balanced address
//! resolution, and change detection on stored configuration.
pub mod api;
pub mod client;
pub mod error;
pub mod heartbeat;
pub mod model;
pub mod options;
pub mod query;
pub mod selector;
pub mod text;
pub mod watch;

pub use api::{NacosConfigApi, NacosServiceApi};
pub use client::{NacosClient, NacosConfigClient};
pub use model::{DeployConfig, NacosConfig, ServerConfig};
