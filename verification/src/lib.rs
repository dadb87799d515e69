//! Telemetry from environmental sensor beacons: which broadcast sources are
//! being processed, what each of their events means, and which counters and
//! gauges a decoded payload sets.
//!
//! Nothing here waits, reads or sends. The caller scans, subscribes and
//! has payloads decoded; it hands over what it found and is told what to
//! do next, and it publishes what a [`metrics::Metrics`] has recorded.
//!
//! - [`registry`]: the sources that are active, each admitted once.
//! - [`bluetooth`]: what follows from a device found or lost and from each
//!   event of a device.
//! - [`reading`]: decoded payloads and the readings of each format.
//! - [`ruuvi`]: what is recorded of a decoded payload.
//! - [`metrics`]: the series and the record of their updates.
//! - [`derived`]: the air quality index.
//! - [`address`]: addresses and payloads as text.
//! - [`config`]: the settings of the process.

pub mod address;
pub mod bluetooth;
pub mod config;
pub mod derived;
pub mod metrics;
pub mod reading;
pub mod registry;
pub mod ruuvi;
