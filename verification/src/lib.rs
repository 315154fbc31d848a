//! A bridge between a host and an inertial sensor: the registers and burst
//! frames of the sensor, the messages and frames of the serial link, the
//! session of the host and the machine of the device. The library decides
//! and computes; ports, buses and clocks belong to its callers.

pub mod args;
pub mod bounded;
pub mod burst;
pub mod burstmem;
pub mod cfg;
pub mod config;
pub mod diagstat;
pub mod driver;
pub mod firmware;
pub mod framing;
pub mod memorymap;
pub mod message;
pub mod msc_ctrl;
pub mod version;
pub mod wire;
