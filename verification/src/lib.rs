//! Orchestration core of a USB/IP device simulator: the keepalive timeout
//! tracker, the signal channel that wakes the service, the service driver,
//! command routing to applications, and the runner's configuration.
//!
//! Nothing here touches a bus, a clock or a thread. The loops that do hand
//! this crate plain values and act on what it decides.

pub mod dispatch;
pub mod keepalive;
pub mod options;
pub mod runner;
pub mod service;
pub mod signal;
pub mod timeout;

pub use dispatch::{AppError, Capabilities, Protocol, Registry};
pub use keepalive::{keepalive, map_status, set_waiting, Status, UserPresence};
pub use options::{build_device, DeviceDescription, Options};
pub use runner::{Builder, Runner};
pub use service::{driver_step, DriverAction};
pub use signal::SignalChannel;
pub use timeout::Timeout;
