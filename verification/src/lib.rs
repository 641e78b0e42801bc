//! Host snapshot: the verified rules that turn raw operating-system
//! telemetry (identity, CPU, memory, disks) into one immutable record,
//! together with two small greeting commands.
//!
//! The library reads nothing itself. Whoever samples the host fills a
//! `HostReadings` and hands it to `SystemInfo::from_readings`.

pub mod greeting;
pub mod laws;
pub mod snapshot;

pub use greeting::{greet, hello_world};
pub use snapshot::{DiskSpace, HostReadings, SystemInfo};
