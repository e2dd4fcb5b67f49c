//! Activity counting and multi-monitor screen capture: the verified core of a
//! desktop companion's telemetry subsystem.

pub mod counters;
pub mod frame;
pub mod error;
pub mod compose;
pub mod encode;
pub mod capture;
pub mod events;
pub mod supervisor;
