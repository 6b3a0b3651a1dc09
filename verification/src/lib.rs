//! Health and cadence monitoring for a fixed-tick-rate server.
//!
//! Time is counted in whole nanoseconds since an epoch that the host chooses,
//! and every fraction is held in parts per million, so that each rule of the
//! monitor is stated, and proved, over the integers.

pub mod cadence;
pub mod extrema;
pub mod fraction;
pub mod gauges;
pub mod health;
pub mod options;

pub use cadence::{ConfigError, TickPeriod};
pub use extrema::ContinuousExtremaMetricAccumulator;
pub use fraction::Fraction;
pub use gauges::{ProbeReading, TransportCounters};
pub use health::Health;
pub use options::{LevelFilter, Options, ServerId, ServerKind, ServerNumber};
