//! Heartbeat reporter: pushes the host's CPU and memory load to a status
//! page on a fixed schedule.
//!
//! The library holds the logic: the builder that freezes a reporter's
//! configuration, the report target and credential derived from it, the
//! report schedule as a state machine, and the classification of a
//! delivery's outcome. Sleeping, sampling the host and sending requests are
//! left to the caller, which drives the schedule.

pub mod interval;
pub mod load;
pub mod manager;
pub mod reporter;
pub mod schedule;

pub use interval::{Interval, NANOS_PER_SEC};
pub use load::cpu_load_divisor;
pub use manager::{authorization_header, delivery_event, report_url, ReporterManager, USER_AGENT};
pub use reporter::{MissingField, Reporter, ReporterBuilder, DEFAULT_INTERVAL_SECS};
pub use schedule::{Action, Event, Phase, Schedule, STARTUP_DELAY_SECS};
