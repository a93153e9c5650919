//! Windowed build-outcome gauges for a set of continuous-integration jobs.

pub mod cycle;
pub mod history;
pub mod naming;
pub mod reducer;
pub mod registry;
pub mod request;
pub mod scheduler;
pub mod snapshot;
