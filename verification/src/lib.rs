//! Metrics pipeline of a system-vitals dashboard: rate computation from
//! cumulative counters, process ranking, the sampling step and the bounded
//! histories that feed the charts. All quantities are integers in fixed-point
//! units, so that every function here has an exact contract.

pub mod channel;
pub mod charts;
pub mod config;
pub mod enhanced;
pub mod navigation;
pub mod pinned;
pub mod pinned_file;
pub mod ranking;
pub mod rate;
pub mod system;
pub mod text;
pub mod theme;
pub mod update_checker;
pub mod window;
