//! Core logic of a terminal system monitor: rate computation from cumulative
//! counters, process listing (filter / stable sort / truncate), configuration
//! resolution, session scheduling, the keyboard-driven overlay state machine,
//! and process-control outcome classification.

pub mod config;
pub mod control;
pub mod export;
pub mod input;
pub mod insights;
pub mod metrics;
pub mod net_rate;
pub mod plugin;
pub mod process;
pub mod scheduler;
pub mod text;
pub mod theme;
pub mod view;
