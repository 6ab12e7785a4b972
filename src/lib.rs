//! Core of an ICMP reachability exporter: the per-target probe schedule, the
//! pool that shares one client among targets with the same network setup, the
//! per-key ping counters, and their plain-text exposition.

pub mod config;
pub mod metrics;
pub mod pool;
pub mod render;
pub mod schedule;
