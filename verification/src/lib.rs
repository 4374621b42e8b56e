//! A minimal syscall tracer core: a verified state machine over process-stop
//! notifications, an aggregator of per-syscall statistics, an architecture
//! syscall-name decoder, and a summary-table renderer.

pub mod arch;
pub mod machine;
pub mod problem;
pub mod report;
pub mod stats;
pub mod textfmt;
pub mod trace;
