//! A write-load driver for key-value stores: per-task key generators, a shared
//! token-bucket rate limiter, and writer tasks modelled as state machines whose
//! stop conditions and admission decisions are proved.

pub mod bench;
pub mod keygen;
pub mod limiter;
pub mod metrics;
pub mod run_model;
pub mod task;

