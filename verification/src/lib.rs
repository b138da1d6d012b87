//! Comparison engine for decision-diagram compilers: strategies, tool
//! invocations, outcome handling, records and their rendering.

pub mod adapter;
pub mod invocation;
pub mod ratio;
pub mod record;
pub mod report;
pub mod runner;
pub mod strategy;
pub mod text;
