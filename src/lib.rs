//! Telemetry wiring for a small HTTP service: configuration resolved from the
//! environment's values, the replies of the two endpoints with the span and log
//! records each one emits, and the fail-fast construction of the trace, metric
//! and log pipelines that export over OTLP/gRPC.
pub mod config;
pub mod message;
pub mod telemetry;
