//! Verified core of an HTTP tracing middleware: span construction from
//! request data, outcome recording, trace-context propagation, an
//! event-to-log-record bridge, and sampling/configuration decisions.

pub mod axum_layer;
pub mod config;
pub mod event_logger;
pub mod propagation;
pub mod request;
pub mod sampler;
pub mod text;

pub use axum_layer::opentelemetry_tracing_layer;
pub use axum_layer::opentelemetry_tracing_layer_without_parent;
