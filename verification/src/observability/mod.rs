//! Observability: the OpenTelemetry exporter bootstrap.

pub mod otel;
