//! An embeddable HTTP service runtime: request routing, content
//! negotiation and compression, health-rotation signalling, and a
//! metrics registry that aggregates per-(path, method, status) hit
//! counts, error counts and latency distributions.
//!
//! The request pipeline and the observability engine live here as
//! verified code over plain values (byte vectors, integers); the
//! surrounding transport (sockets, task spawning, signal handling)
//! is expected to live in an ordinary host layer that feeds this
//! library with those plain values.

pub mod codec;
pub mod commons;
pub mod dispatch;
pub mod encoding;
pub mod error;
pub mod export;
pub mod fmtutil;
pub mod health_check;
pub mod histogram;
pub mod http_request;
pub mod http_response;
pub mod http_route;
pub mod metrics;
pub mod metrics_logger;
pub mod settings;
