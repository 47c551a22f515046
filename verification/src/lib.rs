//! A buffered client for an application-performance-monitoring collector.
//!
//! Event records arrive as pre-assembled JSON values, are grouped into
//! [`batch::Batch`] delivery units, buffered in a thread-safe intake queue,
//! and periodically drained and delivered as newline-delimited JSON over
//! HTTP by a background flush loop.

pub mod auth;
pub mod batch;
pub mod buffer;
pub mod client;
pub mod config;
pub mod flush;
pub mod records;
pub mod transport;
