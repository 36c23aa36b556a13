//! Verified core of a document-table extraction backend.
//!
//! The library locates a per-platform bundled runtime, normalizes path
//! representations, builds the subprocess invocation that runs the external
//! extraction tool, and classifies the subprocess outcome. All filesystem
//! probing, process spawning and host-shell glue live outside the library;
//! they hand plain values in and take structured results back.

pub mod commands;
pub mod extract;
pub mod invoker;
pub mod locator;
pub mod paths;
pub mod platform;
pub mod report;
