//! Linux kernel asynchronous I/O exposed as awaitable handles.
//!
//! This crate holds the logic of the engine: the configuration builder, the
//! per-operation completion registry, the batching of submissions and the
//! decisions of the background worker. The system calls, the lock around the
//! registry, the channels and the worker thread live around it.

pub mod config;
pub mod record;
pub mod registry;
pub mod batch;
pub mod worker;
