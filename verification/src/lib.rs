//! A two-stage event pipeline: a dispatcher produces events on the main
//! thread, a handler consumes them on a dedicated worker thread, and a
//! single-producer/single-consumer channel carries them across, in order.
//! Closing the sending half is the only termination signal to the consumer.
//!
//! This crate holds the verified core: the configuration fallback policy,
//! the hand-off contract of the channel, the two stage types, and the
//! orchestration that wires them together. Thread spawning, command-line
//! handling, file reading and log formatting live outside, around it.

pub mod conduit;
pub mod config;
pub mod dispatcher;
pub mod event;
pub mod handler;
pub mod orchestrator;
pub mod transport;
