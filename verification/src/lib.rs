//! Work distribution and live reconfiguration for a pool of text-transform
//! workers.
//!
//! A fixed set of worker processes competes for jobs pulled from one shared
//! queue, executes each job under the currently configured transform, and has
//! that transform replaced at runtime by control messages arriving on a capped,
//! durable stream.  This crate holds the verified core of that system: the
//! transform registry, the control-update wire codec, the shared configuration
//! cell, and the decision logic of the listener, worker, relay and gateway
//! loops.  The broker and HTTP plumbing around it only moves bytes in and out.

pub mod codec;
pub mod command;
pub mod config;
pub mod gateway;
pub mod listener;
pub mod logger;
pub mod relay;
pub mod subjects;
mod text;
pub mod worker;

pub use command::Command;
pub use command::CommandError;
