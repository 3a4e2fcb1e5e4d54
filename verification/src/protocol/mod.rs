//! Inter-agent protocol: ids, shared task state, commands and events.

pub mod command;
pub mod event;
pub mod ids;
pub mod queues;
pub mod task;
