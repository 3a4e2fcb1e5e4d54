//! Agent runtime core.
#![allow(unused_imports)]

use vstd::prelude::*;

pub mod callbacks;
pub mod capi;
pub mod channel;
pub mod consts;
pub mod context;
pub mod agent;
pub mod agent_loop;
pub mod agent_registry;
pub mod agent_spec;
pub mod agents;
pub mod core_state;
pub mod document;
pub mod errmap;
pub mod events;
pub mod errname;
pub mod error;
pub mod iteration_loop;
pub mod json;
pub mod llm;
pub mod llm_output;
pub mod memory;
pub mod observability;
pub mod orchestrator;
pub mod orchestrator_instance;
pub mod protocol;
pub mod request;
pub mod session;
pub mod text;
pub mod tools;
