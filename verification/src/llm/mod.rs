//! The LLM layer: request bodies, response parsing and media preparation.

pub mod anthropic;
pub mod backend;
pub mod common;
pub mod config;
pub mod media;
pub mod openai_compatible;
pub mod runtime;
pub mod types;
