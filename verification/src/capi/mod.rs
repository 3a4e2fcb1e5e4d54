//! The boundary to C: strings as bytes, fixed-size fields, codes, and what each
//! entry point does once its pointers have been read.
//!
//! A C string is an optional list of bytes: the bytes before its terminator, or
//! nothing for a null pointer. A buffer to write to is a list of bytes of the
//! buffer's size, empty for a null pointer.

pub mod capability;
pub mod events;
pub mod llm;
pub mod memory;
pub mod memory_cap;
pub mod orchestrator;
pub mod paths;
pub mod requests;
pub mod strings;
pub mod task;
