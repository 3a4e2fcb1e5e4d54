//! The built-in semantic controllers.

pub mod builtin;
pub mod frontend;
pub mod worker;
