//! Backends as they can be chosen.

use vstd::prelude::*;

verus! {

/// What a backend uses where the configuration is silent.
pub struct BackendDefaults {
    pub auth_type: &'static str,
    pub chat_path: &'static str,
    pub max_tokens_field: &'static str,
}

/// A backend's name and its defaults.
pub struct BackendRegistration {
    pub id: &'static str,
    pub defaults: BackendDefaults,
}

} // verus!
