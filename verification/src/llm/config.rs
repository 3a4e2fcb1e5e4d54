//! The checks on a configuration that the backends share.

use vstd::prelude::*;

use super::types::{llm_error, LlmError, LlmErrorV, RuntimeConfig};
use crate::errname::ESP_ERR_INVALID_ARG;

verus! {

/// The text of an optional string, empty where there is none.
pub open spec fn text_or_empty(o: Option<String>) -> Seq<char> {
    match o {
        Some(s) => s@,
        None => Seq::empty(),
    }
}

/// The text of an optional string, empty where there is none.
pub fn str_or_empty(o: &Option<String>) -> (r: &str)
    ensures
        r@ == text_or_empty(*o),
{
    proof {
        reveal_strlit("");
    }
    match o {
        Some(s) => s.as_str(),
        None => {
            assert(""@ =~= Seq::<char>::empty());
            ""
        },
    }
}

/// What is missing in a configuration, the first thing first.
pub open spec fn config_error(c: RuntimeConfig) -> Option<LlmErrorV> {
    if text_or_empty(c.api_key).len() == 0 {
        Some(llm_error(ESP_ERR_INVALID_ARG as int, "LLM API key is empty"@))
    } else if text_or_empty(c.model).len() == 0 {
        Some(llm_error(ESP_ERR_INVALID_ARG as int, "LLM model is empty"@))
    } else if text_or_empty(c.base_url).len() == 0 {
        Some(llm_error(ESP_ERR_INVALID_ARG as int, "LLM base_url is empty"@))
    } else {
        None
    }
}

/// Checks that a configuration names a key, a model and a base URL.
pub fn check_config(c: &RuntimeConfig) -> (r: Result<(), LlmError>)
    ensures
        match r {
            Ok(_) => config_error(*c) is None,
            Err(e) => config_error(*c) == Some(e@),
        },
{
    if str_or_empty(&c.api_key).is_empty() {
        return Err(LlmError::new(ESP_ERR_INVALID_ARG, "LLM API key is empty"));
    }
    if str_or_empty(&c.model).is_empty() {
        return Err(LlmError::new(ESP_ERR_INVALID_ARG, "LLM model is empty"));
    }
    if str_or_empty(&c.base_url).is_empty() {
        return Err(LlmError::new(ESP_ERR_INVALID_ARG, "LLM base_url is empty"));
    }
    Ok(())
}

} // verus!
