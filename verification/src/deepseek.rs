//! DeepSeek provider: model registry, error taxonomy and client core.

use vstd::prelude::*;

pub mod client;
pub mod model;
pub mod types;

pub use client::{ChatOptions, DeepSeekAI, DeepSeekConfig};
pub use model::{DeepSeekModelType, get_all_models, get_available_model_types, get_model};
pub use types::DeepSeekError;
pub use crate::types::{ChatMessage, ChatRole, OHLCV};

verus! {

/// Builds a client core for `api_key`, with the default or the given model.
pub fn create_deepseek_ai(api_key: String, model_type: Option<DeepSeekModelType>) -> (r: Result<
    DeepSeekAI,
    DeepSeekError,
>)
    ensures
        r is Err <==> api_key@.len() == 0,
        r matches Err(e) ==> (e matches DeepSeekError::ConfigError(s) && s@
            == "API Key cannot be empty"@),
        r matches Ok(c) ==> ({
            let mt = match model_type {
                Some(t) => t,
                None => DeepSeekModelType::DeepSeekChat,
            };
            &&& c.config.api_key == api_key
            &&& c.config.model_type == mt
            &&& c.config.timeout_secs == 60
            &&& (c.config.base_url matches Some(u) && u@ == "https://api.deepseek.com"@)
            &&& c.config.organization_id is None
            &&& c.config.project_id is None
            &&& c.current_model@ == model::spec_model_of(mt)
        }),
{
    let mt = match model_type {
        Some(t) => t,
        None => DeepSeekModelType::DeepSeekChat,
    };
    let mut config = DeepSeekConfig::default();
    config.api_key = api_key;
    config.model_type = mt;
    DeepSeekAI::new(config)
}

/// Builds a client core for `api_key` with the default configuration.
pub fn create_default_deepseek_ai(api_key: String) -> (r: Result<DeepSeekAI, DeepSeekError>)
    ensures
        r is Err <==> api_key@.len() == 0,
        r matches Err(e) ==> (e matches DeepSeekError::ConfigError(s) && s@
            == "API Key cannot be empty"@),
        r matches Ok(c) ==> c.config.api_key == api_key && c.config.model_type
            == DeepSeekModelType::DeepSeekChat && c.config.timeout_secs == 60
            && c.current_model@ == model::spec_model_of(
            DeepSeekModelType::DeepSeekChat,
        ),
{
    DeepSeekAI::with_api_key(api_key)
}

} // verus!
