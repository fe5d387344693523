//! Aliyun provider: model registry, error taxonomy and client core.

use vstd::prelude::*;

pub mod client;
pub mod model;
pub mod types;

pub use client::{AliyunAI, AliyunConfig, ChatOptions};
pub use model::{AliYunModelType, get_all_models, get_available_model_types, get_model};
pub use types::AliyunAIError;

verus! {

/// Builds a client core for `api_key`, with the default or the given model.
pub fn create_aliyun_ai(api_key: String, model_type: Option<AliYunModelType>) -> (r: Result<
    AliyunAI,
    AliyunAIError,
>)
    ensures
        r is Err <==> api_key@.len() == 0,
        r matches Err(e) ==> (e matches AliyunAIError::ConfigError(s) && s@
            == "API Key cannot be empty"@),
        r matches Ok(c) ==> ({
            let mt = match model_type {
                Some(t) => t,
                None => AliYunModelType::QWEN_TURBO,
            };
            &&& c.config.api_key == api_key
            &&& c.config.model_type == mt
            &&& c.config.timeout_secs == 30
            &&& c.config.base_url is None
            &&& c.current_model@ == model::spec_model_of(mt)
        }),
{
    let mt = match model_type {
        Some(t) => t,
        None => AliYunModelType::QWEN_TURBO,
    };
    let mut config = AliyunConfig::default();
    config.api_key = api_key;
    config.model_type = mt;
    AliyunAI::new(config)
}

} // verus!
