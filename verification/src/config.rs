use vstd::prelude::*;
use crate::models::{AppConfig, LlmProvider};

verus! {

/// The settings used before the user saves any.
pub fn default_config() -> (c: AppConfig)
    ensures
        c.provider == LlmProvider::OpenAI,
        c.api_key@ == Seq::<char>::empty(),
        c.custom_endpoint.is_none(),
        c.language@ == "pt-BR"@,
{
    AppConfig {
        provider: LlmProvider::OpenAI,
        api_key: String::new(),
        custom_endpoint: None,
        language: "pt-BR".to_string(),
    }
}

} // verus!
