//! The provider's descriptive metadata: identifier, display name, and the
//! configuration surface an operator can set.

use vstd::prelude::*;
use vstd::string::StringExecFns;

use crate::credentials::{opt_str_view, opt_view};

verus! {

/// One configuration parameter the provider reads.
#[derive(Debug)]
pub struct ConfigKey {
    pub name: String,
    pub required: bool,
    pub secret: bool,
    pub default: Option<String>,
}

impl ConfigKey {
    /// A configuration parameter with the given name and flags.
    pub fn new(name: &str, required: bool, secret: bool, default: Option<&str>) -> (r: ConfigKey)
        ensures
            r.name@ == name@,
            r.required == required,
            r.secret == secret,
            opt_view(r.default) == opt_str_view(default),
    {
        let default = match default {
            Some(d) => Some(String::from_str(d)),
            None => None,
        };
        ConfigKey { name: String::from_str(name), required, secret, default }
    }
}

/// Descriptive metadata for the provider.
#[derive(Debug)]
pub struct ProviderMetadata {
    pub name: String,
    pub display_name: String,
    pub description: String,
    pub default_model: String,
    pub known_models: Vec<String>,
    pub model_doc_link: String,
    pub config_keys: Vec<ConfigKey>,
    pub allows_unlisted_models: bool,
}

impl ProviderMetadata {
    /// Metadata with the given fields; models outside `known_models` are not
    /// allowed until [`ProviderMetadata::with_unlisted_models`] says so.
    pub fn new(
        name: &str,
        display_name: &str,
        description: &str,
        default_model: &str,
        known_models: Vec<String>,
        model_doc_link: &str,
        config_keys: Vec<ConfigKey>,
    ) -> (r: ProviderMetadata)
        ensures
            r.name@ == name@,
            r.display_name@ == display_name@,
            r.description@ == description@,
            r.default_model@ == default_model@,
            r.known_models == known_models,
            r.model_doc_link@ == model_doc_link@,
            r.config_keys == config_keys,
            !r.allows_unlisted_models,
    {
        ProviderMetadata {
            name: String::from_str(name),
            display_name: String::from_str(display_name),
            description: String::from_str(description),
            default_model: String::from_str(default_model),
            known_models,
            model_doc_link: String::from_str(model_doc_link),
            config_keys,
            allows_unlisted_models: false,
        }
    }

    /// The same metadata, allowing models outside `known_models`.
    pub fn with_unlisted_models(self) -> (r: ProviderMetadata)
        ensures
            r.name == self.name,
            r.display_name == self.display_name,
            r.description == self.description,
            r.default_model == self.default_model,
            r.known_models == self.known_models,
            r.model_doc_link == self.model_doc_link,
            r.config_keys == self.config_keys,
            r.allows_unlisted_models,
    {
        ProviderMetadata { allows_unlisted_models: true, ..self }
    }
}

/// The hosted-gateway provider: resolves credentials and adapts them for the
/// generic OpenAI-compatible chat-completion client.
pub struct TanzuAIServicesProvider;

impl TanzuAIServicesProvider {
    /// Identifier, display name, default model and configuration surface.
    pub fn metadata() -> (r: ProviderMetadata)
        ensures
            r.name@ == "tanzu_ai"@,
            r.display_name@ == "Tanzu AI Services"@,
            r.default_model@ == "openai/gpt-oss-120b"@,
            r.known_models@.len() == 1,
            r.known_models@[0]@ == "openai/gpt-oss-120b"@,
            r.allows_unlisted_models,
            r.config_keys@.len() == 4,
            r.config_keys@[0].name@ == "TANZU_AI_API_KEY"@,
            r.config_keys@[0].required && r.config_keys@[0].secret,
            r.config_keys@[1].name@ == "TANZU_AI_ENDPOINT"@,
            r.config_keys@[1].required && !r.config_keys@[1].secret,
            r.config_keys@[2].name@ == "TANZU_AI_CONFIG_URL"@,
            !r.config_keys@[2].required && !r.config_keys@[2].secret,
            r.config_keys@[3].name@ == "TANZU_AI_MODEL_NAME"@,
            !r.config_keys@[3].required && !r.config_keys@[3].secret,
    {
        let mut known_models: Vec<String> = Vec::new();
        known_models.push(String::from_str("openai/gpt-oss-120b"));
        let mut config_keys: Vec<ConfigKey> = Vec::new();
        config_keys.push(ConfigKey::new("TANZU_AI_API_KEY", true, true, None));
        config_keys.push(ConfigKey::new("TANZU_AI_ENDPOINT", true, false, None));
        config_keys.push(ConfigKey::new("TANZU_AI_CONFIG_URL", false, false, None));
        config_keys.push(ConfigKey::new("TANZU_AI_MODEL_NAME", false, false, None));
        ProviderMetadata::new(
            "tanzu_ai",
            "Tanzu AI Services",
            "LLM access via VMware Tanzu Platform AI Services (OpenAI-compatible)",
            "openai/gpt-oss-120b",
            known_models,
            "https://techdocs.broadcom.com/us/en/vmware-tanzu/platform/ai-services/10-3/ai/index.html",
            config_keys,
        ).with_unlisted_models()
    }
}

} // verus!
