//! Credential resolution for a hosted LLM gateway with an OpenAI-compatible
//! front. Competing credential shapes (explicit configuration, platform-injected
//! service-catalog JSON, current and legacy binding schemas) are normalized into
//! one canonical credential record with deterministic precedence; companion
//! helpers derive the effective API host and filter discovered models.

pub mod credentials;
pub mod discovery;
pub mod json;
pub mod provider;
pub mod urls;

pub use credentials::BindingFormat;
pub use credentials::Credentials;
pub use credentials::detect_binding_format;
pub use credentials::CredentialError;
pub use credentials::ResolverConfig;
pub use credentials::parse_binding_credentials;
pub use credentials::parse_vcap_services;
pub use credentials::resolve_credentials;
pub use discovery::AdvertisedModel;
pub use discovery::filter_chat_models;
pub use discovery::parse_config_response;
pub use discovery::parse_models_listing;
pub use json::Json;
pub use provider::ConfigKey;
pub use provider::ProviderMetadata;
pub use provider::TanzuAIServicesProvider;

pub use urls::strip_openai_suffix;
pub use urls::openai_host;
pub use urls::models_listing_url;
