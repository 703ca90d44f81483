use tanzu_ai::credentials::{detect_binding_format, parse_binding_credentials,
    parse_vcap_services, resolve_credentials, BindingFormat, CredentialError, ResolverConfig};
use tanzu_ai::discovery::{filter_chat_models, parse_config_response, parse_models_listing,
    AdvertisedModel};
use tanzu_ai::provider::TanzuAIServicesProvider;
use tanzu_ai::urls::{models_listing_url, openai_host, strip_openai_suffix};
use tanzu_ai::Json;

fn s(x: &str) -> Json {
    Json::Str(x.to_string())
}

fn obj(pairs: Vec<(&str, Json)>) -> Json {
    Json::Obj(pairs.into_iter().map(|(k, v)| (k.to_string(), v)).collect())
}

// --- Credential Parsing Tests ---

#[test]
fn test_parse_single_model_credentials() {
    let json = obj(vec![
        (
            "api_base",
            s("https://genai-proxy.sys.example.com/tanzu-gpt-oss-120b-v1025-eaf66e7/openai"),
        ),
        ("api_key", s("eyJhbGciOiJIUzI1NiJ9.test")),
        (
            "endpoint",
            obj(vec![
                (
                    "api_base",
                    s("https://genai-proxy.sys.example.com/tanzu-gpt-oss-120b-v1025-eaf66e7"),
                ),
                ("api_key", s("eyJhbGciOiJIUzI1NiJ9.test")),
                (
                    "config_url",
                    s("https://genai-proxy.sys.example.com/tanzu-gpt-oss-120b-v1025-eaf66e7/config/v1/endpoint"),
                ),
                ("name", s("tanzu-gpt-oss-120b-v1025-eaf66e7")),
            ]),
        ),
        ("model_aliases", Json::Null),
        ("model_capabilities", Json::Arr(vec![s("chat"), s("tools")])),
        ("model_name", s("openai/gpt-oss-120b")),
        ("wire_format", s("openai")),
    ]);

    let creds = parse_binding_credentials(&json).unwrap();
    assert_eq!(
        creds.endpoint_base,
        "https://genai-proxy.sys.example.com/tanzu-gpt-oss-120b-v1025-eaf66e7"
    );
    assert_eq!(creds.api_key, "eyJhbGciOiJIUzI1NiJ9.test");
    assert_eq!(creds.model_name, Some("openai/gpt-oss-120b".to_string()));
    assert!(creds.config_url.is_some());
    assert_eq!(
        creds.config_url.unwrap(),
        "https://genai-proxy.sys.example.com/tanzu-gpt-oss-120b-v1025-eaf66e7/config/v1/endpoint"
    );
}

#[test]
fn test_parse_multi_model_credentials() {
    let json = obj(vec![(
        "endpoint",
        obj(vec![
            ("api_base", s("https://genai-proxy.sys.example.com/tanzu-all-models-1a56b7a")),
            ("api_key", s("eyJhbGciOiJIUzI1NiJ9.multi")),
            (
                "config_url",
                s("https://genai-proxy.sys.example.com/tanzu-all-models-1a56b7a/config/v1/endpoint"),
            ),
            ("name", s("tanzu-all-models-1a56b7a")),
        ]),
    )]);

    let creds = parse_binding_credentials(&json).unwrap();
    assert_eq!(
        creds.endpoint_base,
        "https://genai-proxy.sys.example.com/tanzu-all-models-1a56b7a"
    );
    assert_eq!(creds.api_key, "eyJhbGciOiJIUzI1NiJ9.multi");
    assert_eq!(creds.model_name, None);
    assert!(creds.config_url.is_some());
}

#[test]
fn test_parse_deprecated_single_model_no_endpoint() {
    let json = obj(vec![
        ("api_base", s("https://genai-proxy.sys.example.com/some-guid/openai")),
        ("api_key", s("eyJhbGciOiJIUzI1NiJ9.deprecated")),
        ("model_name", s("llama3:8b")),
        ("model_capabilities", Json::Arr(vec![s("chat")])),
        ("wire_format", s("openai")),
    ]);

    let creds = parse_binding_credentials(&json).unwrap();
    assert_eq!(creds.endpoint_base, "https://genai-proxy.sys.example.com/some-guid");
    assert_eq!(creds.api_key, "eyJhbGciOiJIUzI1NiJ9.deprecated");
    assert_eq!(creds.model_name, Some("llama3:8b".to_string()));
    assert!(creds.config_url.is_none());
}

#[test]
fn test_parse_binding_missing_required_fields() {
    // An endpoint block without an api_key disqualifies the binding; there is
    // no fallback to the legacy shape once the endpoint block exists.
    let json = obj(vec![
        ("api_base", s("https://h/guid/openai")),
        ("api_key", s("k")),
        ("endpoint", obj(vec![("api_base", s("https://h/guid"))])),
    ]);
    assert!(parse_binding_credentials(&json).is_none());

    // The legacy shape needs both api_base and api_key.
    let json = obj(vec![("api_base", s("https://h/guid/openai"))]);
    assert!(parse_binding_credentials(&json).is_none());

    // A non-string required field disqualifies the binding.
    let json = obj(vec![("api_base", Json::Num), ("api_key", s("k"))]);
    assert!(parse_binding_credentials(&json).is_none());
}

#[test]
fn test_parse_legacy_binding_scenario() {
    let json = obj(vec![
        ("api_base", s("https://h/guid/openai")),
        ("api_key", s("k")),
        ("model_name", s("m")),
    ]);
    let creds = parse_binding_credentials(&json).unwrap();
    assert_eq!(creds.endpoint_base, "https://h/guid");
    assert_eq!(creds.api_key, "k");
    assert_eq!(creds.model_name, Some("m".to_string()));
    assert_eq!(creds.config_url, None);
}

#[test]
fn test_parse_endpoint_binding_scenario() {
    let json = obj(vec![(
        "endpoint",
        obj(vec![
            ("api_base", s("https://h/plan")),
            ("api_key", s("k2")),
            ("config_url", s("https://h/plan/cfg")),
        ]),
    )]);
    let creds = parse_binding_credentials(&json).unwrap();
    assert_eq!(creds.endpoint_base, "https://h/plan");
    assert_eq!(creds.api_key, "k2");
    assert_eq!(creds.model_name, None);
    assert_eq!(creds.config_url, Some("https://h/plan/cfg".to_string()));
}

// --- URL Construction Tests ---

#[test]
fn test_strip_openai_suffix() {
    assert_eq!(
        strip_openai_suffix("https://proxy.example.com/guid/openai"),
        "https://proxy.example.com/guid"
    );
    assert_eq!(
        strip_openai_suffix("https://proxy.example.com/guid/openai/"),
        "https://proxy.example.com/guid"
    );
    assert_eq!(
        strip_openai_suffix("https://proxy.example.com/guid"),
        "https://proxy.example.com/guid"
    );
}

#[test]
fn test_strip_openai_suffix_is_idempotent() {
    let once = strip_openai_suffix("https://proxy.example.com/guid/openai");
    let twice = strip_openai_suffix(&once);
    assert_eq!(once, twice);

    let empty = strip_openai_suffix("");
    assert_eq!(empty, "");

    // Repeated suffixes are all removed in one pass.
    assert_eq!(strip_openai_suffix("https://h/a/openai/openai"), "https://h/a");
}

#[test]
fn test_openai_base_url_construction() {
    let endpoint_base = "https://genai-proxy.sys.example.com/tanzu-all-models-1a56b7a";
    let host = openai_host(endpoint_base);
    assert_eq!(
        host,
        "https://genai-proxy.sys.example.com/tanzu-all-models-1a56b7a/openai"
    );
}

#[test]
fn test_openai_host_inverts_strip() {
    // Host derivation is the inverse of suffix-stripping for a base carrying
    // exactly one trailing /openai segment.
    let x = "https://h/plan/openai";
    assert_eq!(openai_host(&strip_openai_suffix(x)), x);
    // A trailing slash on the base is dropped before the segment is appended.
    assert_eq!(openai_host("https://h/plan/"), "https://h/plan/openai");
}

#[test]
fn test_models_listing_url() {
    assert_eq!(
        models_listing_url("https://h/plan/"),
        "https://h/plan/openai/v1/models"
    );
    assert_eq!(
        models_listing_url("https://h/plan"),
        "https://h/plan/openai/v1/models"
    );
}

// --- VCAP_SERVICES Parsing Tests ---

#[test]
fn test_parse_vcap_services_multi_model() {
    let vcap = r#"{
        "genai": [{
            "binding_guid": "162e78b4-408b-4bdd-8df3-0ae1e4d6d13b",
            "binding_name": null,
            "credentials": {
                "endpoint": {
                    "api_base": "https://genai-proxy.sys.example.com/all-models-9afff1f",
                    "api_key": "eyJhbGciOiJIUzI1NiJ9.vcap",
                    "config_url": "https://genai-proxy.sys.example.com/all-models-9afff1f/config/v1/endpoint",
                    "name": "all-models-9afff1f"
                }
            },
            "instance_guid": "5008a1ec-c406-4ee8-8f9d-56c723af2f1f",
            "instance_name": "all-models",
            "label": "genai",
            "name": "all-models",
            "plan": "all-models",
            "tags": ["genai", "llm"]
        }]
    }"#;

    let creds = parse_vcap_services(vcap, None).unwrap();
    assert_eq!(
        creds.endpoint_base,
        "https://genai-proxy.sys.example.com/all-models-9afff1f"
    );
    assert_eq!(creds.api_key, "eyJhbGciOiJIUzI1NiJ9.vcap");
    assert!(creds.config_url.is_some());
    assert_eq!(creds.model_name, None);
}

#[test]
fn test_parse_vcap_services_no_genai() {
    let vcap = r#"{
        "mysql": [{
            "credentials": {"uri": "mysql://localhost"}
        }]
    }"#;

    assert!(parse_vcap_services(vcap, None).is_none());
}

#[test]
fn test_parse_vcap_services_empty_genai() {
    let vcap = r#"{
        "genai": []
    }"#;

    assert!(parse_vcap_services(vcap, None).is_none());
}

#[test]
fn test_parse_vcap_services_invalid_json() {
    assert!(parse_vcap_services("not json", None).is_none());
}

#[test]
fn test_parse_vcap_services_binding_name_override() {
    let vcap = r#"{
        "genai": [
            {
                "name": "first",
                "credentials": {"api_base": "https://h/first/openai", "api_key": "k1"}
            },
            {
                "name": "second",
                "credentials": {"api_base": "https://h/second/openai", "api_key": "k2"}
            }
        ]
    }"#;

    // Absent override: the first binding.
    let creds = parse_vcap_services(vcap, None).unwrap();
    assert_eq!(creds.endpoint_base, "https://h/first");
    assert_eq!(creds.api_key, "k1");

    // Matching override: the named binding.
    let creds = parse_vcap_services(vcap, Some("second")).unwrap();
    assert_eq!(creds.endpoint_base, "https://h/second");
    assert_eq!(creds.api_key, "k2");

    // Override naming no binding: nothing.
    assert!(parse_vcap_services(vcap, Some("third")).is_none());
}

// --- Credential Resolution Tests ---

#[test]
fn test_resolve_explicit_configuration_wins() {
    let cfg = ResolverConfig {
        endpoint: Some("https://h/explicit".to_string()),
        api_key: Some("explicit-key".to_string()),
        config_url: Some("https://h/explicit/cfg".to_string()),
        model_name: None,
        vcap_services: Some(
            r#"{"genai":[{"credentials":{"api_base":"https://h/vcap/openai","api_key":"vk"}}]}"#
                .to_string(),
        ),
        binding_name: None,
    };
    let creds = resolve_credentials(&cfg).unwrap();
    assert_eq!(creds.endpoint_base, "https://h/explicit");
    assert_eq!(creds.api_key, "explicit-key");
    assert_eq!(creds.config_url, Some("https://h/explicit/cfg".to_string()));
    assert_eq!(creds.model_name, None);
}

#[test]
fn test_resolve_partial_explicit_falls_through_to_catalog() {
    let cfg = ResolverConfig {
        endpoint: Some("https://h/explicit".to_string()),
        api_key: None,
        config_url: None,
        model_name: None,
        vcap_services: Some(
            r#"{"genai":[{"credentials":{"api_base":"https://h/vcap/openai","api_key":"vk"}}]}"#
                .to_string(),
        ),
        binding_name: None,
    };
    let creds = resolve_credentials(&cfg).unwrap();
    assert_eq!(creds.endpoint_base, "https://h/vcap");
    assert_eq!(creds.api_key, "vk");
}

#[test]
fn test_resolve_nothing_configured_is_an_error() {
    let cfg = ResolverConfig {
        endpoint: None,
        api_key: None,
        config_url: None,
        model_name: None,
        vcap_services: None,
        binding_name: None,
    };
    let err = resolve_credentials(&cfg).unwrap_err();
    assert_eq!(err, CredentialError::NotConfigured);
    let message = err.message();
    assert!(message.contains("TANZU_AI_ENDPOINT"));
    assert!(message.contains("TANZU_AI_API_KEY"));
    assert!(message.contains("Cloud Foundry"));
}

#[test]
fn test_resolve_broken_catalog_is_an_error_not_a_panic() {
    let cfg = ResolverConfig {
        endpoint: None,
        api_key: None,
        config_url: None,
        model_name: None,
        vcap_services: Some("{\"genai\": \"oops\"}".to_string()),
        binding_name: None,
    };
    assert_eq!(resolve_credentials(&cfg).unwrap_err(), CredentialError::NotConfigured);
}

// --- Model Discovery Tests ---

#[test]
fn test_filter_chat_models() {
    let models = vec![
        AdvertisedModel {
            name: "llama3.2:1b".to_string(),
            capabilities: vec!["CHAT".to_string(), "TOOLS".to_string()],
        },
        AdvertisedModel {
            name: "mxbai-embed-large".to_string(),
            capabilities: vec!["EMBEDDING".to_string()],
        },
        AdvertisedModel {
            name: "qwen3-30b".to_string(),
            capabilities: vec!["chat".to_string()],
        },
    ];

    let chat_models = filter_chat_models(&models);
    assert_eq!(chat_models.len(), 2);
    assert!(chat_models.contains(&"llama3.2:1b".to_string()));
    assert!(chat_models.contains(&"qwen3-30b".to_string()));
    assert!(!chat_models.contains(&"mxbai-embed-large".to_string()));
}

#[test]
fn test_filter_completion_capability_counts() {
    let models = vec![
        AdvertisedModel {
            name: "old-model".to_string(),
            capabilities: vec!["Completion".to_string()],
        },
        AdvertisedModel { name: "untagged".to_string(), capabilities: vec![] },
    ];
    let chat_models = filter_chat_models(&models);
    assert_eq!(chat_models, vec!["old-model".to_string()]);
}

#[test]
fn test_parse_config_response() {
    let json = r#"{
        "name": "all-models-9afff1f",
        "advertisedModels": [
            {"name": "llama3.2:1b", "capabilities": ["CHAT", "TOOLS"]},
            {"name": "mxbai-embed-large", "capabilities": ["EMBEDDING"]}
        ]
    }"#;

    let models = parse_config_response(json).unwrap();
    assert_eq!(models.len(), 2);
    assert_eq!(models[0].name, "llama3.2:1b");
    assert_eq!(models[0].capabilities, vec!["CHAT", "TOOLS"]);
}

#[test]
fn test_parse_config_response_degrades() {
    // Malformed body: no result, so discovery can fall back.
    assert!(parse_config_response("not json").is_none());
    // No advertisedModels field: an empty listing, not a failure.
    assert_eq!(parse_config_response("{}").unwrap().len(), 0);
    // An entry without a name disqualifies the whole response.
    assert!(parse_config_response(r#"{"advertisedModels":[{"capabilities":[]}]}"#).is_none());
    // An entry without capabilities carries no tags.
    let models = parse_config_response(r#"{"advertisedModels":[{"name":"m"}]}"#).unwrap();
    assert_eq!(models[0].name, "m");
    assert!(models[0].capabilities.is_empty());
}

#[test]
fn test_parse_models_listing() {
    let body = r#"{
        "object": "list",
        "data": [
            {"id": "openai/gpt-oss-120b", "object": "model"},
            {"id": "llama3.2:1b", "object": "model"},
            {"object": "model"},
            {"id": "qwen3-30b", "object": "model"}
        ]
    }"#;
    let models = parse_models_listing(body).unwrap();
    assert_eq!(models.len(), 3);
    assert_eq!(models[0].name, "openai/gpt-oss-120b");
    assert_eq!(models[1].name, "llama3.2:1b");
    assert_eq!(models[2].name, "qwen3-30b");
    assert_eq!(models[0].capabilities, vec!["CHAT"]);

    // The listing's entries all count as chat-capable.
    let filtered = filter_chat_models(&models);
    assert_eq!(filtered.len(), 3);

    // A document without a data array is an empty listing.
    assert_eq!(parse_models_listing("{}").unwrap().len(), 0);
    // Malformed JSON is a failure, not an empty listing.
    assert!(parse_models_listing("oops").is_none());
}

// --- Format Detection Tests ---

#[test]
fn test_format_detection_single_model_with_endpoint() {
    // Current format: has both model_name and endpoint.
    let json = obj(vec![
        ("api_base", s("https://proxy.example.com/guid/openai")),
        ("api_key", s("key")),
        (
            "endpoint",
            obj(vec![
                ("api_base", s("https://proxy.example.com/guid")),
                ("api_key", s("key")),
                ("config_url", s("https://proxy.example.com/guid/config/v1/endpoint")),
                ("name", s("guid")),
            ]),
        ),
        ("model_name", s("openai/gpt-oss-120b")),
        ("model_capabilities", Json::Arr(vec![s("chat"), s("tools")])),
        ("wire_format", s("openai")),
    ]);

    let creds = parse_binding_credentials(&json).unwrap();
    // Should prefer endpoint.api_base and have model_name.
    assert_eq!(creds.endpoint_base, "https://proxy.example.com/guid");
    assert_eq!(creds.model_name, Some("openai/gpt-oss-120b".to_string()));
}

#[test]
fn test_format_detection_multi_model_only() {
    let json = obj(vec![(
        "endpoint",
        obj(vec![
            ("api_base", s("https://proxy.example.com/plan")),
            ("api_key", s("key")),
            ("config_url", s("https://proxy.example.com/plan/config/v1/endpoint")),
            ("name", s("plan")),
        ]),
    )]);

    let creds = parse_binding_credentials(&json).unwrap();
    assert_eq!(creds.endpoint_base, "https://proxy.example.com/plan");
    assert_eq!(creds.model_name, None);
}

#[test]
fn test_detect_binding_format_tags() {
    let endpoint_binding = obj(vec![(
        "endpoint",
        obj(vec![("api_base", s("https://h/plan")), ("api_key", s("k"))]),
    )]);
    match detect_binding_format(&endpoint_binding) {
        BindingFormat::EndpointBlock(c) => assert_eq!(c.endpoint_base, "https://h/plan"),
        _ => panic!("expected the endpoint-block shape"),
    }

    let legacy_binding = obj(vec![
        ("api_base", s("https://h/guid/openai")),
        ("api_key", s("k")),
    ]);
    match detect_binding_format(&legacy_binding) {
        BindingFormat::LegacyFlat(c) => assert_eq!(c.endpoint_base, "https://h/guid"),
        _ => panic!("expected the legacy flat shape"),
    }

    let neither = obj(vec![("something", s("else"))]);
    assert!(matches!(detect_binding_format(&neither), BindingFormat::Unrecognized));
}

// --- Provider Metadata Tests ---

#[test]
fn test_provider_metadata() {
    let meta = TanzuAIServicesProvider::metadata();
    assert_eq!(meta.name, "tanzu_ai");
    assert_eq!(meta.display_name, "Tanzu AI Services");
    assert!(meta.allows_unlisted_models);

    // Check required config keys
    let api_key = meta
        .config_keys
        .iter()
        .find(|k| k.name == "TANZU_AI_API_KEY")
        .unwrap();
    assert!(api_key.required);
    assert!(api_key.secret);

    let endpoint = meta
        .config_keys
        .iter()
        .find(|k| k.name == "TANZU_AI_ENDPOINT")
        .unwrap();
    assert!(endpoint.required);
    assert!(!endpoint.secret);

    let config_url = meta
        .config_keys
        .iter()
        .find(|k| k.name == "TANZU_AI_CONFIG_URL")
        .unwrap();
    assert!(!config_url.required);
}

#[test]
fn test_tanzu_provider_registered_metadata() {
    let meta = TanzuAIServicesProvider::metadata();
    assert_eq!(meta.name, "tanzu_ai");
    assert_eq!(meta.display_name, "Tanzu AI Services");
    assert!(meta.allows_unlisted_models);
    assert_eq!(meta.config_keys.len(), 4);
}
