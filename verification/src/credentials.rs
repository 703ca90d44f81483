//! Credential resolution: explicit configuration first, then the
//! platform-injected service catalog, else a configuration error.
//!
//! The catalog is JSON; a binding's `credentials` object comes in two shapes,
//! told apart structurally. When an `endpoint` object is present, its
//! `api_base` is the canonical base, verbatim. Otherwise the legacy flat shape
//! applies: the top-level `api_base` is canonicalized by stripping a trailing
//! slash and `/openai` segment, and no `config_url` exists.

use vstd::prelude::*;
use vstd::string::StringExecFns;

use crate::json::{
    get_str_field, json_get, json_obj_get, json_parse, parse_json_text, str_eq, str_field, Json,
};
use crate::urls::{strip_spec, strip_openai_suffix};

verus! {

/// The canonical credential record, resolved once per provider instance.
#[derive(Debug)]
pub struct Credentials {
    /// Base URL from which API paths are derived; for the legacy binding
    /// shape it has been stripped of a trailing slash and `/openai` segment.
    pub endpoint_base: String,
    /// Opaque bearer token.
    pub api_key: String,
    /// Optional URL for rich model-metadata discovery.
    pub config_url: Option<String>,
    /// Advisory model name, present only for single-model binding shapes.
    pub model_name: Option<String>,
}

/// Mathematical image of a credential record.
pub struct CredView {
    pub endpoint_base: Seq<char>,
    pub api_key: Seq<char>,
    pub config_url: Option<Seq<char>>,
    pub model_name: Option<Seq<char>>,
}

/// The characters of an optional string.
pub open spec fn opt_view(o: Option<String>) -> Option<Seq<char>> {
    match o {
        Some(s) => Some(s@),
        None => None,
    }
}

impl View for Credentials {
    type V = CredView;

    open spec fn view(&self) -> CredView {
        CredView {
            endpoint_base: self.endpoint_base@,
            api_key: self.api_key@,
            config_url: opt_view(self.config_url),
            model_name: opt_view(self.model_name),
        }
    }
}

/// What the structural format detector makes of one binding's `credentials`
/// object: the endpoint-block shape when an `endpoint` field exists (its
/// `api_base` taken verbatim), else the legacy flat shape (its `api_base`
/// canonicalized, never a `config_url`); `None` when the required fields of
/// the applicable shape are missing.
pub open spec fn binding_creds_spec(j: Json) -> Option<CredView> {
    match json_get(j, "endpoint"@) {
        Some(ep) => {
            if str_field(ep, "api_base"@) is Some && str_field(ep, "api_key"@) is Some {
                Some(
                    CredView {
                        endpoint_base: str_field(ep, "api_base"@).unwrap(),
                        api_key: str_field(ep, "api_key"@).unwrap(),
                        config_url: str_field(ep, "config_url"@),
                        model_name: str_field(j, "model_name"@),
                    },
                )
            } else {
                None
            }
        },
        None => {
            if str_field(j, "api_base"@) is Some && str_field(j, "api_key"@) is Some {
                Some(
                    CredView {
                        endpoint_base: strip_spec(str_field(j, "api_base"@).unwrap()),
                        api_key: str_field(j, "api_key"@).unwrap(),
                        config_url: None,
                        model_name: str_field(j, "model_name"@),
                    },
                )
            } else {
                None
            }
        },
    }
}

/// One binding's `credentials` object, decoded as a tagged union over the
/// two schema shapes.
#[derive(Debug)]
pub enum BindingFormat {
    /// An `endpoint` object supplied the credentials.
    EndpointBlock(Credentials),
    /// The deprecated flat shape supplied the credentials.
    LegacyFlat(Credentials),
    /// Neither shape's required fields are present.
    Unrecognized,
}

/// Decode one binding's `credentials` object structurally: the
/// endpoint-block shape whenever an `endpoint` field exists, else the legacy
/// flat shape; never a guess at further shapes.
pub fn detect_binding_format(creds: &Json) -> (r: BindingFormat)
    ensures
        match r {
            BindingFormat::EndpointBlock(c) => json_get(*creds, "endpoint"@) is Some
                && binding_creds_spec(*creds) == Some(c@),
            BindingFormat::LegacyFlat(c) => json_get(*creds, "endpoint"@) is None
                && binding_creds_spec(*creds) == Some(c@),
            BindingFormat::Unrecognized => binding_creds_spec(*creds) is None,
        },
{
    match json_obj_get(creds, "endpoint") {
        Some(ep) => {
            match (get_str_field(ep, "api_base"), get_str_field(ep, "api_key")) {
                (Some(base), Some(key)) => {
                    let config_url = match get_str_field(ep, "config_url") {
                        Some(u) => Some(u.clone()),
                        None => None,
                    };
                    let model_name = match get_str_field(creds, "model_name") {
                        Some(m) => Some(m.clone()),
                        None => None,
                    };
                    BindingFormat::EndpointBlock(
                        Credentials {
                            endpoint_base: base.clone(),
                            api_key: key.clone(),
                            config_url,
                            model_name,
                        },
                    )
                },
                _ => BindingFormat::Unrecognized,
            }
        },
        None => {
            match (get_str_field(creds, "api_base"), get_str_field(creds, "api_key")) {
                (Some(base), Some(key)) => {
                    let model_name = match get_str_field(creds, "model_name") {
                        Some(m) => Some(m.clone()),
                        None => None,
                    };
                    BindingFormat::LegacyFlat(
                        Credentials {
                            endpoint_base: strip_openai_suffix(base.as_str()),
                            api_key: key.clone(),
                            config_url: None,
                            model_name,
                        },
                    )
                },
                _ => BindingFormat::Unrecognized,
            }
        },
    }
}

/// Detect the format of one binding's `credentials` object and extract the
/// canonical record; `None` when neither shape's required fields are present.
pub fn parse_binding_credentials(creds: &Json) -> (r: Option<Credentials>)
    ensures
        match r {
            Some(c) => binding_creds_spec(*creds) == Some(c@),
            None => binding_creds_spec(*creds) is None,
        },
{
    match detect_binding_format(creds) {
        BindingFormat::EndpointBlock(c) => Some(c),
        BindingFormat::LegacyFlat(c) => Some(c),
        BindingFormat::Unrecognized => None,
    }
}

/// Whether a catalog entry's `name` field is the string `n`.
pub open spec fn name_matches(b: Json, n: Seq<char>) -> bool {
    str_field(b, "name"@) == Some(n)
}

/// Index of the first catalog entry named `n`.
pub open spec fn first_match_index(bs: Seq<Json>, n: Seq<char>) -> Option<int>
    decreases bs.len(),
{
    if bs.len() == 0 {
        None
    } else if name_matches(bs[0], n) {
        Some(0)
    } else {
        match first_match_index(bs.drop_first(), n) {
            Some(i) => Some(i + 1),
            None => None,
        }
    }
}

/// The catalog entry that binding selection picks: the first entry named by
/// the override when one is given, else the first entry.
pub open spec fn selected_binding(bs: Seq<Json>, name_override: Option<Seq<char>>) -> Option<Json> {
    match name_override {
        Some(n) => match first_match_index(bs, n) {
            Some(i) => Some(bs[i]),
            None => None,
        },
        None => if bs.len() > 0 {
            Some(bs[0])
        } else {
            None
        },
    }
}

/// What catalog parsing makes of a parsed document: the service-class key
/// must hold an array, an entry must be selected, and its `credentials`
/// object must satisfy one of the two binding shapes; any mismatch gives
/// `None`, never an error.
pub open spec fn catalog_resolve(doc: Option<Json>, name_override: Option<Seq<char>>) -> Option<
    CredView,
> {
    match doc {
        None => None,
        Some(d) => match json_get(d, "genai"@) {
            Some(g) => match g {
                Json::Arr(bs) => match selected_binding(bs@, name_override) {
                    Some(b) => match json_get(b, "credentials"@) {
                        Some(c) => binding_creds_spec(c),
                        None => None,
                    },
                    None => None,
                },
                _ => None,
            },
            None => None,
        },
    }
}

/// The characters of an optional borrowed string.
pub open spec fn opt_str_view(o: Option<&str>) -> Option<Seq<char>> {
    match o {
        Some(s) => Some(s@),
        None => None,
    }
}

/// Whether one catalog entry carries the looked-for name; used by binding
/// selection.
fn entry_named(b: &Json, name: &str) -> (r: bool)
    ensures
        r == name_matches(*b, name@),
{
    match get_str_field(b, "name") {
        Some(s) => str_eq(s.as_str(), name),
        None => false,
    }
}

/// Position of the first catalog entry carrying the looked-for name.
fn find_named(bs: &Vec<Json>, name: &str) -> (r: Option<usize>)
    ensures
        match r {
            Some(i) => i < bs@.len() && first_match_index(bs@, name@) == Some(i as int),
            None => first_match_index(bs@, name@) is None,
        },
{
    let n = bs.len();
    let mut i: usize = 0;
    while i < n
        invariant
            n == bs@.len(),
            i <= n,
            forall|j: int| 0 <= j < i ==> !name_matches(bs@[j], name@),
        decreases n - i,
    {
        if entry_named(&bs[i], name) {
            proof {
                lemma_binding_selection(bs@, name@);
            }
            return Some(i);
        }
        i = i + 1;
    }
    proof {
        lemma_binding_selection(bs@, name@);
    }
    None
}

/// Parse a service-catalog document and resolve one binding's credentials.
/// Malformed JSON, a missing or non-array service-class key, no selectable
/// entry, or an unrecognizable binding all yield `None` — never an error.
pub fn parse_vcap_services(vcap_json: &str, binding_name: Option<&str>) -> (r: Option<Credentials>)
    ensures
        match r {
            Some(c) => catalog_resolve(json_parse(vcap_json@), opt_str_view(binding_name)) == Some(
                c@,
            ),
            None => catalog_resolve(json_parse(vcap_json@), opt_str_view(binding_name)) is None,
        },
{
    let doc = match parse_json_text(vcap_json) {
        Some(d) => d,
        None => {
            return None;
        },
    };
    let g = match json_obj_get(&doc, "genai") {
        Some(g) => g,
        None => {
            return None;
        },
    };
    let bs = match g {
        Json::Arr(bs) => bs,
        _ => {
            return None;
        },
    };
    let binding = match binding_name {
        Some(name) => {
            match find_named(bs, name) {
                Some(i) => &bs[i],
                None => {
                    return None;
                },
            }
        },
        None => {
            if bs.len() > 0 {
                &bs[0]
            } else {
                return None;
            }
        },
    };
    let c = match json_obj_get(binding, "credentials") {
        Some(c) => c,
        None => {
            return None;
        },
    };
    parse_binding_credentials(c)
}

/// Configuration surface handed to the resolver: the explicit parameters and
/// the two environment documents, each absent when unset.
#[derive(Debug)]
pub struct ResolverConfig {
    /// Explicit endpoint base.
    pub endpoint: Option<String>,
    /// Explicit secret bearer token.
    pub api_key: Option<String>,
    /// Explicit discovery URL.
    pub config_url: Option<String>,
    /// Explicit advisory model name.
    pub model_name: Option<String>,
    /// The platform-injected service-catalog JSON document.
    pub vcap_services: Option<String>,
    /// Override selecting a named binding from the catalog.
    pub binding_name: Option<String>,
}

/// Mathematical image of the configuration surface.
pub struct ConfigView {
    pub endpoint: Option<Seq<char>>,
    pub api_key: Option<Seq<char>>,
    pub config_url: Option<Seq<char>>,
    pub model_name: Option<Seq<char>>,
    pub vcap_services: Option<Seq<char>>,
    pub binding_name: Option<Seq<char>>,
}

impl View for ResolverConfig {
    type V = ConfigView;

    open spec fn view(&self) -> ConfigView {
        ConfigView {
            endpoint: opt_view(self.endpoint),
            api_key: opt_view(self.api_key),
            config_url: opt_view(self.config_url),
            model_name: opt_view(self.model_name),
            vcap_services: opt_view(self.vcap_services),
            binding_name: opt_view(self.binding_name),
        }
    }
}

/// The record resolution owes for a given configuration: explicit endpoint
/// and key win outright, taken verbatim with the optional explicit fields;
/// otherwise the catalog document, when present, is parsed and resolved; any
/// catalog failure counts as absence.
pub open spec fn resolve_spec(c: ConfigView) -> Option<CredView> {
    if c.endpoint is Some && c.api_key is Some {
        Some(
            CredView {
                endpoint_base: c.endpoint.unwrap(),
                api_key: c.api_key.unwrap(),
                config_url: c.config_url,
                model_name: c.model_name,
            },
        )
    } else {
        match c.vcap_services {
            Some(v) => catalog_resolve(json_parse(v), c.binding_name),
            None => None,
        }
    }
}

/// Why resolution can fail.
#[derive(Debug, Clone, Copy, PartialEq, Eq, Structural)]
pub enum CredentialError {
    /// Neither explicit configuration nor the service catalog yielded
    /// credentials.
    NotConfigured,
}

impl CredentialError {
    /// A descriptive message naming both remediation paths.
    pub fn message(&self) -> (r: String)
        ensures
            r@
                == "Tanzu AI Services credentials not found. Set TANZU_AI_ENDPOINT and TANZU_AI_API_KEY, or run on Cloud Foundry with a bound genai service instance."@,
    {
        String::from_str(
            "Tanzu AI Services credentials not found. Set TANZU_AI_ENDPOINT and TANZU_AI_API_KEY, or run on Cloud Foundry with a bound genai service instance.",
        )
    }
}

/// Clone an optional string.
fn opt_clone(o: &Option<String>) -> (r: Option<String>)
    ensures
        opt_view(r) == opt_view(*o),
{
    match o {
        Some(s) => Some(s.clone()),
        None => None,
    }
}

/// Resolve credentials with strict precedence: explicit configuration first,
/// then service-catalog auto-detection, else a configuration error. Succeeds
/// exactly when one of the two sources yields a record.
pub fn resolve_credentials(cfg: &ResolverConfig) -> (r: Result<Credentials, CredentialError>)
    ensures
        match r {
            Ok(c) => resolve_spec(cfg@) == Some(c@),
            Err(e) => resolve_spec(cfg@) is None && e == CredentialError::NotConfigured,
        },
{
    match (&cfg.endpoint, &cfg.api_key) {
        (Some(endpoint), Some(api_key)) => {
            return Ok(
                Credentials {
                    endpoint_base: endpoint.clone(),
                    api_key: api_key.clone(),
                    config_url: opt_clone(&cfg.config_url),
                    model_name: opt_clone(&cfg.model_name),
                },
            );
        },
        _ => {},
    }
    match &cfg.vcap_services {
        Some(vcap) => {
            let binding_name: Option<&str> = match &cfg.binding_name {
                Some(b) => Some(b.as_str()),
                None => None,
            };
            match parse_vcap_services(vcap.as_str(), binding_name) {
                Some(c) => {
                    return Ok(c);
                },
                None => {},
            }
        },
        None => {},
    }
    Err(CredentialError::NotConfigured)
}

/// When an `endpoint` object with `api_base` and `api_key` is present, the
/// detector returns its `api_base` verbatim as `endpoint_base`, whatever
/// top-level `api_base` or other siblings say; `model_name` comes from the
/// top-level sibling alone.
pub proof fn lemma_endpoint_block_wins(j: Json)
    requires
        json_get(j, "endpoint"@) is Some,
        str_field(json_get(j, "endpoint"@).unwrap(), "api_base"@) is Some,
        str_field(json_get(j, "endpoint"@).unwrap(), "api_key"@) is Some,
    ensures
        ({
            let ep = json_get(j, "endpoint"@).unwrap();
            binding_creds_spec(j) == Some(
                CredView {
                    endpoint_base: str_field(ep, "api_base"@).unwrap(),
                    api_key: str_field(ep, "api_key"@).unwrap(),
                    config_url: str_field(ep, "config_url"@),
                    model_name: str_field(j, "model_name"@),
                },
            )
        }),
{
}

/// When no `endpoint` object is present, the legacy shape applies:
/// `endpoint_base` is the top-level `api_base` with a trailing slash and
/// `/openai` segment stripped, and `config_url` is always absent.
pub proof fn lemma_legacy_binding(j: Json)
    requires
        json_get(j, "endpoint"@) is None,
        str_field(j, "api_base"@) is Some,
        str_field(j, "api_key"@) is Some,
    ensures
        binding_creds_spec(j) == Some(
            CredView {
                endpoint_base: strip_spec(str_field(j, "api_base"@).unwrap()),
                api_key: str_field(j, "api_key"@).unwrap(),
                config_url: None,
                model_name: str_field(j, "model_name"@),
            },
        ),
{
}

/// A catalog without the service-class key, with a non-array under it, or
/// with an empty array yields no credentials.
pub proof fn lemma_catalog_without_bindings(d: Json, name_override: Option<Seq<char>>)
    requires
        match json_get(d, "genai"@) {
            None => true,
            Some(g) => g matches Json::Arr(bs) ==> bs@.len() == 0,
        },
    ensures
        catalog_resolve(Some(d), name_override) is None,
{
}

/// Binding selection: a name override picks the first entry carrying that
/// name and yields nothing when no entry does; without an override the first
/// entry is picked, and an empty catalog yields nothing.
pub proof fn lemma_binding_selection(bs: Seq<Json>, n: Seq<char>)
    ensures
        match first_match_index(bs, n) {
            Some(i) => 0 <= i < bs.len() && name_matches(bs[i], n) && (forall|j: int|
                0 <= j < i ==> !name_matches(bs[j], n)) && selected_binding(bs, Some(n)) == Some(
                bs[i],
            ),
            None => (forall|j: int| 0 <= j < bs.len() ==> !name_matches(bs[j], n))
                && selected_binding(bs, Some(n)) is None,
        },
        bs.len() > 0 ==> selected_binding(bs, None) == Some(bs[0]),
        bs.len() == 0 ==> selected_binding(bs, None) is None,
    decreases bs.len(),
{
    if bs.len() == 0 {
    } else if name_matches(bs[0], n) {
    } else {
        lemma_binding_selection(bs.drop_first(), n);
        let rest = bs.drop_first();
        assert(forall|j: int| 0 <= j < rest.len() ==> rest[j] == bs[j + 1]);
        match first_match_index(rest, n) {
            Some(i) => {
                assert(first_match_index(bs, n) == Some(i + 1));
                assert(name_matches(bs[i + 1], n));
                assert forall|j: int| 0 <= j < i + 1 implies !name_matches(bs[j], n) by {
                    if j > 0 {
                        assert(!name_matches(rest[j - 1], n));
                    }
                }
            },
            None => {
                assert forall|j: int| 0 <= j < bs.len() implies !name_matches(bs[j], n) by {
                    if j > 0 {
                        assert(!name_matches(rest[j - 1], n));
                    }
                }
            },
        }
    }
}

} // verus!
