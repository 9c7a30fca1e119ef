use std::time::Duration;

use evolish::domain::provider::{
    endpoint_policy, ProviderEndpoint, ProviderParameters, ProviderProfile, ProviderProfileError,
    ProviderProtocol, Timeout, UrlHost, UrlParts,
};
use evolish::domain::translation::ProviderProfileId;
use evolish::infrastructure::ai::registry::{AiProviderRegistry, ProviderRegistryError};
use evolish::json::{json_equal_exec, numbers_equal_exec, JsonValue};

fn object(entries: Vec<(&str, JsonValue)>) -> JsonValue {
    JsonValue::Object(entries.into_iter().map(|(key, value)| (key.to_owned(), value)).collect())
}

fn parts(scheme: &str, host: UrlHost) -> UrlParts {
    UrlParts {
        serialization: format!("{scheme}://example/"),
        scheme: scheme.to_owned(),
        username: String::new(),
        password: None,
        fragment: None,
        host,
    }
}

#[test]
fn accepts_multiple_instances_of_the_same_provider_protocol() {
    let first = ProviderProfile::new(
        ProviderProfileId::generate(),
        ProviderProtocol::OpenAiCompatible,
        "Personal OpenAI-compatible service",
        Some("https://one.example/v1"),
        "model-one",
        ProviderParameters::default(),
        Some("credential-one"),
        true,
        0,
    )
    .expect("first instance");
    let second = ProviderProfile::new(
        ProviderProfileId::generate(),
        ProviderProtocol::OpenAiCompatible,
        "Work OpenAI-compatible service",
        Some("https://two.example/v1"),
        "model-two",
        ProviderParameters::default(),
        Some("credential-two"),
        true,
        1,
    )
    .expect("second instance");

    assert_ne!(first.id(), second.id());
    assert_eq!(first.protocol(), second.protocol());
}

#[test]
fn endpoint_rejects_credentials_fragments_and_non_loopback_http() {
    assert_eq!(
        ProviderEndpoint::parse("https://secret@example.com/v1").err(),
        Some(ProviderProfileError::EndpointContainsUserInfo)
    );
    assert_eq!(
        ProviderEndpoint::parse("https://api.example.com/v1#ignored").err(),
        Some(ProviderProfileError::EndpointContainsFragment)
    );
    assert_eq!(
        ProviderEndpoint::parse("http://api.example.com/v1").err(),
        Some(ProviderProfileError::InsecureRemoteEndpoint)
    );
    assert!(ProviderEndpoint::parse("http://localhost:11434/v1").is_ok());
    assert!(ProviderEndpoint::parse("http://127.0.0.1:8080/v1").is_ok());
    assert!(ProviderEndpoint::parse("http://[::1]:8080/v1").is_ok());
}

#[test]
fn endpoint_rejects_unparseable_and_unsupported_urls() {
    assert_eq!(ProviderEndpoint::parse("not a url").err(), Some(ProviderProfileError::InvalidEndpoint));
    assert_eq!(
        ProviderEndpoint::parse("ftp://files.example.com/").err(),
        Some(ProviderProfileError::UnsupportedEndpointScheme)
    );
    assert_eq!(
        ProviderEndpoint::parse("https://api.example.com/v1").expect("https").as_str(),
        "https://api.example.com/v1"
    );
}

#[test]
fn endpoint_policy_allows_plain_http_only_to_loopback_hosts() {
    assert_eq!(endpoint_policy(&parts("http", UrlHost::Ipv4([127, 0, 0, 9]))), Ok(()));
    assert_eq!(endpoint_policy(&parts("http", UrlHost::Ipv6([0, 0, 0, 0, 0, 0, 0, 1]))), Ok(()));
    assert_eq!(endpoint_policy(&parts("http", UrlHost::Domain("localhost".to_owned()))), Ok(()));
    assert_eq!(
        endpoint_policy(&parts("http", UrlHost::Ipv4([10, 0, 0, 1]))),
        Err(ProviderProfileError::InsecureRemoteEndpoint)
    );
    assert_eq!(
        endpoint_policy(&parts("http", UrlHost::Absent)),
        Err(ProviderProfileError::InsecureRemoteEndpoint)
    );
    let mut with_password = parts("https", UrlHost::Absent);
    with_password.password = Some("p".to_owned());
    assert_eq!(endpoint_policy(&with_password), Err(ProviderProfileError::EndpointContainsUserInfo));
}

#[test]
fn parameters_default_to_120_seconds_and_accept_safe_json_options() {
    let defaults = ProviderParameters::default();
    assert_eq!(defaults.timeout(), Duration::from_secs(120));

    let options = object(vec![
        ("temperature", JsonValue::Number("0.2".to_owned())),
        ("reasoning_effort", JsonValue::String("low".to_owned())),
    ]);
    let parameters = ProviderParameters::new(Duration::from_secs(45), options.clone())
        .expect("safe parameters");
    assert_eq!(parameters.timeout(), Duration::from_secs(45));
    assert_eq!(parameters.options(), &options);
}

#[test]
fn parameters_reject_secret_material_instead_of_persisting_it_with_a_profile() {
    assert_eq!(
        ProviderParameters::new(
            Duration::from_secs(120),
            object(vec![("api_key", JsonValue::String("canary".to_owned()))])
        )
        .err(),
        Some(ProviderProfileError::SecretInParameters)
    );
}

#[test]
fn parameters_find_secret_keys_in_nested_values_and_refuse_bad_shapes() {
    let nested = object(vec![(
        "extra",
        JsonValue::Array(vec![object(vec![("Authorization", JsonValue::Null)])]),
    )]);
    assert_eq!(
        ProviderParameters::new(Duration::from_secs(1), nested).err(),
        Some(ProviderProfileError::SecretInParameters)
    );
    assert_eq!(
        ProviderParameters::new(Duration::ZERO, object(vec![])).err(),
        Some(ProviderProfileError::InvalidTimeout)
    );
    assert_eq!(
        ProviderParameters::new(Duration::from_secs(1), JsonValue::Array(vec![])).err(),
        Some(ProviderProfileError::ParametersMustBeObject)
    );
}

#[test]
fn profile_requires_a_display_name_and_a_model() {
    let blank_name = ProviderProfile::new(
        ProviderProfileId::generate(),
        ProviderProtocol::OpenAi,
        "  ",
        None,
        "model",
        ProviderParameters::default(),
        None,
        true,
        0,
    );
    assert_eq!(blank_name.err(), Some(ProviderProfileError::EmptyDisplayName));
    let blank_model = ProviderProfile::new(
        ProviderProfileId::generate(),
        ProviderProtocol::OpenAi,
        "Name",
        None,
        "\t",
        ProviderParameters::default(),
        None,
        true,
        0,
    );
    assert_eq!(blank_model.err(), Some(ProviderProfileError::EmptyModel));
}

#[test]
fn registry_exposes_exactly_the_compiled_in_protocols_and_resolves_enabled_profiles() {
    let registry = AiProviderRegistry::new();
    assert_eq!(registry.descriptors().len(), 4);
    let profile = ProviderProfile::new(
        ProviderProfileId::generate(),
        ProviderProtocol::OpenAiCompatible,
        "Local service",
        Some("http://localhost:11434/v1"),
        "local-model",
        ProviderParameters::default(),
        Some("credential-reference"),
        true,
        0,
    )
    .expect("profile");

    let descriptor = registry.resolve(&profile).expect("registered profile");
    assert_eq!(descriptor.protocol(), ProviderProtocol::OpenAiCompatible);
    assert!(descriptor.supports_custom_endpoint());
}

#[test]
fn registry_rejects_disabled_profiles_before_any_http_request() {
    let profile = ProviderProfile::new(
        ProviderProfileId::generate(),
        ProviderProtocol::OpenAi,
        "Disabled",
        None,
        "gpt-test",
        ProviderParameters::default(),
        Some("credential-reference"),
        false,
        0,
    )
    .expect("profile");

    assert_eq!(
        AiProviderRegistry::new().resolve(&profile),
        Err(ProviderRegistryError::ProfileDisabled)
    );
}

#[test]
fn timeouts_keep_the_whole_seconds_and_nanoseconds_of_a_duration() {
    let timeout = Timeout::from_duration(Duration::from_millis(1500));
    assert_eq!(timeout, Timeout { seconds: 1, nanoseconds: 500_000_000 });
    assert_eq!(timeout.to_duration(), Duration::from_millis(1500));
    assert!(!timeout.is_zero());
    assert!(Timeout::from_duration(Duration::ZERO).is_zero());
    let parameters = ProviderParameters::new(Duration::from_secs(45), JsonValue::Object(Vec::new()))
        .expect("valid parameters");
    assert_eq!(parameters.timeout_parts(), Timeout::from_secs(45));
    assert_eq!(parameters.timeout(), Duration::from_secs(45));
}

#[test]
fn a_parsed_endpoint_keeps_the_url_it_serializes_as() {
    let endpoint = ProviderEndpoint::parse("https://Example.COM/v1").expect("https endpoint");
    assert_eq!(endpoint.as_str(), "https://example.com/v1");
    assert_eq!(endpoint.url().as_str(), endpoint.as_str());
    assert_eq!(endpoint.url().host_str(), Some("example.com"));
}

#[test]
fn parameters_compare_numbers_by_value_where_serde_json_does() {
    let zero = object(vec![("temperature", JsonValue::Number("0.0".to_owned()))]);
    let negative_zero = object(vec![("temperature", JsonValue::Number("-0.0".to_owned()))]);
    assert!(json_equal_exec(&zero, &negative_zero));
    assert!(numbers_equal_exec("0.2", "0.2"));
    assert!(!numbers_equal_exec("1", "1.0"));
    assert!(!numbers_equal_exec("0", "0.0"));
}
