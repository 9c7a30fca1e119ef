use vstd::prelude::*;

use std::time::Duration;

use url::Host;

use crate::domain::translation::ProviderProfileId;
use crate::json::{contains_secret_key, has_secret_key, JsonValue};
use crate::text::{chars_of, is_blank, is_blank_spec, str_equal};

verus! {

/// The fixed protocol families supported by provider profiles.
#[derive(Clone, Copy, Debug, PartialEq, Eq, Structural)]
pub enum ProviderProtocol {
    OpenAi,
    Anthropic,
    Gemini,
    OpenAiCompatible,
}

/// A span of time as whole seconds and the nanoseconds of the second begun
/// (the parts of a `std::time::Duration`).
#[derive(Clone, Copy, Debug, PartialEq, Eq, Structural)]
pub struct Timeout {
    pub seconds: u64,
    pub nanoseconds: u32,
}

/// What `Duration::as_secs` returns for a duration: its whole seconds.
pub uninterp spec fn duration_seconds_of(duration: Duration) -> u64;

/// What `Duration::subsec_nanos` returns for a duration: the nanoseconds of the second begun.
pub uninterp spec fn duration_nanoseconds_of(duration: Duration) -> u32;

/// Calls `Duration::as_secs`: the whole seconds of the duration.
#[verifier::external_body]
fn duration_seconds(duration: Duration) -> (seconds: u64)
    ensures
        seconds == duration_seconds_of(duration),
{
    duration.as_secs()
}

/// Calls `Duration::subsec_nanos`, which std documents to be below one billion.
#[verifier::external_body]
fn duration_subsecond_nanos(duration: Duration) -> (nanoseconds: u32)
    ensures
        nanoseconds == duration_nanoseconds_of(duration),
        nanoseconds < 1_000_000_000,
{
    duration.subsec_nanos()
}

/// Calls `Duration::new`, which cannot overflow when the nanoseconds are below one billion;
/// the duration made has exactly the whole seconds and nanoseconds it was given.
#[verifier::external_body]
fn duration_new(seconds: u64, nanoseconds: u32) -> (duration: Duration)
    requires
        nanoseconds < 1_000_000_000,
    ensures
        duration_seconds_of(duration) == seconds,
        duration_nanoseconds_of(duration) == nanoseconds,
{
    Duration::new(seconds, nanoseconds)
}

impl Timeout {
    /// The span holds no time.
    pub open spec fn is_zero_spec(self) -> bool {
        self.seconds == 0 && self.nanoseconds == 0
    }

    /// Its parts are those of a `Duration`: the nanoseconds stay below one second.
    pub open spec fn is_normalized(self) -> bool {
        self.nanoseconds < 1_000_000_000
    }

    /// The parts of a `Duration`.
    pub open spec fn of_duration(duration: Duration) -> Timeout {
        Timeout {
            seconds: duration_seconds_of(duration),
            nanoseconds: duration_nanoseconds_of(duration),
        }
    }

    /// The parts of a `Duration`.
    pub fn from_duration(duration: Duration) -> (timeout: Timeout)
        ensures
            timeout == Timeout::of_duration(duration),
            timeout.is_normalized(),
    {
        Timeout {
            seconds: duration_seconds(duration),
            nanoseconds: duration_subsecond_nanos(duration),
        }
    }

    /// Whole seconds.
    pub fn from_secs(seconds: u64) -> (timeout: Timeout)
        ensures
            timeout == (Timeout { seconds, nanoseconds: 0 }),
    {
        Timeout { seconds, nanoseconds: 0 }
    }

    /// The `Duration` with these parts.
    pub fn to_duration(self) -> (duration: Duration)
        requires
            self.is_normalized(),
        ensures
            Timeout::of_duration(duration) == self,
    {
        duration_new(self.seconds, self.nanoseconds)
    }

    pub fn is_zero(self) -> (zero: bool)
        ensures
            zero == self.is_zero_spec(),
    {
        self.seconds == 0 && self.nanoseconds == 0
    }
}

/// The host of a parsed URL.
#[derive(Clone, Debug, PartialEq, Eq)]
pub enum UrlHost {
    Absent,
    Domain(String),
    Ipv4([u8; 4]),
    Ipv6([u16; 8]),
}

/// The parts of a parsed URL that the endpoint policy reads.
#[derive(Clone, Debug, PartialEq, Eq)]
pub struct UrlParts {
    pub serialization: String,
    pub scheme: String,
    pub username: String,
    pub password: Option<String>,
    pub fragment: Option<String>,
    pub host: UrlHost,
}

/// The host of a parsed URL, as plain values.
pub enum UrlHostView {
    Absent,
    Domain(Seq<char>),
    Ipv4(Seq<u8>),
    Ipv6(Seq<u16>),
}

/// The parts of a parsed URL, as plain values.
pub struct UrlPartsView {
    pub serialization: Seq<char>,
    pub scheme: Seq<char>,
    pub username: Seq<char>,
    pub password: Option<Seq<char>>,
    pub fragment: Option<Seq<char>>,
    pub host: UrlHostView,
}

impl View for UrlHost {
    type V = UrlHostView;

    open spec fn view(&self) -> UrlHostView {
        match self {
            UrlHost::Absent => UrlHostView::Absent,
            UrlHost::Domain(name) => UrlHostView::Domain(name@),
            UrlHost::Ipv4(octets) => UrlHostView::Ipv4(octets@),
            UrlHost::Ipv6(segments) => UrlHostView::Ipv6(segments@),
        }
    }
}

pub open spec fn optional_text(text: Option<String>) -> Option<Seq<char>> {
    match text {
        Some(t) => Some(t@),
        None => None,
    }
}

impl View for UrlParts {
    type V = UrlPartsView;

    open spec fn view(&self) -> UrlPartsView {
        UrlPartsView {
            serialization: self.serialization@,
            scheme: self.scheme@,
            username: self.username@,
            password: optional_text(self.password),
            fragment: optional_text(self.fragment),
            host: self.host@,
        }
    }
}

/// What `url::Url::parse` makes of a text: nothing when it fails, else the parts of the
/// URL (its serialization, scheme, user name, password, fragment and host).
pub uninterp spec fn url_parts(text: Seq<char>) -> Option<UrlPartsView>;

/// What `url::Url::as_str` returns for a parsed URL: its serialization.
pub uninterp spec fn url_serialization(url: url::Url) -> Seq<char>;

/// Calls `url::Url::parse` and reads the parsed URL's `as_str`, `scheme`, `username`,
/// `password`, `fragment` and `host`. The contract names what comes out `url_parts`, and
/// the URL handed back serializes as the parts say.
#[verifier::external_body]
fn parse_url(text: &str) -> (parsed: Option<(url::Url, UrlParts)>)
    ensures
        match parsed {
            Some((url, parts)) => url_parts(text@) == Some(parts@) && url_serialization(url)
                == parts@.serialization,
            None => url_parts(text@) is None,
        },
{
    let url = url::Url::parse(text).ok()?;
    let host = match url.host() {
        Some(Host::Domain(name)) => UrlHost::Domain(name.to_owned()),
        Some(Host::Ipv4(address)) => UrlHost::Ipv4(address.octets()),
        Some(Host::Ipv6(address)) => UrlHost::Ipv6(address.segments()),
        None => UrlHost::Absent,
    };
    let (serialization, scheme) = (url.as_str().to_owned(), url.scheme().to_owned());
    let (username, password) = (url.username().to_owned(), url.password().map(str::to_owned));
    let fragment = url.fragment().map(str::to_owned);
    Some((url, UrlParts { serialization, scheme, username, password, fragment, host }))
}

#[verifier::external_type_specification]
#[verifier::external_body]
pub struct ExUrl(::url::Url);

/// A loopback host: the domain `localhost`, an IPv4 address in `127.0.0.0/8`, or the
/// IPv6 address `::1` (as `Ipv4Addr::is_loopback` and `Ipv6Addr::is_loopback` define it).
pub open spec fn is_loopback_host(host: UrlHostView) -> bool {
    match host {
        UrlHostView::Domain(name) => name == "localhost"@,
        UrlHostView::Ipv4(octets) => octets.len() == 4 && octets[0] == 127,
        UrlHostView::Ipv6(segments) => segments == seq![0u16, 0, 0, 0, 0, 0, 0, 1],
        UrlHostView::Absent => false,
    }
}

/// The endpoint policy on a parsed URL: no user information, no fragment, and HTTPS
/// (plain HTTP only to a loopback host).
pub open spec fn endpoint_policy_spec(parts: UrlPartsView) -> Result<(), ProviderProfileError> {
    if parts.username.len() > 0 || parts.password is Some {
        Err(ProviderProfileError::EndpointContainsUserInfo)
    } else if parts.fragment is Some {
        Err(ProviderProfileError::EndpointContainsFragment)
    } else if parts.scheme == "https"@ {
        Ok(())
    } else if parts.scheme == "http"@ {
        if is_loopback_host(parts.host) {
            Ok(())
        } else {
            Err(ProviderProfileError::InsecureRemoteEndpoint)
        }
    } else {
        Err(ProviderProfileError::UnsupportedEndpointScheme)
    }
}

fn is_loopback_host_exec(host: &UrlHost) -> (loopback: bool)
    ensures
        loopback == is_loopback_host(host@),
{
    match host {
        UrlHost::Domain(name) => {
            proof {
                reveal_strlit("localhost");
            }
            str_equal(name.as_str(), "localhost")
        },
        UrlHost::Ipv4(octets) => octets[0] == 127,
        UrlHost::Ipv6(segments) => {
            let loopback = segments[0] == 0 && segments[1] == 0 && segments[2] == 0 && segments[3]
                == 0 && segments[4] == 0 && segments[5] == 0 && segments[6] == 0 && segments[7]
                == 1;
            assert(loopback == (segments@ =~= seq![0u16, 0, 0, 0, 0, 0, 0, 1]));
            loopback
        },
        UrlHost::Absent => false,
    }
}

/// Applies the endpoint policy to the parts of a parsed URL.
pub fn endpoint_policy(parts: &UrlParts) -> (verdict: Result<(), ProviderProfileError>)
    ensures
        verdict == endpoint_policy_spec(parts@),
{
    if chars_of(parts.username.as_str()).len() > 0 || parts.password.is_some() {
        return Err(ProviderProfileError::EndpointContainsUserInfo);
    }
    if parts.fragment.is_some() {
        return Err(ProviderProfileError::EndpointContainsFragment);
    }
    proof {
        reveal_strlit("https");
        reveal_strlit("http");
    }
    if str_equal(parts.scheme.as_str(), "https") {
        Ok(())
    } else if str_equal(parts.scheme.as_str(), "http") {
        if is_loopback_host_exec(&parts.host) {
            Ok(())
        } else {
            Err(ProviderProfileError::InsecureRemoteEndpoint)
        }
    } else {
        Err(ProviderProfileError::UnsupportedEndpointScheme)
    }
}

/// A custom provider endpoint that has passed the network safety policy.
#[derive(Debug)]
pub struct ProviderEndpoint {
    url: url::Url,
    text: String,
}

impl ProviderEndpoint {
    #[verifier::type_invariant]
    spec fn serializes_as_text(self) -> bool {
        url_serialization(self.url) == self.text@
    }

    /// The serialized URL.
    pub closed spec fn as_str_spec(&self) -> Seq<char> {
        self.text@
    }

    /// The outcome of parsing `value` as an endpoint, given what the URL parser made of it.
    pub open spec fn parse_spec(value: Seq<char>) -> Result<Seq<char>, ProviderProfileError> {
        match url_parts(value) {
            None => Err(ProviderProfileError::InvalidEndpoint),
            Some(parts) => match endpoint_policy_spec(parts) {
                Ok(()) => Ok(parts.serialization),
                Err(e) => Err(e),
            },
        }
    }

    /// Parses and validates a provider endpoint before it is stored or requested.
    pub fn parse(value: &str) -> (endpoint: Result<Self, ProviderProfileError>)
        ensures
            match endpoint {
                Ok(e) => Self::parse_spec(value@) == Ok::<Seq<char>, ProviderProfileError>(
                    e.as_str_spec(),
                ),
                Err(error) => Self::parse_spec(value@) == Err::<Seq<char>, ProviderProfileError>(
                    error,
                ),
            },
    {
        match parse_url(value) {
            None => Err(ProviderProfileError::InvalidEndpoint),
            Some((url, parts)) => match endpoint_policy(&parts) {
                Ok(()) => Ok(ProviderEndpoint { url, text: parts.serialization }),
                Err(error) => Err(error),
            },
        }
    }

    /// The parsed URL, which serializes as the endpoint's text.
    pub fn url(&self) -> (url: &url::Url)
        ensures
            url_serialization(*url) == self.as_str_spec(),
    {
        proof {
            use_type_invariant(self);
        }
        &self.url
    }

    /// The serialized URL.
    pub fn as_str(&self) -> (text: &str)
        ensures
            text@ == self.as_str_spec(),
    {
        self.text.as_str()
    }
}

/// Non-secret request configuration for a provider profile.
#[derive(Debug, PartialEq, Eq)]
pub struct ProviderParameters {
    timeout: Timeout,
    options: JsonValue,
}

/// The checks on a request timeout and its options, in order: a zero timeout, options that
/// are not an object, and options that name credential material are refused.
pub open spec fn parameters_verdict(timeout: Timeout, options: JsonValue) -> Result<
    (),
    ProviderProfileError,
> {
    if timeout.is_zero_spec() {
        Err(ProviderProfileError::InvalidTimeout)
    } else if !options.is_object_spec() {
        Err(ProviderProfileError::ParametersMustBeObject)
    } else if has_secret_key(options) {
        Err(ProviderProfileError::SecretInParameters)
    } else {
        Ok(())
    }
}

impl ProviderParameters {
    #[verifier::type_invariant]
    spec fn is_valid(self) -> bool {
        self.timeout.is_normalized() && parameters_verdict(self.timeout, self.options) is Ok
    }

    pub closed spec fn timeout_spec(&self) -> Timeout {
        self.timeout
    }

    pub closed spec fn options_spec(&self) -> JsonValue {
        self.options
    }

    /// Creates validated, non-secret request parameters from a timeout's parts.
    pub fn from_timeout(timeout: Timeout, options: JsonValue) -> (parameters: Result<
        Self,
        ProviderProfileError,
    >)
        requires
            timeout.is_normalized(),
        ensures
            match parameters {
                Ok(p) => parameters_verdict(timeout, options) is Ok && p.timeout_spec() == timeout
                    && p.options_spec() == options,
                Err(e) => parameters_verdict(timeout, options) == Err::<(), ProviderProfileError>(
                    e,
                ),
            },
    {
        if timeout.is_zero() {
            return Err(ProviderProfileError::InvalidTimeout);
        }
        if !options.is_object() {
            return Err(ProviderProfileError::ParametersMustBeObject);
        }
        if contains_secret_key(&options) {
            return Err(ProviderProfileError::SecretInParameters);
        }
        Ok(ProviderParameters { timeout, options })
    }

    /// Creates validated, non-secret request parameters.
    pub fn new(timeout: Duration, options: JsonValue) -> (parameters: Result<
        Self,
        ProviderProfileError,
    >)
        ensures
            match parameters {
                Ok(p) => parameters_verdict(Timeout::of_duration(timeout), options) is Ok
                    && p.timeout_spec() == Timeout::of_duration(timeout) && p.options_spec()
                    == options,
                Err(e) => parameters_verdict(Timeout::of_duration(timeout), options) == Err::<
                    (),
                    ProviderProfileError,
                >(e),
            },
    {
        Self::from_timeout(Timeout::from_duration(timeout), options)
    }

    /// The default: a two-minute timeout and no options.
    pub fn default_parameters() -> (parameters: Self)
        ensures
            parameters.timeout_spec() == Timeout::from_secs_spec(120),
            parameters.options_spec() matches JsonValue::Object(entries) && entries@.len() == 0,
    {
        ProviderParameters { timeout: Timeout::from_secs(120), options: JsonValue::Object(Vec::new()) }
    }

    pub fn timeout(&self) -> (timeout: Duration)
        ensures
            Timeout::of_duration(timeout) == self.timeout_spec(),
    {
        proof {
            use_type_invariant(self);
        }
        self.timeout.to_duration()
    }

    /// The timeout's parts.
    pub fn timeout_parts(&self) -> (timeout: Timeout)
        ensures
            timeout == self.timeout_spec(),
            timeout.is_normalized(),
            !timeout.is_zero_spec(),
    {
        proof {
            use_type_invariant(self);
        }
        self.timeout
    }

    pub fn options(&self) -> (options: &JsonValue)
        ensures
            *options == self.options_spec(),
            options.is_object_spec(),
            !has_secret_key(*options),
    {
        proof {
            use_type_invariant(self);
        }
        &self.options
    }
}

impl Timeout {
    pub open spec fn from_secs_spec(seconds: u64) -> Timeout {
        Timeout { seconds, nanoseconds: 0 }
    }
}

impl Default for ProviderParameters {
    fn default() -> (parameters: Self)
        ensures
            parameters.timeout_spec() == Timeout::from_secs_spec(120),
            parameters.options_spec() matches JsonValue::Object(entries) && entries@.len() == 0,
    {
        Self::default_parameters()
    }
}

/// Validation failures that are safe to expose without revealing secrets.
#[derive(Clone, Copy, Debug, PartialEq, Eq, Structural)]
pub enum ProviderProfileError {
    EmptyDisplayName,
    EmptyModel,
    InvalidEndpoint,
    EndpointContainsUserInfo,
    EndpointContainsFragment,
    InsecureRemoteEndpoint,
    UnsupportedEndpointScheme,
    InvalidTimeout,
    ParametersMustBeObject,
    SecretInParameters,
}

/// One user-configured instance of a compiled-in provider protocol.
#[derive(Debug)]
pub struct ProviderProfile {
    id: ProviderProfileId,
    protocol: ProviderProtocol,
    display_name: String,
    endpoint: Option<ProviderEndpoint>,
    model: String,
    parameters: ProviderParameters,
    secret_ref: Option<String>,
    enabled: bool,
    sort_order: u32,
}

/// The checks on a profile's display name, model and endpoint, in order.
pub open spec fn profile_verdict(
    display_name: Seq<char>,
    endpoint: Option<Seq<char>>,
    model: Seq<char>,
) -> Result<Option<Seq<char>>, ProviderProfileError> {
    if is_blank_spec(display_name) {
        Err(ProviderProfileError::EmptyDisplayName)
    } else if is_blank_spec(model) {
        Err(ProviderProfileError::EmptyModel)
    } else {
        match endpoint {
            None => Ok(None),
            Some(text) => match ProviderEndpoint::parse_spec(text) {
                Ok(serialization) => Ok(Some(serialization)),
                Err(e) => Err(e),
            },
        }
    }
}

pub open spec fn optional_str(text: Option<&str>) -> Option<Seq<char>> {
    match text {
        Some(t) => Some(t@),
        None => None,
    }
}

pub open spec fn optional_endpoint(endpoint: Option<ProviderEndpoint>) -> Option<Seq<char>> {
    match endpoint {
        Some(e) => Some(e.as_str_spec()),
        None => None,
    }
}

impl ProviderProfile {
    pub closed spec fn id_spec(&self) -> ProviderProfileId {
        self.id
    }

    pub closed spec fn protocol_spec(&self) -> ProviderProtocol {
        self.protocol
    }

    pub closed spec fn display_name_spec(&self) -> Seq<char> {
        self.display_name@
    }

    pub closed spec fn endpoint_spec(&self) -> Option<ProviderEndpoint> {
        self.endpoint
    }

    pub closed spec fn model_spec(&self) -> Seq<char> {
        self.model@
    }

    pub closed spec fn parameters_spec(&self) -> ProviderParameters {
        self.parameters
    }

    pub closed spec fn secret_ref_spec(&self) -> Option<Seq<char>> {
        optional_text(self.secret_ref)
    }

    pub closed spec fn enabled_spec(&self) -> bool {
        self.enabled
    }

    pub closed spec fn sort_order_spec(&self) -> u32 {
        self.sort_order
    }

    /// Creates a validated provider profile with only a non-secret credential reference.
    pub fn new(
        id: ProviderProfileId,
        protocol: ProviderProtocol,
        display_name: &str,
        endpoint: Option<&str>,
        model: &str,
        parameters: ProviderParameters,
        secret_ref: Option<&str>,
        enabled: bool,
        sort_order: u32,
    ) -> (profile: Result<Self, ProviderProfileError>)
        ensures
            match profile {
                Ok(p) => {
                    &&& profile_verdict(display_name@, optional_str(endpoint), model@)
                        == Ok::<Option<Seq<char>>, ProviderProfileError>(
                        optional_endpoint(p.endpoint_spec()),
                    )
                    &&& p.id_spec() == id
                    &&& p.protocol_spec() == protocol
                    &&& p.display_name_spec() == display_name@
                    &&& p.model_spec() == model@
                    &&& p.parameters_spec() == parameters
                    &&& p.secret_ref_spec() == optional_str(secret_ref)
                    &&& p.enabled_spec() == enabled
                    &&& p.sort_order_spec() == sort_order
                },
                Err(e) => profile_verdict(display_name@, optional_str(endpoint), model@) == Err::<
                    Option<Seq<char>>,
                    ProviderProfileError,
                >(e),
            },
    {
        let name_chars = chars_of(display_name);
        if is_blank(name_chars.as_slice()) {
            return Err(ProviderProfileError::EmptyDisplayName);
        }
        let model_chars = chars_of(model);
        if is_blank(model_chars.as_slice()) {
            return Err(ProviderProfileError::EmptyModel);
        }
        let endpoint = match endpoint {
            None => None,
            Some(text) => match ProviderEndpoint::parse(text) {
                Ok(e) => Some(e),
                Err(error) => {
                    return Err(error);
                },
            },
        };
        let secret_ref = match secret_ref {
            Some(text) => Some(text.to_string()),
            None => None,
        };
        Ok(ProviderProfile {
            id,
            protocol,
            display_name: display_name.to_string(),
            endpoint,
            model: model.to_string(),
            parameters,
            secret_ref,
            enabled,
            sort_order,
        })
    }

    pub fn id(&self) -> (id: ProviderProfileId)
        ensures
            id == self.id_spec(),
    {
        self.id
    }

    pub fn protocol(&self) -> (protocol: ProviderProtocol)
        ensures
            protocol == self.protocol_spec(),
    {
        self.protocol
    }

    pub fn display_name(&self) -> (name: &str)
        ensures
            name@ == self.display_name_spec(),
    {
        self.display_name.as_str()
    }

    pub fn endpoint(&self) -> (endpoint: Option<&ProviderEndpoint>)
        ensures
            match self.endpoint_spec() {
                Some(e) => endpoint == Some(&e),
                None => endpoint is None,
            },
    {
        match &self.endpoint {
            Some(e) => Some(e),
            None => None,
        }
    }

    pub fn model(&self) -> (model: &str)
        ensures
            model@ == self.model_spec(),
    {
        self.model.as_str()
    }

    pub fn parameters(&self) -> (parameters: &ProviderParameters)
        ensures
            *parameters == self.parameters_spec(),
    {
        &self.parameters
    }

    pub fn secret_ref(&self) -> (secret_ref: Option<&str>)
        ensures
            optional_str(secret_ref) == self.secret_ref_spec(),
    {
        match &self.secret_ref {
            Some(text) => Some(text.as_str()),
            None => None,
        }
    }

    pub fn enabled(&self) -> (enabled: bool)
        ensures
            enabled == self.enabled_spec(),
    {
        self.enabled
    }

    pub fn sort_order(&self) -> (sort_order: u32)
        ensures
            sort_order == self.sort_order_spec(),
    {
        self.sort_order
    }
}

} // verus!
