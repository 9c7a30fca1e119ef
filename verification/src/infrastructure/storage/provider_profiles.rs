use vstd::prelude::*;

use crate::domain::provider::{ProviderParameters, ProviderProtocol};
use crate::json::{duplicate_json, json_equal, JsonValue};
use crate::text::{decimal_spec, push_decimal};

verus! {

/// A profile summary safe for settings and IPC consumers; it never holds a credential value.
#[derive(Clone, Debug, PartialEq, Eq)]
pub struct StoredProviderProfile {
    id: String,
    display_name: String,
    protocol: String,
    model: String,
    endpoint: Option<String>,
    enabled: bool,
    sort_order: u32,
    credential_configured: bool,
}

/// The summary of a stored row, or why the row cannot be one: `enabled` is stored as
/// `1`, and the sort order must fit the profile's range.
pub open spec fn stored_row_verdict(sort_order: i64) -> Result<u32, ProviderProfileRepositoryError> {
    if 0 <= sort_order && sort_order <= u32::MAX {
        Ok(sort_order as u32)
    } else {
        Err(ProviderProfileRepositoryError::Storage)
    }
}

impl StoredProviderProfile {
    pub closed spec fn id_spec(&self) -> Seq<char> {
        self.id@
    }

    pub closed spec fn display_name_spec(&self) -> Seq<char> {
        self.display_name@
    }

    pub closed spec fn protocol_spec(&self) -> Seq<char> {
        self.protocol@
    }

    pub closed spec fn model_spec(&self) -> Seq<char> {
        self.model@
    }

    pub closed spec fn endpoint_spec(&self) -> Option<Seq<char>> {
        match self.endpoint {
            Some(e) => Some(e@),
            None => None,
        }
    }

    pub closed spec fn enabled_spec(&self) -> bool {
        self.enabled
    }

    pub closed spec fn sort_order_spec(&self) -> u32 {
        self.sort_order
    }

    pub closed spec fn credential_configured_spec(&self) -> bool {
        self.credential_configured
    }

    /// The summary of one stored row: it keeps only whether a secret reference exists.
    pub fn from_row(
        id: String,
        display_name: String,
        adapter_kind: String,
        model: String,
        endpoint: Option<String>,
        enabled: i64,
        sort_order: i64,
        secret_ref: Option<String>,
    ) -> (profile: Result<Self, ProviderProfileRepositoryError>)
        ensures
            match stored_row_verdict(sort_order) {
                Err(e) => profile == Err::<Self, ProviderProfileRepositoryError>(e),
                Ok(order) => profile matches Ok(p) && {
                    &&& p.id_spec() == id@
                    &&& p.display_name_spec() == display_name@
                    &&& p.protocol_spec() == adapter_kind@
                    &&& p.model_spec() == model@
                    &&& p.endpoint_spec() == match endpoint {
                        Some(e) => Some(e@),
                        None => None::<Seq<char>>,
                    }
                    &&& p.enabled_spec() == (enabled == 1)
                    &&& p.sort_order_spec() == order
                    &&& p.credential_configured_spec() == secret_ref is Some
                },
            },
    {
        if sort_order < 0 || sort_order > u32::MAX as i64 {
            return Err(ProviderProfileRepositoryError::Storage);
        }
        Ok(StoredProviderProfile {
            id,
            display_name,
            protocol: adapter_kind,
            model,
            endpoint,
            enabled: enabled == 1,
            sort_order: sort_order as u32,
            credential_configured: secret_ref.is_some(),
        })
    }

    pub fn display_name(&self) -> (name: &str)
        ensures
            name@ == self.display_name_spec(),
    {
        self.display_name.as_str()
    }

    pub fn has_secret_reference(&self) -> (configured: bool)
        ensures
            configured == self.credential_configured_spec(),
    {
        self.credential_configured
    }
}

/// The stored parameters of a profile: its timeout in whole seconds and its options.
pub fn parameters_document(parameters: &ProviderParameters) -> (document: JsonValue)
    ensures
        document matches JsonValue::Object(entries) && {
            &&& entries@.len() == 2
            &&& entries@[0].0@ == "timeout_seconds"@
            &&& (entries@[0].1 matches JsonValue::Number(n) && n@ == decimal_spec(
                parameters.timeout_spec().seconds as nat,
            ))
            &&& entries@[1].0@ == "options"@
            &&& json_equal(entries@[1].1, parameters.options_spec())
        },
{
    let mut seconds = String::new();
    push_decimal(&mut seconds, parameters.timeout_parts().seconds);
    let mut entries: Vec<(String, JsonValue)> = Vec::new();
    entries.push(("timeout_seconds".to_string(), JsonValue::Number(seconds)));
    entries.push(("options".to_string(), duplicate_json(parameters.options())));
    JsonValue::Object(entries)
}

/// The stored key of a provider protocol.
pub open spec fn protocol_key_spec(protocol: ProviderProtocol) -> Seq<char> {
    match protocol {
        ProviderProtocol::OpenAi => "openai"@,
        ProviderProtocol::Anthropic => "anthropic"@,
        ProviderProtocol::Gemini => "gemini"@,
        ProviderProtocol::OpenAiCompatible => "openai_compatible"@,
    }
}

pub fn protocol_key(protocol: ProviderProtocol) -> (key: &'static str)
    ensures
        key@ == protocol_key_spec(protocol),
{
    match protocol {
        ProviderProtocol::OpenAi => "openai",
        ProviderProtocol::Anthropic => "anthropic",
        ProviderProtocol::Gemini => "gemini",
        ProviderProtocol::OpenAiCompatible => "openai_compatible",
    }
}

#[derive(Clone, Copy, Debug, PartialEq, Eq, Structural)]
pub enum ProviderProfileRepositoryError {
    Storage,
}

} // verus!
