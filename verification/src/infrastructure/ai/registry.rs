use vstd::prelude::*;

use crate::domain::provider::{ProviderEndpoint, ProviderProfile, ProviderProtocol};

verus! {

/// Product-owned capabilities for one compiled-in provider protocol.
#[derive(Clone, Copy, Debug, PartialEq, Eq, Structural)]
pub struct ProviderDescriptor {
    protocol: ProviderProtocol,
    supports_custom_endpoint: bool,
}

impl ProviderDescriptor {
    pub closed spec fn protocol_spec(self) -> ProviderProtocol {
        self.protocol
    }

    pub closed spec fn supports_custom_endpoint_spec(self) -> bool {
        self.supports_custom_endpoint
    }

    pub fn protocol(self) -> (protocol: ProviderProtocol)
        ensures
            protocol == self.protocol_spec(),
    {
        self.protocol
    }

    pub fn supports_custom_endpoint(self) -> (supported: bool)
        ensures
            supported == self.supports_custom_endpoint_spec(),
    {
        self.supports_custom_endpoint
    }
}

/// Only the OpenAI-compatible protocol accepts a user-supplied endpoint.
pub open spec fn compiled_in_supports_custom_endpoint(protocol: ProviderProtocol) -> bool {
    protocol == ProviderProtocol::OpenAiCompatible
}

/// The compiled-in protocols in registry order.
pub open spec fn compiled_in_protocols() -> Seq<ProviderProtocol> {
    seq![
        ProviderProtocol::OpenAi,
        ProviderProtocol::Anthropic,
        ProviderProtocol::Gemini,
        ProviderProtocol::OpenAiCompatible,
    ]
}

fn descriptor_for(protocol: ProviderProtocol) -> (descriptor: ProviderDescriptor)
    ensures
        descriptor.protocol_spec() == protocol,
        descriptor.supports_custom_endpoint_spec() == compiled_in_supports_custom_endpoint(protocol),
{
    let supports_custom_endpoint = match protocol {
        ProviderProtocol::OpenAiCompatible => true,
        _ => false,
    };
    ProviderDescriptor { protocol, supports_custom_endpoint }
}

/// Registry containing only the compiled-in provider protocols.
#[derive(Clone, Copy, Debug, Default)]
pub struct AiProviderRegistry;

impl AiProviderRegistry {
    pub fn new() -> (registry: Self) {
        AiProviderRegistry
    }

    /// One descriptor per compiled-in protocol, in registry order.
    pub fn descriptors(&self) -> (descriptors: Vec<ProviderDescriptor>)
        ensures
            descriptors@.len() == compiled_in_protocols().len(),
            forall|i: int|
                0 <= i < descriptors@.len() ==> (#[trigger] descriptors@[i]).protocol_spec()
                    == compiled_in_protocols()[i] && descriptors@[i].supports_custom_endpoint_spec()
                    == compiled_in_supports_custom_endpoint(compiled_in_protocols()[i]),
    {
        let mut descriptors = Vec::new();
        descriptors.push(descriptor_for(ProviderProtocol::OpenAi));
        descriptors.push(descriptor_for(ProviderProtocol::Anthropic));
        descriptors.push(descriptor_for(ProviderProtocol::Gemini));
        descriptors.push(descriptor_for(ProviderProtocol::OpenAiCompatible));
        descriptors
    }

    /// The descriptor of a compiled-in protocol.
    pub fn descriptor(&self, protocol: ProviderProtocol) -> (descriptor: Option<ProviderDescriptor>)
        ensures
            descriptor matches Some(d) && d.protocol_spec() == protocol
                && d.supports_custom_endpoint_spec() == compiled_in_supports_custom_endpoint(
                protocol,
            ),
    {
        Some(descriptor_for(protocol))
    }

    /// The descriptor that serves a profile: only an enabled profile whose stored endpoint
    /// still passes the endpoint policy resolves.
    pub fn resolve(&self, profile: &ProviderProfile) -> (descriptor: Result<
        ProviderDescriptor,
        ProviderRegistryError,
    >)
        ensures
            !profile.enabled_spec() ==> descriptor == Err::<ProviderDescriptor, ProviderRegistryError>(
                ProviderRegistryError::ProfileDisabled,
            ),
            profile.enabled_spec() ==> match profile.endpoint_spec() {
                Some(e) if ProviderEndpoint::parse_spec(e.as_str_spec()) is Err => descriptor
                    == Err::<ProviderDescriptor, ProviderRegistryError>(
                    ProviderRegistryError::InvalidEndpoint,
                ),
                _ => descriptor matches Ok(d) && d.protocol_spec() == profile.protocol_spec()
                    && d.supports_custom_endpoint_spec() == compiled_in_supports_custom_endpoint(
                    profile.protocol_spec(),
                ),
            },
    {
        if !profile.enabled() {
            return Err(ProviderRegistryError::ProfileDisabled);
        }
        if let Some(endpoint) = profile.endpoint() {
            if ProviderEndpoint::parse(endpoint.as_str()).is_err() {
                return Err(ProviderRegistryError::InvalidEndpoint);
            }
        }
        Ok(descriptor_for(profile.protocol()))
    }
}

#[derive(Clone, Copy, Debug, PartialEq, Eq, Structural)]
pub enum ProviderRegistryError {
    ProfileDisabled,
    InvalidEndpoint,
    UnsupportedProtocol,
}

} // verus!
