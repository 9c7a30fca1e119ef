use vstd::prelude::*;

verus! {

/// Non-secret reference that may be stored alongside a provider profile.
#[derive(Clone, Debug, PartialEq, Eq)]
pub struct CredentialMetadata {
    secret_ref: String,
}

impl CredentialMetadata {
    pub closed spec fn secret_ref_spec(&self) -> Seq<char> {
        self.secret_ref@
    }

    pub fn new(secret_ref: &str) -> (metadata: Self)
        ensures
            metadata.secret_ref_spec() == secret_ref@,
    {
        CredentialMetadata { secret_ref: secret_ref.to_owned() }
    }

    pub fn secret_ref(&self) -> (secret_ref: &str)
        ensures
            secret_ref@ == self.secret_ref_spec(),
    {
        self.secret_ref.as_str()
    }
}

#[derive(Clone, Copy, Debug, PartialEq, Eq, Structural)]
pub enum CredentialStoreError {
    Unavailable,
    NotFound,
    WriteFailed,
    DeleteFailed,
}

/// Native platform credential-store adapter. It has no filesystem or database fallback.
#[derive(Clone, Copy, Debug, Default)]
pub struct SystemCredentialStore;

} // verus!
