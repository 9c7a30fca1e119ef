use vstd::prelude::*;

verus! {

/// Selects the explicitly configured primary provider before a request is built.
pub fn select_primary_provider(primary_provider_id: Option<&str>) -> (selected: Result<
    &str,
    PrimaryProviderSelectionError,
>)
    ensures
        match primary_provider_id {
            Some(id) => selected == Ok::<&str, PrimaryProviderSelectionError>(id),
            None => selected == Err::<&str, PrimaryProviderSelectionError>(
                PrimaryProviderSelectionError::PrimaryMissing,
            ),
        },
{
    match primary_provider_id {
        Some(id) => Ok(id),
        None => Err(PrimaryProviderSelectionError::PrimaryMissing),
    }
}

/// A safe, stable preflight failure for primary-provider selection.
#[derive(Clone, Copy, Debug, PartialEq, Eq, Structural)]
pub enum PrimaryProviderSelectionError {
    PrimaryMissing,
}

impl PrimaryProviderSelectionError {
    pub open spec fn code_spec(self) -> Seq<char> {
        match self {
            PrimaryProviderSelectionError::PrimaryMissing => "translation.provider.primary_missing"@,
        }
    }

    pub fn code(self) -> (code: &'static str)
        ensures
            code@ == self.code_spec(),
    {
        match self {
            PrimaryProviderSelectionError::PrimaryMissing => "translation.provider.primary_missing",
        }
    }
}

} // verus!
