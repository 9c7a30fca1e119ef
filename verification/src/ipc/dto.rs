use vstd::prelude::*;

use crate::application::bootstrap::AppMetadata;

verus! {

/// The application identity handed to the user interface at start-up.
#[derive(Clone, Debug, PartialEq, Eq)]
pub struct AppBootstrapDto {
    pub name: String,
    pub version: String,
    pub platform: String,
    pub architecture: String,
}

impl AppBootstrapDto {
    /// The public contract of the application's metadata: the same four texts.
    pub fn from_metadata(metadata: AppMetadata) -> (dto: Self)
        ensures
            dto.name@ == metadata.name@,
            dto.version@ == metadata.version@,
            dto.platform@ == metadata.platform@,
            dto.architecture@ == metadata.architecture@,
    {
        AppBootstrapDto {
            name: metadata.name.to_string(),
            version: metadata.version.to_string(),
            platform: metadata.platform.to_string(),
            architecture: metadata.architecture.to_string(),
        }
    }
}

impl From<AppMetadata> for AppBootstrapDto {
    fn from(metadata: AppMetadata) -> Self {
        Self::from_metadata(metadata)
    }
}

impl vstd::std_specs::convert::FromSpecImpl<AppMetadata> for AppBootstrapDto {
    /// Texts are compared by their characters, so no single value is claimed here;
    /// `from_metadata` states what the conversion keeps.
    open spec fn obeys_from_spec() -> bool {
        false
    }

    open spec fn from_spec(metadata: AppMetadata) -> Self {
        choose|dto: Self|
            dto.name@ == metadata.name@ && dto.version@ == metadata.version@ && dto.platform@
                == metadata.platform@ && dto.architecture@ == metadata.architecture@
    }
}

/// A failure as the user interface receives it.
#[derive(Clone, Debug, PartialEq, Eq)]
pub struct AppErrorDto {
    pub code: String,
    pub message_key: String,
    pub retryable: bool,
    pub suggested_action: Option<String>,
    pub source: Option<String>,
    pub diagnostic_detail: Option<String>,
}

} // verus!
