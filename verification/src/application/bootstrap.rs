use vstd::prelude::*;

verus! {

/// Build and platform metadata of the running application.
#[derive(Clone, Copy, Debug, PartialEq, Eq)]
pub struct AppMetadata {
    pub name: &'static str,
    pub version: &'static str,
    pub platform: &'static str,
    pub architecture: &'static str,
}

} // verus!
