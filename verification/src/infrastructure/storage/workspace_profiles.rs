use vstd::prelude::*;

verus! {

/// Immutable settings snapshot read consistently for a new translation session.
#[derive(Clone, Debug, PartialEq, Eq)]
pub struct WorkspaceProfileSnapshot {
    primary_provider_id: Option<String>,
    enabled_provider_ids: Vec<String>,
    version: u32,
}

impl WorkspaceProfileSnapshot {
    pub closed spec fn primary_provider_id_spec(&self) -> Option<String> {
        self.primary_provider_id
    }

    pub closed spec fn enabled_provider_ids_spec(&self) -> Seq<String> {
        self.enabled_provider_ids@
    }

    pub closed spec fn version_spec(&self) -> u32 {
        self.version
    }

    /// The snapshot of the stored main workspace row: its enabled provider order must have
    /// been readable (`None` when it was not a JSON list of texts) and its version must fit.
    pub fn from_row(
        primary_provider_id: Option<String>,
        enabled_provider_ids: Option<Vec<String>>,
        version: i64,
    ) -> (snapshot: Result<Self, WorkspaceProfileRepositoryError>)
        ensures
            match enabled_provider_ids {
                None => snapshot == Err::<Self, WorkspaceProfileRepositoryError>(
                    WorkspaceProfileRepositoryError::Storage,
                ),
                Some(ids) => if 0 <= version && version <= u32::MAX {
                    snapshot matches Ok(s) && s.primary_provider_id_spec() == primary_provider_id
                        && s.enabled_provider_ids_spec() == ids@ && s.version_spec() == version
                } else {
                    snapshot == Err::<Self, WorkspaceProfileRepositoryError>(
                        WorkspaceProfileRepositoryError::Storage,
                    )
                },
            },
    {
        let ids = match enabled_provider_ids {
            None => {
                return Err(WorkspaceProfileRepositoryError::Storage);
            },
            Some(ids) => ids,
        };
        if version < 0 || version > u32::MAX as i64 {
            return Err(WorkspaceProfileRepositoryError::Storage);
        }
        Ok(WorkspaceProfileSnapshot { primary_provider_id, enabled_provider_ids: ids, version: version as u32 })
    }

    /// A workspace is configured once it has a primary provider.
    pub fn is_configured(&self) -> (configured: bool)
        ensures
            configured == self.primary_provider_id_spec() is Some,
    {
        self.primary_provider_id.is_some()
    }

    pub fn primary_provider_id(&self) -> (id: Option<String>)
        ensures
            id == self.primary_provider_id_spec(),
    {
        self.primary_provider_id.clone()
    }

    pub fn enabled_provider_ids(&self) -> (ids: &[String])
        ensures
            ids@ == self.enabled_provider_ids_spec(),
    {
        self.enabled_provider_ids.as_slice()
    }

    pub fn version(&self) -> (version: u32)
        ensures
            version == self.version_spec(),
    {
        self.version
    }
}

#[derive(Clone, Copy, Debug, PartialEq, Eq, Structural)]
pub enum WorkspaceProfileRepositoryError {
    Storage,
    InvalidReference,
    OptimisticConflict,
}


/// The outcome of the guarded workspace update: it must have changed exactly the one row
/// whose version the caller expected.
pub fn workspace_update_outcome(rows_affected: u64) -> (outcome: Result<(), WorkspaceProfileRepositoryError>)
    ensures
        rows_affected == 1 ==> outcome is Ok,
        rows_affected != 1 ==> outcome == Err::<(), WorkspaceProfileRepositoryError>(
            WorkspaceProfileRepositoryError::OptimisticConflict,
        ),
{
    if rows_affected != 1 {
        return Err(WorkspaceProfileRepositoryError::OptimisticConflict);
    }
    Ok(())
}

} // verus!
