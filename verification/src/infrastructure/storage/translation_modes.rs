use vstd::prelude::*;

verus! {

/// Database-facing mode summary, ordered by the persisted user order.
#[derive(Clone, Debug, PartialEq, Eq)]
pub struct StoredTranslationMode {
    id: String,
    name: String,
}

impl StoredTranslationMode {
    pub closed spec fn id_spec(&self) -> Seq<char> {
        self.id@
    }

    pub closed spec fn name_spec(&self) -> Seq<char> {
        self.name@
    }

    pub fn new(id: String, name: String) -> (mode: Self)
        ensures
            mode.id_spec() == id@,
            mode.name_spec() == name@,
    {
        StoredTranslationMode { id, name }
    }

    pub fn id(&self) -> (id: &str)
        ensures
            id@ == self.id_spec(),
    {
        self.id.as_str()
    }

    pub fn name(&self) -> (name: &str)
        ensures
            name@ == self.name_spec(),
    {
        self.name.as_str()
    }
}

#[derive(Clone, Copy, Debug, PartialEq, Eq, Structural)]
pub enum TranslationModeRepositoryError {
    BuiltInImmutable,
    ReferencedByWorkspace,
    NotFound,
    OptimisticConflict,
    Storage,
}

/// The stored kind of a product-owned mode.
pub open spec fn is_built_in_kind(kind: Seq<char>) -> bool {
    kind == "built_in"@
}

/// The decision of a mode deletion from what storage reported about the mode's kind and
/// whether a workspace still uses it as its default.
pub fn deletion_decision(kind: Option<&str>, referenced_by_workspace: bool) -> (decision: Result<
    (),
    TranslationModeRepositoryError,
>)
    ensures
        match kind {
            None => decision == Err::<(), TranslationModeRepositoryError>(
                TranslationModeRepositoryError::NotFound,
            ),
            Some(kind) => if is_built_in_kind(kind@) {
                decision == Err::<(), TranslationModeRepositoryError>(
                    TranslationModeRepositoryError::BuiltInImmutable,
                )
            } else if referenced_by_workspace {
                decision == Err::<(), TranslationModeRepositoryError>(
                    TranslationModeRepositoryError::ReferencedByWorkspace,
                )
            } else {
                decision is Ok
            },
        },
{
    match kind {
        None => Err(TranslationModeRepositoryError::NotFound),
        Some(kind) => {
            let built_in = "built_in";
            if crate::text::str_equal(kind, built_in) {
                return Err(TranslationModeRepositoryError::BuiltInImmutable);
            }
            if referenced_by_workspace {
                return Err(TranslationModeRepositoryError::ReferencedByWorkspace);
            }
            Ok(())
        },
    }
}

/// The version a workspace reaches after an optimistic update that storage reported as
/// affecting `rows_affected` rows.
pub fn advanced_version(expected_version: u32, rows_affected: u64) -> (version: Result<
    u32,
    TranslationModeRepositoryError,
>)
    ensures
        rows_affected != 1 ==> version == Err::<u32, TranslationModeRepositoryError>(
            TranslationModeRepositoryError::OptimisticConflict,
        ),
        rows_affected == 1 && expected_version < u32::MAX ==> version == Ok::<
            u32,
            TranslationModeRepositoryError,
        >((expected_version + 1) as u32),
        rows_affected == 1 && expected_version == u32::MAX ==> version == Err::<
            u32,
            TranslationModeRepositoryError,
        >(TranslationModeRepositoryError::Storage),
{
    if rows_affected != 1 {
        return Err(TranslationModeRepositoryError::OptimisticConflict);
    }
    match expected_version.checked_add(1) {
        Some(version) => Ok(version),
        None => Err(TranslationModeRepositoryError::Storage),
    }
}

} // verus!
