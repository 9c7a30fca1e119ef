use vstd::prelude::*;

use crate::application::translation::service::{
    is_diff_of, ConfigurationDiff, TranslationConfigurationSnapshot,
};
use crate::domain::translation::{
    fresh_uuid_value, AdaptiveTranslationResult, ResultVersion, TranslationAttemptId, TranslationSessionId,
};
use crate::entries::{
    distinct_keys, entries_map, find_text_key, has_key, insert_text_entry, lemma_entries_map_absent,
    lemma_entries_map_at, lemma_entries_map_push, lemma_entries_map_update, remove_text_entry,
    text_keys,
};
use crate::infrastructure::ai::contract_fixtures::{ProviderError, ProviderErrorKind};

verus! {

/// The provider key under which a session's primary request is recorded.
pub open spec fn primary_key() -> Seq<char> {
    "__primary"@
}

/// The failure reported for work that belongs to a cancelled or replaced session.
pub open spec fn cancelled_error() -> ProviderError {
    ProviderError::of_kind(ProviderErrorKind::Cancelled)
}

/// One attempt of a provider within a session: its identity, its result version, and once
/// known its result and the configuration it ran with.
#[derive(Clone, Debug, PartialEq, Eq)]
pub struct AttemptSnapshot {
    id: TranslationAttemptId,
    result_version: ResultVersion,
    result: Option<AdaptiveTranslationResult>,
    configuration: Option<TranslationConfigurationSnapshot>,
}

impl AttemptSnapshot {
    pub closed spec fn id_spec(&self) -> TranslationAttemptId {
        self.id
    }

    pub closed spec fn result_version_spec(&self) -> ResultVersion {
        self.result_version
    }

    pub closed spec fn result_spec(&self) -> Option<AdaptiveTranslationResult> {
        self.result
    }

    pub closed spec fn configuration_spec(&self) -> Option<TranslationConfigurationSnapshot> {
        self.configuration
    }

    /// A new attempt, with neither a result nor a configuration yet.
    pub closed spec fn fresh(id: TranslationAttemptId, result_version: ResultVersion) -> Self {
        AttemptSnapshot { id, result_version, result: None, configuration: None }
    }

    /// The attempt with its result recorded.
    pub closed spec fn with_result(self, result: AdaptiveTranslationResult) -> Self {
        AttemptSnapshot { result: Some(result), ..self }
    }

    /// The attempt with its configuration recorded.
    pub closed spec fn with_configuration(self, configuration: TranslationConfigurationSnapshot) -> Self {
        AttemptSnapshot { configuration: Some(configuration), ..self }
    }

    pub proof fn lemma_fresh(id: TranslationAttemptId, result_version: ResultVersion)
        ensures
            Self::fresh(id, result_version).id_spec() == id,
            Self::fresh(id, result_version).result_version_spec() == result_version,
            Self::fresh(id, result_version).result_spec() is None,
            Self::fresh(id, result_version).configuration_spec() is None,
    {
    }

    pub proof fn lemma_with_result(self, result: AdaptiveTranslationResult)
        ensures
            self.with_result(result).id_spec() == self.id_spec(),
            self.with_result(result).result_version_spec() == self.result_version_spec(),
            self.with_result(result).result_spec() == Some(result),
            self.with_result(result).configuration_spec() == self.configuration_spec(),
    {
    }

    pub proof fn lemma_with_configuration(self, configuration: TranslationConfigurationSnapshot)
        ensures
            self.with_configuration(configuration).id_spec() == self.id_spec(),
            self.with_configuration(configuration).result_version_spec()
                == self.result_version_spec(),
            self.with_configuration(configuration).result_spec() == self.result_spec(),
            self.with_configuration(configuration).configuration_spec() == Some(configuration),
    {
    }

    pub fn id(&self) -> (id: TranslationAttemptId)
        ensures
            id == self.id_spec(),
    {
        self.id
    }

    pub fn result_version(&self) -> (version: ResultVersion)
        ensures
            version == self.result_version_spec(),
    {
        self.result_version
    }

    pub fn result(&self) -> (result: Option<&AdaptiveTranslationResult>)
        ensures
            match self.result_spec() {
                Some(r) => result == Some(&r),
                None => result is None,
            },
    {
        match &self.result {
            Some(r) => Some(r),
            None => None,
        }
    }

    pub fn configuration(&self) -> (configuration: Option<&TranslationConfigurationSnapshot>)
        ensures
            match self.configuration_spec() {
                Some(c) => configuration == Some(&c),
                None => configuration is None,
            },
    {
        match &self.configuration {
            Some(c) => Some(c),
            None => None,
        }
    }
}

/// What the supervisor knows of one session.
pub struct SessionView {
    /// The session was replaced in its window or its window was cancelled.
    pub cancelled: bool,
    /// The completed result of each provider key.
    pub results: Map<Seq<char>, AdaptiveTranslationResult>,
    /// The attempts of each provider key, oldest first.
    pub attempts: Map<Seq<char>, Seq<AttemptSnapshot>>,
}

/// What the supervisor knows: the active session of each window, every session, the
/// session of each completed submission, and the submissions in flight.
pub struct SupervisorView {
    pub windows: Map<Seq<char>, TranslationSessionId>,
    pub sessions: Map<TranslationSessionId, SessionView>,
    pub completed_submissions: Map<Seq<char>, TranslationSessionId>,
    pub in_flight_submissions: Set<Seq<char>>,
}

/// Every session has a primary attempt, and no provider has an empty attempt list.
pub open spec fn is_well_formed(v: SupervisorView) -> bool {
    forall|id: TranslationSessionId|
        #[trigger] v.sessions.contains_key(id) ==> {
            &&& v.sessions[id].attempts.contains_key(primary_key())
            &&& forall|key: Seq<char>|
                #[trigger] v.sessions[id].attempts.contains_key(key)
                    ==> v.sessions[id].attempts[key].len() > 0
        }
}

/// The work of a session can no longer be published: the session was cancelled, or the
/// supervisor never started it.
pub open spec fn is_cancelled(v: SupervisorView, id: TranslationSessionId) -> bool {
    !v.sessions.contains_key(id) || v.sessions[id].cancelled
}

pub open spec fn cancel_session(
    sessions: Map<TranslationSessionId, SessionView>,
    id: TranslationSessionId,
) -> Map<TranslationSessionId, SessionView> {
    if sessions.contains_key(id) {
        sessions.insert(
            id,
            SessionView {
                cancelled: true,
                results: sessions[id].results,
                attempts: sessions[id].attempts,
            },
        )
    } else {
        sessions
    }
}

/// A new session: only its primary provider has an attempt, and nothing is complete.
pub open spec fn new_session(attempt_id: TranslationAttemptId) -> SessionView {
    SessionView {
        cancelled: false,
        results: Map::empty(),
        attempts: Map::empty().insert(
            primary_key(),
            seq![AttemptSnapshot::fresh(attempt_id, ResultVersion::from_value_spec(1))],
        ),
    }
}

/// The state after a window submits a new primary request: the window's previous session
/// is cancelled and the new one becomes the window's active session.
pub open spec fn started(
    v: SupervisorView,
    window: Seq<char>,
    session_id: TranslationSessionId,
    attempt_id: TranslationAttemptId,
) -> SupervisorView {
    let sessions = if v.windows.contains_key(window) {
        cancel_session(v.sessions, v.windows[window])
    } else {
        v.sessions
    };
    SupervisorView {
        windows: v.windows.insert(window, session_id),
        sessions: sessions.insert(session_id, new_session(attempt_id)),
        completed_submissions: v.completed_submissions,
        in_flight_submissions: v.in_flight_submissions,
    }
}

/// Why a finished primary request is not published, if it is not: its session was
/// cancelled, the provider failed, or the window moved on to another session.
pub open spec fn primary_refusal(
    v: SupervisorView,
    window: Seq<char>,
    session_id: TranslationSessionId,
    failure: Option<ProviderError>,
) -> Option<ProviderError> {
    if is_cancelled(v, session_id) {
        Some(cancelled_error())
    } else if failure is Some {
        failure
    } else if !(v.windows.contains_key(window) && v.windows[window] == session_id) {
        Some(cancelled_error())
    } else {
        None
    }
}

/// The attempts with the latest one's result recorded.
pub open spec fn record_latest_result(
    attempts: Map<Seq<char>, Seq<AttemptSnapshot>>,
    key: Seq<char>,
    result: AdaptiveTranslationResult,
) -> Map<Seq<char>, Seq<AttemptSnapshot>> {
    if attempts.contains_key(key) && attempts[key].len() > 0 {
        let lineage = attempts[key];
        attempts.insert(key, lineage.update(lineage.len() - 1, lineage.last().with_result(result)))
    } else {
        attempts
    }
}

/// The state after a provider's result is published in a session: it becomes the
/// provider's completed result and, when `attempt_result` is given, its latest attempt's result.
pub open spec fn with_published_result(
    v: SupervisorView,
    session_id: TranslationSessionId,
    key: Seq<char>,
    completed: AdaptiveTranslationResult,
    attempt_result: Option<AdaptiveTranslationResult>,
) -> SupervisorView {
    let s = v.sessions[session_id];
    let attempts = match attempt_result {
        Some(r) => record_latest_result(s.attempts, key, r),
        None => s.attempts,
    };
    SupervisorView {
        windows: v.windows,
        sessions: v.sessions.insert(
            session_id,
            SessionView { cancelled: s.cancelled, results: s.results.insert(key, completed), attempts },
        ),
        completed_submissions: v.completed_submissions,
        in_flight_submissions: v.in_flight_submissions,
    }
}

/// Why a retry cannot start, if it cannot: the session is cancelled or unknown, the
/// provider has no attempt to repeat, or its result version cannot advance.
pub open spec fn retry_refusal(v: SupervisorView, session_id: TranslationSessionId, key: Seq<char>) -> Option<
    ProviderError,
> {
    if is_cancelled(v, session_id) {
        Some(cancelled_error())
    } else if !(v.sessions[session_id].attempts.contains_key(key)
        && v.sessions[session_id].attempts[key].len() > 0) {
        Some(cancelled_error())
    } else if v.sessions[session_id].attempts[key].last().result_version_spec().value_spec()
        == u32::MAX {
        Some(ProviderError::of_kind(ProviderErrorKind::ResponseMalformed))
    } else {
        None
    }
}

/// The state after a retry starts: the provider gets a new attempt with the next result version.
pub open spec fn retry_started(
    v: SupervisorView,
    session_id: TranslationSessionId,
    key: Seq<char>,
    attempt_id: TranslationAttemptId,
) -> SupervisorView {
    let s = v.sessions[session_id];
    let lineage = s.attempts[key];
    let next = ResultVersion::from_value_spec(
        (lineage.last().result_version_spec().value_spec() + 1) as u32,
    );
    SupervisorView {
        windows: v.windows,
        sessions: v.sessions.insert(
            session_id,
            SessionView {
                cancelled: s.cancelled,
                results: s.results,
                attempts: s.attempts.insert(key, lineage.push(AttemptSnapshot::fresh(attempt_id, next))),
            },
        ),
        completed_submissions: v.completed_submissions,
        in_flight_submissions: v.in_flight_submissions,
    }
}

/// Why a finished retry or expansion is not published, if it is not.
pub open spec fn follow_up_refusal(
    v: SupervisorView,
    session_id: TranslationSessionId,
    failure: Option<ProviderError>,
) -> Option<ProviderError> {
    if failure is Some {
        failure
    } else if is_cancelled(v, session_id) {
        Some(cancelled_error())
    } else {
        None
    }
}

/// What expanding a provider does first: fail for a cancelled session, reuse a completed
/// result, or ask for a request.
pub open spec fn expansion_lookup(v: SupervisorView, session_id: TranslationSessionId, key: Seq<char>) -> Result<
    Option<AdaptiveTranslationResult>,
    ProviderError,
> {
    if is_cancelled(v, session_id) {
        Err(cancelled_error())
    } else if v.sessions[session_id].results.contains_key(key) {
        Ok(Some(v.sessions[session_id].results[key]))
    } else {
        Ok(None)
    }
}

/// The state after a window is cancelled: it has no active session, and the session it had
/// is cancelled.
pub open spec fn window_cancelled(v: SupervisorView, window: Seq<char>) -> SupervisorView {
    if v.windows.contains_key(window) {
        SupervisorView {
            windows: v.windows.remove(window),
            sessions: cancel_session(v.sessions, v.windows[window]),
            completed_submissions: v.completed_submissions,
            in_flight_submissions: v.in_flight_submissions,
        }
    } else {
        v
    }
}

/// The session and primary result of a completed submission.
pub open spec fn completed_submission_spec(v: SupervisorView, submission: Seq<char>) -> Option<
    (TranslationSessionId, AdaptiveTranslationResult),
> {
    if v.completed_submissions.contains_key(submission) {
        let id = v.completed_submissions[submission];
        if v.sessions.contains_key(id) && v.sessions[id].results.contains_key(primary_key()) {
            Some((id, v.sessions[id].results[primary_key()]))
        } else {
            None
        }
    } else {
        None
    }
}


/// The state after a configuration is attached to a provider's latest attempt (nothing
/// changes when the session or the provider has no attempt).
pub open spec fn configured(
    v: SupervisorView,
    session_id: TranslationSessionId,
    key: Seq<char>,
    configuration: TranslationConfigurationSnapshot,
) -> SupervisorView {
    if v.sessions.contains_key(session_id) && v.sessions[session_id].attempts.contains_key(key)
        && v.sessions[session_id].attempts[key].len() > 0 {
        let s = v.sessions[session_id];
        let lineage = s.attempts[key];
        SupervisorView {
            windows: v.windows,
            sessions: v.sessions.insert(
                session_id,
                SessionView {
                    cancelled: s.cancelled,
                    results: s.results,
                    attempts: s.attempts.insert(
                        key,
                        lineage.update(lineage.len() - 1, lineage.last().with_configuration(configuration)),
                    ),
                },
            ),
            completed_submissions: v.completed_submissions,
            in_flight_submissions: v.in_flight_submissions,
        }
    } else {
        v
    }
}

/// The latest attempt of a provider in a session, if it has one.
pub open spec fn latest_attempt_spec(v: SupervisorView, session_id: TranslationSessionId, key: Seq<char>) -> Option<
    AttemptSnapshot,
> {
    if v.sessions.contains_key(session_id) && v.sessions[session_id].attempts.contains_key(key)
        && v.sessions[session_id].attempts[key].len() > 0 {
        Some(v.sessions[session_id].attempts[key].last())
    } else {
        None
    }
}

/// The first attempt from position `from` on that has the identity.
pub open spec fn first_with_id(lineage: Seq<AttemptSnapshot>, id: TranslationAttemptId, from: int) -> Option<
    AttemptSnapshot,
>
    decreases lineage.len() - from,
{
    if from < 0 || from >= lineage.len() {
        None
    } else if lineage[from].id_spec() == id {
        Some(lineage[from])
    } else {
        first_with_id(lineage, id, from + 1)
    }
}

/// The configuration recorded for an attempt of a provider in a session, if any.
pub open spec fn attempt_configuration(
    v: SupervisorView,
    session_id: TranslationSessionId,
    key: Seq<char>,
    attempt_id: TranslationAttemptId,
) -> Option<TranslationConfigurationSnapshot> {
    if v.sessions.contains_key(session_id) && v.sessions[session_id].attempts.contains_key(key) {
        match first_with_id(v.sessions[session_id].attempts[key], attempt_id, 0) {
            Some(attempt) => attempt.configuration_spec(),
            None => None,
        }
    } else {
        None
    }
}

/// The state after a submission's request settles: it is no longer in flight, and when it
/// succeeded its session is remembered.
pub open spec fn submission_finished(
    v: SupervisorView,
    submission: Seq<char>,
    session_id: Option<TranslationSessionId>,
) -> SupervisorView {
    SupervisorView {
        windows: v.windows,
        sessions: v.sessions,
        completed_submissions: match session_id {
            Some(id) => v.completed_submissions.insert(submission, id),
            None => v.completed_submissions,
        },
        in_flight_submissions: v.in_flight_submissions.remove(submission),
    }
}

/// What to do with a submission: reuse its completed session, wait for the request in
/// flight, or proceed with a new primary request.
#[derive(Clone, Copy, Debug, PartialEq, Eq, Structural)]
pub enum SubmissionStep {
    Completed(TranslationSessionId),
    Wait,
    Proceed,
}

pub open spec fn submission_step_spec(v: SupervisorView, submission: Seq<char>) -> SubmissionStep {
    match completed_submission_spec(v, submission) {
        Some((id, _)) => SubmissionStep::Completed(id),
        None => if v.in_flight_submissions.contains(submission) {
            SubmissionStep::Wait
        } else {
            SubmissionStep::Proceed
        },
    }
}

/// The identities handed out when a window starts a primary request.
#[derive(Clone, Copy, Debug, PartialEq, Eq, Structural)]
pub struct PrimaryStart {
    pub session_id: TranslationSessionId,
    pub attempt_id: TranslationAttemptId,
    /// The session the window had before, now cancelled.
    pub previous: Option<TranslationSessionId>,
}

struct SessionState {
    id: TranslationSessionId,
    cancelled: bool,
    results: Vec<(String, AdaptiveTranslationResult)>,
    attempts: Vec<(String, Vec<AttemptSnapshot>)>,
}

spec fn lineage_keys(entries: Seq<(String, Vec<AttemptSnapshot>)>) -> Seq<(Seq<char>, Seq<AttemptSnapshot>)> {
    entries.map_values(|entry: (String, Vec<AttemptSnapshot>)| (entry.0@, entry.1@))
}

impl SessionState {
    spec fn view_spec(self) -> SessionView {
        SessionView {
            cancelled: self.cancelled,
            results: entries_map(text_keys(self.results@)),
            attempts: entries_map(lineage_keys(self.attempts@)),
        }
    }

    spec fn well_formed(self) -> bool {
        &&& distinct_keys(text_keys(self.results@))
        &&& distinct_keys(lineage_keys(self.attempts@))
        &&& has_key(lineage_keys(self.attempts@), primary_key())
        &&& forall|i: int| 0 <= i < self.attempts@.len() ==> (#[trigger] self.attempts@[i]).1@.len() > 0
    }
}

spec fn session_entries(sessions: Seq<SessionState>) -> Seq<(TranslationSessionId, SessionView)> {
    sessions.map_values(|s: SessionState| (s.id, s.view_spec()))
}

/// Coordinates one active root request per window and starts only its primary provider.
///
/// It holds the decisions; whoever runs the provider requests performs each step it asks for.
pub struct QuerySupervisor {
    windows: Vec<(String, TranslationSessionId)>,
    sessions: Vec<SessionState>,
    completed_submissions: Vec<(String, TranslationSessionId)>,
    in_flight_submissions: Vec<(String, ())>,
}

impl View for QuerySupervisor {
    type V = SupervisorView;

    closed spec fn view(&self) -> SupervisorView {
        SupervisorView {
            windows: entries_map(text_keys(self.windows@)),
            sessions: entries_map(session_entries(self.sessions@)),
            completed_submissions: entries_map(text_keys(self.completed_submissions@)),
            in_flight_submissions: entries_map(text_keys(self.in_flight_submissions@)).dom(),
        }
    }
}

proof fn lemma_session_view_well_formed(s: SessionState)
    requires
        s.well_formed(),
    ensures
        s.view_spec().attempts.contains_key(primary_key()),
        forall|key: Seq<char>|
            #[trigger] s.view_spec().attempts.contains_key(key) ==> s.view_spec().attempts[key].len()
                > 0,
{
    let lineages = lineage_keys(s.attempts@);
    assert forall|key: Seq<char>| #[trigger]
        s.view_spec().attempts.contains_key(key) implies s.view_spec().attempts[key].len() > 0 by {
        let i = choose|i: int| 0 <= i < lineages.len() && (#[trigger] lineages[i]).0 == key;
        lemma_entries_map_at(lineages, i);
        assert(s.attempts@[i].1@.len() > 0);
    }
}


fn find_session(sessions: &Vec<SessionState>, id: TranslationSessionId) -> (found: Option<usize>)
    ensures
        match found {
            Some(i) => i < sessions@.len() && sessions@[i as int].id == id,
            None => forall|i: int| 0 <= i < sessions@.len() ==> (#[trigger] sessions@[i]).id != id,
        },
{
    let mut i: usize = 0;
    while i < sessions.len()
        invariant
            i <= sessions@.len(),
            forall|j: int| 0 <= j < i ==> (#[trigger] sessions@[j]).id != id,
        decreases sessions@.len() - i,
    {
        if sessions[i].id == id {
            return Some(i);
        }
        i = i + 1;
    }
    None
}

/// The session at `i` is the one the map holds under its identity.
proof fn lemma_session_at(sessions: Seq<SessionState>, i: int)
    requires
        distinct_keys(session_entries(sessions)),
        0 <= i < sessions.len(),
    ensures
        entries_map(session_entries(sessions)).contains_key(sessions[i].id),
        entries_map(session_entries(sessions))[sessions[i].id] == sessions[i].view_spec(),
{
    lemma_entries_map_at(session_entries(sessions), i);
}

/// A new session identity that no session has: a generated version 7 identifier, with its
/// low bits flipped by `fresh_uuid_value` in the unlikely case that a session already has it.
fn fresh_session_id(sessions: &Vec<SessionState>) -> (id: TranslationSessionId)
    ensures
        forall|i: int| 0 <= i < sessions@.len() ==> (#[trigger] sessions@[i]).id != id,
{
    let mut taken: Vec<u128> = Vec::new();
    let mut i: usize = 0;
    while i < sessions.len()
        invariant
            i <= sessions@.len(),
            taken@.len() == i,
            forall|j: int| 0 <= j < i ==> taken@[j] == (#[trigger] sessions@[j]).id.value_spec(),
        decreases sessions@.len() - i,
    {
        taken.push(sessions[i].id.uuid_value());
        i = i + 1;
    }
    let generated = TranslationSessionId::generate().uuid_value();
    let value = fresh_uuid_value(generated, taken.as_slice());
    let id = match TranslationSessionId::from_uuid_value(value) {
        Some(id) => id,
        None => {
            assert(false);
            TranslationSessionId::generate()
        },
    };
    assert forall|i: int| 0 <= i < sessions@.len() implies (#[trigger] sessions@[i]).id != id by {
        assert(taken@[i] == sessions@[i].id.value_spec());
        assert(taken@.contains(taken@[i]));
    }
    id
}

/// A new attempt identity that no attempt of a lineage has: a generated version 7
/// identifier, with its low bits flipped by `fresh_uuid_value` in the unlikely case that an
/// attempt of the lineage already has it.
fn fresh_attempt_id(lineage: &Vec<AttemptSnapshot>) -> (id: TranslationAttemptId)
    ensures
        forall|i: int| 0 <= i < lineage@.len() ==> (#[trigger] lineage@[i]).id_spec() != id,
{
    let mut taken: Vec<u128> = Vec::new();
    let mut i: usize = 0;
    while i < lineage.len()
        invariant
            i <= lineage@.len(),
            taken@.len() == i,
            forall|j: int| 0 <= j < i ==> taken@[j] == (#[trigger] lineage@[j]).id_spec().value_spec(),
        decreases lineage@.len() - i,
    {
        taken.push(lineage[i].id.uuid_value());
        i = i + 1;
    }
    let generated = TranslationAttemptId::generate().uuid_value();
    let value = fresh_uuid_value(generated, taken.as_slice());
    let id = match TranslationAttemptId::from_uuid_value(value) {
        Some(id) => id,
        None => {
            assert(false);
            TranslationAttemptId::generate()
        },
    };
    assert forall|i: int| 0 <= i < lineage@.len() implies (#[trigger] lineage@[i]).id_spec() != id by {
        assert(taken@[i] == lineage@[i].id_spec().value_spec());
        assert(taken@.contains(taken@[i]));
    }
    id
}

/// No session has the identity.
proof fn lemma_session_absent(sessions: Seq<SessionState>, id: TranslationSessionId)
    requires
        forall|i: int| 0 <= i < sessions.len() ==> (#[trigger] sessions[i]).id != id,
    ensures
        !entries_map(session_entries(sessions)).contains_key(id),
{
    let entries = session_entries(sessions);
    assert forall|i: int| 0 <= i < entries.len() implies (#[trigger] entries[i]).0 != id by {
        assert(entries[i].0 == sessions[i].id);
    }
    lemma_entries_map_absent(entries, id);
}

/// Replaces the session at `i` by a session with the same identity.
fn replace_session(sessions: &mut Vec<SessionState>, i: usize, state: SessionState)
    requires
        distinct_keys(session_entries(old(sessions)@)),
        forall|j: int| 0 <= j < old(sessions)@.len() ==> (#[trigger] old(sessions)@[j]).well_formed(),
        i < old(sessions)@.len(),
        state.id == old(sessions)@[i as int].id,
        state.well_formed(),
    ensures
        distinct_keys(session_entries(final(sessions)@)),
        forall|j: int| 0 <= j < final(sessions)@.len() ==> (#[trigger] final(sessions)@[j]).well_formed(),
        entries_map(session_entries(final(sessions)@)) == entries_map(
            session_entries(old(sessions)@),
        ).insert(state.id, state.view_spec()),
{
    let ghost before = session_entries(sessions@);
    let ghost view = state.view_spec();
    let ghost id = state.id;
    proof {
        lemma_entries_map_update(before, i as int, view);
    }
    sessions.set(i, state);
    assert(session_entries(sessions@) =~= before.update(i as int, (before[i as int].0, view)));
}

/// Sets the session of an identity: replaces the session there, or adds it.
fn put_session(sessions: &mut Vec<SessionState>, state: SessionState)
    requires
        distinct_keys(session_entries(old(sessions)@)),
        forall|j: int| 0 <= j < old(sessions)@.len() ==> (#[trigger] old(sessions)@[j]).well_formed(),
        state.well_formed(),
    ensures
        distinct_keys(session_entries(final(sessions)@)),
        forall|j: int| 0 <= j < final(sessions)@.len() ==> (#[trigger] final(sessions)@[j]).well_formed(),
        entries_map(session_entries(final(sessions)@)) == entries_map(
            session_entries(old(sessions)@),
        ).insert(state.id, state.view_spec()),
{
    match find_session(sessions, state.id) {
        Some(i) => replace_session(sessions, i, state),
        None => {
            let ghost before = session_entries(sessions@);
            let ghost view = state.view_spec();
            proof {
                lemma_session_absent(sessions@, state.id);
                assert(!has_key(before, state.id));
                lemma_entries_map_push(before, state.id, view);
            }
            sessions.push(state);
            assert(session_entries(sessions@) =~= before.push((state.id, view)));
        },
    }
}

/// Marks the session of an identity cancelled, when there is one.
fn cancel_session_in(sessions: &mut Vec<SessionState>, id: TranslationSessionId)
    requires
        distinct_keys(session_entries(old(sessions)@)),
        forall|j: int| 0 <= j < old(sessions)@.len() ==> (#[trigger] old(sessions)@[j]).well_formed(),
    ensures
        distinct_keys(session_entries(final(sessions)@)),
        forall|j: int| 0 <= j < final(sessions)@.len() ==> (#[trigger] final(sessions)@[j]).well_formed(),
        entries_map(session_entries(final(sessions)@)) == cancel_session(
            entries_map(session_entries(old(sessions)@)),
            id,
        ),
{
    match find_session(sessions, id) {
        Some(i) => {
            proof {
                lemma_session_at(sessions@, i as int);
            }
            let mut state = sessions.remove(i);
            state.cancelled = true;
            sessions.insert(i, state);
            proof {
                let old_sessions = old(sessions)@;
                assert(sessions@ =~= old_sessions.update(i as int, state));
                assert(state.view_spec() == SessionView {
                    cancelled: true,
                    results: old_sessions[i as int].view_spec().results,
                    attempts: old_sessions[i as int].view_spec().attempts,
                });
                lemma_entries_map_update(session_entries(old_sessions), i as int, state.view_spec());
                assert(session_entries(sessions@) =~= session_entries(old_sessions).update(
                    i as int,
                    (id, state.view_spec()),
                ));
            }
        },
        None => {
            proof {
                lemma_session_absent(sessions@, id);
            }
        },
    }
}

impl SessionState {
    /// A new session whose only attempt is the primary one.
    fn open(id: TranslationSessionId, attempt_id: TranslationAttemptId) -> (state: Self)
        ensures
            state.id == id,
            state.well_formed(),
            state.view_spec() == new_session(attempt_id),
    {
        let first = AttemptSnapshot {
            id: attempt_id,
            result_version: ResultVersion::initial(),
            result: None,
            configuration: None,
        };
        let mut lineage: Vec<AttemptSnapshot> = Vec::new();
        lineage.push(first);
        let mut attempts: Vec<(String, Vec<AttemptSnapshot>)> = Vec::new();
        attempts.push(("__primary".to_string(), lineage));
        let state = SessionState { id, cancelled: false, results: Vec::new(), attempts };
        proof {
            let keys = lineage_keys(state.attempts@);
            assert(keys =~= seq![(primary_key(), seq![first])]);
            assert(keys[0].0 == primary_key());
            lemma_entries_map_at(keys, 0);
            assert(entries_map(keys) =~= Map::empty().insert(primary_key(), seq![first]));
            assert(entries_map(text_keys(state.results@)) =~= Map::empty());
            assert(first == AttemptSnapshot::fresh(attempt_id, ResultVersion::from_value_spec(1)));
        }
        state
    }
}


/// Replacing the session at `i` by one with the same identity keeps the sessions consistent
/// and updates the identity's view.
proof fn lemma_session_update(sessions: Seq<SessionState>, i: int, state: SessionState)
    requires
        distinct_keys(session_entries(sessions)),
        forall|j: int| 0 <= j < sessions.len() ==> (#[trigger] sessions[j]).well_formed(),
        0 <= i < sessions.len(),
        state.id == sessions[i].id,
        state.well_formed(),
    ensures
        distinct_keys(session_entries(sessions.update(i, state))),
        forall|j: int|
            0 <= j < sessions.update(i, state).len() ==> (#[trigger] sessions.update(i, state)[j]).well_formed(),
        entries_map(session_entries(sessions.update(i, state))) == entries_map(
            session_entries(sessions),
        ).insert(state.id, state.view_spec()),
{
    lemma_entries_map_update(session_entries(sessions), i, state.view_spec());
    assert(session_entries(sessions.update(i, state)) =~= session_entries(sessions).update(
        i,
        (state.id, state.view_spec()),
    ));
}

/// The provider failure of an outcome, if it failed.
pub open spec fn failure_of<T>(outcome: Result<T, ProviderError>) -> Option<ProviderError> {
    match outcome {
        Ok(_) => None,
        Err(e) => Some(e),
    }
}

impl SessionState {
    /// Records the completed result of a provider.
    fn record_result(&mut self, key: &str, result: AdaptiveTranslationResult)
        requires
            old(self).well_formed(),
        ensures
            final(self).well_formed(),
            final(self).id == old(self).id,
            final(self).view_spec() == (SessionView {
                cancelled: old(self).view_spec().cancelled,
                results: old(self).view_spec().results.insert(key@, result),
                attempts: old(self).view_spec().attempts,
            }),
    {
        insert_text_entry(&mut self.results, key, result);
    }

    /// Records the result of a provider's latest attempt, when it has one.
    fn record_latest_result(&mut self, key: &str, result: AdaptiveTranslationResult)
        requires
            old(self).well_formed(),
        ensures
            final(self).well_formed(),
            final(self).id == old(self).id,
            final(self).view_spec() == (SessionView {
                cancelled: old(self).view_spec().cancelled,
                results: old(self).view_spec().results,
                attempts: record_latest_result(old(self).view_spec().attempts, key@, result),
            }),
    {
        let ghost keys = lineage_keys(self.attempts@);
        match find_text_key(&self.attempts, key) {
            None => {
                proof {
                    assert forall|j: int| 0 <= j < keys.len() implies (#[trigger] keys[j]).0
                        != key@ by {
                        assert(keys[j].0 == self.attempts@[j].0@);
                    }
                    lemma_entries_map_absent(keys, key@);
                }
            },
            Some(i) => {
                proof {
                    lemma_entries_map_at(keys, i as int);
                }
                let mut entry: (String, Vec<AttemptSnapshot>) = (String::new(), Vec::new());
                self.attempts.set_and_swap(i, &mut entry);
                let (name, mut lineage) = entry;
                let ghost old_lineage = lineage@;
                assert(lineage@.len() > 0);
                let last = lineage.len() - 1;
                let mut snapshot = lineage.remove(last);
                snapshot.result = Some(result);
                lineage.push(snapshot);
                assert(lineage@ =~= old_lineage.update(
                    old_lineage.len() - 1,
                    old_lineage.last().with_result(result),
                ));
                self.attempts.set(i, (name, lineage));
                proof {
                    let o = old(self).attempts@;
                    assert(self.attempts@ =~= o.update(i as int, (o[i as int].0, lineage)));
                    lemma_entries_map_update(keys, i as int, lineage@);
                    assert(lineage_keys(self.attempts@) =~= keys.update(
                        i as int,
                        (keys[i as int].0, lineage@),
                    ));
                    let p = choose|p: int| 0 <= p < keys.len() && (#[trigger] keys[p]).0 == primary_key();
                    assert(lineage_keys(self.attempts@)[p].0 == primary_key());
                }
            },
        }
    }
}


impl SessionState {
    /// The position of a provider's attempts.
    fn find_lineage(&self, key: &str) -> (found: Option<usize>)
        requires
            self.well_formed(),
        ensures
            match found {
                Some(i) => i < self.attempts@.len() && self.attempts@[i as int].0@ == key@
                    && self.view_spec().attempts.contains_key(key@)
                    && self.view_spec().attempts[key@] == self.attempts@[i as int].1@,
                None => !self.view_spec().attempts.contains_key(key@),
            },
    {
        let ghost keys = lineage_keys(self.attempts@);
        match find_text_key(&self.attempts, key) {
            None => {
                proof {
                    assert forall|j: int| 0 <= j < keys.len() implies (#[trigger] keys[j]).0
                        != key@ by {
                        assert(keys[j].0 == self.attempts@[j].0@);
                    }
                    lemma_entries_map_absent(keys, key@);
                }
                None
            },
            Some(i) => {
                proof {
                    lemma_entries_map_at(keys, i as int);
                }
                Some(i)
            },
        }
    }

    /// Takes out the attempts at `i`, leaving an empty placeholder to be replaced.
    fn take_lineage(&mut self, i: usize) -> (entry: (String, Vec<AttemptSnapshot>))
        requires
            i < old(self).attempts@.len(),
        ensures
            entry == old(self).attempts@[i as int],
            final(self).attempts@.len() == old(self).attempts@.len(),
            forall|j: int|
                0 <= j < old(self).attempts@.len() && j != i ==> final(self).attempts@[j]
                    == old(self).attempts@[j],
            final(self).id == old(self).id,
            final(self).cancelled == old(self).cancelled,
            final(self).results == old(self).results,
    {
        let mut entry = (String::new(), Vec::new());
        self.attempts.set_and_swap(i, &mut entry);
        entry
    }

    /// Puts attempts back at `i`, taken out there before.
    fn restore_lineage(&mut self, i: usize, name: String, lineage: Vec<AttemptSnapshot>, Ghost(original): Ghost<SessionState>)
        requires
            original.well_formed(),
            i < original.attempts@.len(),
            old(self).attempts@.len() == original.attempts@.len(),
            forall|j: int| 0 <= j < original.attempts@.len() && j != i ==> old(self).attempts@[j] == original.attempts@[j],
            old(self).id == original.id,
            old(self).cancelled == original.cancelled,
            old(self).results == original.results,
            name@ == original.attempts@[i as int].0@,
            lineage@.len() > 0,
        ensures
            final(self).well_formed(),
            final(self).id == original.id,
            final(self).view_spec() == (SessionView {
                cancelled: original.view_spec().cancelled,
                results: original.view_spec().results,
                attempts: original.view_spec().attempts.insert(name@, lineage@),
            }),
    {
        let ghost before = lineage_keys(original.attempts@);
        let ghost new_lineage = lineage@;
        self.attempts.set(i, (name, lineage));
        proof {
            assert(self.attempts@ =~= original.attempts@.update(i as int, self.attempts@[i as int]));
            lemma_entries_map_update(before, i as int, new_lineage);
            assert(lineage_keys(self.attempts@) =~= before.update(
                i as int,
                (before[i as int].0, new_lineage),
            ));
            let p = choose|p: int| 0 <= p < before.len() && (#[trigger] before[p]).0 == primary_key();
            assert(lineage_keys(self.attempts@)[p].0 == primary_key());
            assert forall|j: int| 0 <= j < self.attempts@.len() implies (#[trigger] self.attempts@[j]).1@.len() > 0 by {
                if j != i {
                    assert(self.attempts@[j] == original.attempts@[j]);
                }
            }
        }
    }
}


/// The position of the first attempt with the identity.
fn find_attempt(lineage: &Vec<AttemptSnapshot>, id: TranslationAttemptId) -> (found: Option<usize>)
    ensures
        match found {
            Some(i) => i < lineage@.len() && first_with_id(lineage@, id, 0) == Some(lineage@[i as int]),
            None => first_with_id(lineage@, id, 0) is None,
        },
{
    let mut i: usize = 0;
    while i < lineage.len()
        invariant
            i <= lineage@.len(),
            first_with_id(lineage@, id, 0) == first_with_id(lineage@, id, i as int),
        decreases lineage@.len() - i,
    {
        if lineage[i].id == id {
            return Some(i);
        }
        i = i + 1;
    }
    None
}

impl QuerySupervisor {
    #[verifier::type_invariant]
    spec fn is_consistent(self) -> bool {
        &&& distinct_keys(text_keys(self.windows@))
        &&& distinct_keys(session_entries(self.sessions@))
        &&& forall|i: int| 0 <= i < self.sessions@.len() ==> (#[trigger] self.sessions@[i]).well_formed()
        &&& distinct_keys(text_keys(self.completed_submissions@))
        &&& distinct_keys(text_keys(self.in_flight_submissions@))
    }

    proof fn lemma_view_well_formed(self)
        requires
            self.is_consistent(),
        ensures
            is_well_formed(self@),
    {
        let entries = session_entries(self.sessions@);
        assert forall|id: TranslationSessionId| #[trigger] self@.sessions.contains_key(id) implies {
            &&& self@.sessions[id].attempts.contains_key(primary_key())
            &&& forall|key: Seq<char>|
                #[trigger] self@.sessions[id].attempts.contains_key(key)
                    ==> self@.sessions[id].attempts[key].len() > 0
        } by {
            let i = choose|i: int| 0 <= i < entries.len() && (#[trigger] entries[i]).0 == id;
            lemma_entries_map_at(entries, i);
            assert(self.sessions@[i].well_formed());
            lemma_session_view_well_formed(self.sessions@[i]);
        }
    }

    pub fn new() -> (supervisor: Self)
        ensures
            supervisor@.windows.is_empty(),
            supervisor@.sessions.is_empty(),
            supervisor@.completed_submissions.is_empty(),
            supervisor@.in_flight_submissions.is_empty(),
    {
        let supervisor = QuerySupervisor {
            windows: Vec::new(),
            sessions: Vec::new(),
            completed_submissions: Vec::new(),
            in_flight_submissions: Vec::new(),
        };
        assert(supervisor@.windows =~= Map::empty());
        assert(supervisor@.sessions =~= Map::empty());
        assert(supervisor@.completed_submissions =~= Map::empty());
        assert(supervisor@.in_flight_submissions =~= Set::empty());
        supervisor
    }

    /// A window submits a new primary request: its previous session is cancelled, and a
    /// new session with only a primary attempt becomes its active session. The session's
    /// identity is generated and made distinct from every session held (`fresh_session_id`).
    pub fn start_primary(&mut self, window_label: &str) -> (start: PrimaryStart)
        ensures
            final(self)@ == started(old(self)@, window_label@, start.session_id, start.attempt_id),
            !old(self)@.sessions.contains_key(start.session_id),
            start.previous == (if old(self)@.windows.contains_key(window_label@) {
                Some(old(self)@.windows[window_label@])
            } else {
                None
            }),
            is_well_formed(final(self)@),
    {
        proof {
            use_type_invariant(&*self);
        }
        let session_id = fresh_session_id(&self.sessions);
        proof {
            lemma_session_absent(self.sessions@, session_id);
        }
        let attempt_id = TranslationAttemptId::generate();
        let mut windows: Vec<(String, TranslationSessionId)> = Vec::new();
        std::mem::swap(&mut windows, &mut self.windows);
        let previous = insert_text_entry(&mut windows, window_label, session_id);
        self.windows = windows;
        let mut sessions: Vec<SessionState> = Vec::new();
        std::mem::swap(&mut sessions, &mut self.sessions);
        if let Some(previous_id) = previous {
            cancel_session_in(&mut sessions, previous_id);
        }
        put_session(&mut sessions, SessionState::open(session_id, attempt_id));
        self.sessions = sessions;
        proof {
            use_type_invariant(&*self);
            self.lemma_view_well_formed();
        }
        assert(self@ =~= started(old(self)@, window_label@, session_id, attempt_id));
        PrimaryStart { session_id, attempt_id, previous }
    }

    /// Decides what becomes of a finished primary request: it is published in its session
    /// only if the session is still the window's active, uncancelled session.
    pub fn finish_primary(
        &mut self,
        window_label: &str,
        session_id: TranslationSessionId,
        outcome: Result<AdaptiveTranslationResult, ProviderError>,
    ) -> (published: Result<AdaptiveTranslationResult, ProviderError>)
        ensures
            match primary_refusal(old(self)@, window_label@, session_id, failure_of(outcome)) {
                Some(e) => published == Err::<AdaptiveTranslationResult, ProviderError>(e)
                    && final(self)@ == old(self)@,
                None => published == outcome && exists|completed: AdaptiveTranslationResult,
                    latest: AdaptiveTranslationResult|
                    #![auto]
                    completed@ == outcome->Ok_0@ && latest@ == outcome->Ok_0@
                        && final(self)@ == with_published_result(
                        old(self)@,
                        session_id,
                        primary_key(),
                        completed,
                        Some(latest),
                    ),
            },
            is_well_formed(final(self)@),
    {
        proof {
            use_type_invariant(&*self);
            self.lemma_view_well_formed();
        }
        let i = match find_session(&self.sessions, session_id) {
            None => {
                proof {
                    lemma_session_absent(self.sessions@, session_id);
                }
                return Err(ProviderError::new(ProviderErrorKind::Cancelled));
            },
            Some(i) => i,
        };
        proof {
            lemma_session_at(self.sessions@, i as int);
        }
        if self.sessions[i].cancelled {
            return Err(ProviderError::new(ProviderErrorKind::Cancelled));
        }
        let translation = match outcome {
            Err(e) => {
                return Err(e);
            },
            Ok(t) => t,
        };
        let current = match find_text_key(&self.windows, window_label) {
            Some(w) => {
                proof {
                    lemma_entries_map_at(text_keys(self.windows@), w as int);
                }
                self.windows[w].1 == session_id
            },
            None => {
                proof {
                    let keys = text_keys(self.windows@);
                    assert forall|j: int| 0 <= j < keys.len() implies (#[trigger] keys[j]).0
                        != window_label@ by {
                        assert(keys[j].0 == self.windows@[j].0@);
                    }
                    lemma_entries_map_absent(keys, window_label@);
                }
                false
            },
        };
        if !current {
            return Err(ProviderError::new(ProviderErrorKind::Cancelled));
        }
        let completed = translation.clone();
        let latest = translation.clone();
        let mut sessions: Vec<SessionState> = Vec::new();
        std::mem::swap(&mut sessions, &mut self.sessions);
        let ghost before = sessions@;
        let mut state = sessions.remove(i);
        assert(state == before[i as int]);
        state.record_result("__primary", completed);
        state.record_latest_result("__primary", latest);
        sessions.insert(i, state);
        proof {
            assert(sessions@ =~= before.update(i as int, state));
            lemma_session_update(before, i as int, state);
        }
        self.sessions = sessions;
        proof {
            use_type_invariant(&*self);
            self.lemma_view_well_formed();
        }
        assert(self@ =~= with_published_result(old(self)@, session_id, primary_key(), completed, Some(latest)));
        Ok(translation)
    }

    /// Starts a retry of a provider in a session: a new attempt with the next result
    /// version, keeping every earlier attempt and result. The attempt's identity is
    /// generated and made distinct from the lineage's earlier ones (`fresh_attempt_id`).
    pub fn start_retry(&mut self, session_id: TranslationSessionId, provider_key: &str) -> (started:
        Result<TranslationAttemptId, ProviderError>)
        ensures
            match retry_refusal(old(self)@, session_id, provider_key@) {
                Some(e) => started == Err::<TranslationAttemptId, ProviderError>(e) && final(self)@
                    == old(self)@,
                None => started matches Ok(attempt_id) && final(self)@ == retry_started(
                    old(self)@,
                    session_id,
                    provider_key@,
                    attempt_id,
                ) && forall|j: int|
                    0 <= j < old(self)@.sessions[session_id].attempts[provider_key@].len()
                        ==> (#[trigger] old(self)@.sessions[session_id].attempts[provider_key@][j]).id_spec()
                        != attempt_id,
            },
            is_well_formed(final(self)@),
    {
        proof {
            use_type_invariant(&*self);
            self.lemma_view_well_formed();
        }
        let i = match find_session(&self.sessions, session_id) {
            None => {
                proof {
                    lemma_session_absent(self.sessions@, session_id);
                }
                return Err(ProviderError::new(ProviderErrorKind::Cancelled));
            },
            Some(i) => i,
        };
        proof {
            lemma_session_at(self.sessions@, i as int);
        }
        if self.sessions[i].cancelled {
            return Err(ProviderError::new(ProviderErrorKind::Cancelled));
        }
        let l = match self.sessions[i].find_lineage(provider_key) {
            None => {
                return Err(ProviderError::new(ProviderErrorKind::Cancelled));
            },
            Some(l) => l,
        };
        let lineage_len = self.sessions[i].attempts[l].1.len();
        let previous_version = self.sessions[i].attempts[l].1[lineage_len - 1].result_version;
        let next = match previous_version.next() {
            Err(_) => {
                return Err(ProviderError::new(ProviderErrorKind::ResponseMalformed));
            },
            Ok(v) => v,
        };
        let attempt_id = fresh_attempt_id(&self.sessions[i].attempts[l].1);
        let mut sessions: Vec<SessionState> = Vec::new();
        std::mem::swap(&mut sessions, &mut self.sessions);
        let ghost before = sessions@;
        let mut state = sessions.remove(i);
        let ghost original = state;
        let (name, mut lineage) = state.take_lineage(l);
        lineage.push(AttemptSnapshot { id: attempt_id, result_version: next, result: None, configuration: None });
        state.restore_lineage(l, name, lineage, Ghost(original));
        sessions.insert(i, state);
        proof {
            assert(sessions@ =~= before.update(i as int, state));
            lemma_session_update(before, i as int, state);
        }
        self.sessions = sessions;
        proof {
            use_type_invariant(&*self);
            self.lemma_view_well_formed();
        }
        assert(self@ =~= retry_started(old(self)@, session_id, provider_key@, attempt_id));
        Ok(attempt_id)
    }

    /// Publishes a provider's result in the session at position `i`: as its completed result
    /// and, when `record_attempt` holds, as its latest attempt's result.
    fn publish(
        &mut self,
        i: usize,
        provider_key: &str,
        translation: &AdaptiveTranslationResult,
        record_attempt: bool,
    )
        requires
            i < old(self).sessions@.len(),
        ensures
            exists|completed: AdaptiveTranslationResult, latest: AdaptiveTranslationResult|
                #![trigger completed@, latest@]
                completed@ == translation@ && latest@ == translation@ && final(self)@
                    == with_published_result(
                    old(self)@,
                    old(self).sessions@[i as int].id,
                    provider_key@,
                    completed,
                    if record_attempt {
                        Some(latest)
                    } else {
                        None
                    },
                ),
            is_well_formed(final(self)@),
    {
        proof {
            use_type_invariant(&*self);
            lemma_session_at(self.sessions@, i as int);
        }
        let completed = translation.clone();
        let latest = translation.clone();
        let mut sessions: Vec<SessionState> = Vec::new();
        std::mem::swap(&mut sessions, &mut self.sessions);
        let ghost before = sessions@;
        let mut state = sessions.remove(i);
        assert(state == before[i as int]);
        state.record_result(provider_key, completed);
        if record_attempt {
            state.record_latest_result(provider_key, latest);
        }
        sessions.insert(i, state);
        proof {
            assert(sessions@ =~= before.update(i as int, state));
            lemma_session_update(before, i as int, state);
        }
        self.sessions = sessions;
        proof {
            use_type_invariant(&*self);
            self.lemma_view_well_formed();
        }
        assert(self@ =~= with_published_result(
            old(self)@,
            before[i as int].id,
            provider_key@,
            completed,
            if record_attempt {
                Some(latest)
            } else {
                None
            },
        ));
        assert(completed@ == translation@ && latest@ == translation@);
    }

    /// Decides what becomes of a finished retry: a success is published as the provider's
    /// completed result and its latest attempt's result, unless the session was cancelled.
    pub fn finish_retry(
        &mut self,
        session_id: TranslationSessionId,
        provider_key: &str,
        outcome: Result<AdaptiveTranslationResult, ProviderError>,
    ) -> (published: Result<AdaptiveTranslationResult, ProviderError>)
        requires
            !is_cancelled(old(self)@, session_id) ==> old(self)@.sessions[session_id].attempts.contains_key(
                provider_key@,
            ),
        ensures
            match follow_up_refusal(old(self)@, session_id, failure_of(outcome)) {
                Some(e) => published == Err::<AdaptiveTranslationResult, ProviderError>(e)
                    && final(self)@ == old(self)@,
                None => published == outcome && exists|
                    completed: AdaptiveTranslationResult,
                    latest: AdaptiveTranslationResult,
                |
                    #![auto]
                    completed@ == outcome->Ok_0@ && latest@ == outcome->Ok_0@
                        && final(self)@ == with_published_result(
                        old(self)@,
                        session_id,
                        provider_key@,
                        completed,
                        Some(latest),
                    ),
            },
            is_well_formed(final(self)@),
    {
        proof {
            use_type_invariant(&*self);
            self.lemma_view_well_formed();
        }
        let translation = match outcome {
            Err(e) => {
                return Err(e);
            },
            Ok(t) => t,
        };
        let i = match find_session(&self.sessions, session_id) {
            None => {
                proof {
                    lemma_session_absent(self.sessions@, session_id);
                }
                return Err(ProviderError::new(ProviderErrorKind::Cancelled));
            },
            Some(i) => i,
        };
        proof {
            lemma_session_at(self.sessions@, i as int);
        }
        if self.sessions[i].cancelled {
            return Err(ProviderError::new(ProviderErrorKind::Cancelled));
        }
        self.publish(i, provider_key, &translation, true);
        Ok(translation)
    }

    /// What expanding a provider does first: fails for a cancelled session, reuses the
    /// provider's completed result, or asks for a request (`None`).
    pub fn expansion_lookup(&self, session_id: TranslationSessionId, provider_key: &str) -> (lookup:
        Result<Option<&AdaptiveTranslationResult>, ProviderError>)
        ensures
            match expansion_lookup(self@, session_id, provider_key@) {
                Err(e) => lookup == Err::<Option<&AdaptiveTranslationResult>, ProviderError>(e),
                Ok(Some(r)) => lookup == Ok::<Option<&AdaptiveTranslationResult>, ProviderError>(
                    Some(&r),
                ),
                Ok(None) => lookup == Ok::<Option<&AdaptiveTranslationResult>, ProviderError>(None),
            },
    {
        proof {
            use_type_invariant(self);
        }
        let i = match find_session(&self.sessions, session_id) {
            None => {
                proof {
                    lemma_session_absent(self.sessions@, session_id);
                }
                return Err(ProviderError::new(ProviderErrorKind::Cancelled));
            },
            Some(i) => i,
        };
        proof {
            lemma_session_at(self.sessions@, i as int);
        }
        let state = &self.sessions[i];
        if state.cancelled {
            return Err(ProviderError::new(ProviderErrorKind::Cancelled));
        }
        let ghost keys = text_keys(state.results@);
        match find_text_key(&state.results, provider_key) {
            Some(k) => {
                proof {
                    lemma_entries_map_at(keys, k as int);
                }
                Ok(Some(&state.results[k].1))
            },
            None => {
                proof {
                    assert forall|j: int| 0 <= j < keys.len() implies (#[trigger] keys[j]).0
                        != provider_key@ by {
                        assert(keys[j].0 == state.results@[j].0@);
                    }
                    lemma_entries_map_absent(keys, provider_key@);
                }
                Ok(None)
            },
        }
    }

    /// Decides what becomes of a finished expansion: a success becomes the provider's
    /// completed result, unless the session was cancelled.
    pub fn finish_expansion(
        &mut self,
        session_id: TranslationSessionId,
        provider_key: &str,
        outcome: Result<AdaptiveTranslationResult, ProviderError>,
    ) -> (published: Result<AdaptiveTranslationResult, ProviderError>)
        ensures
            match follow_up_refusal(old(self)@, session_id, failure_of(outcome)) {
                Some(e) => published == Err::<AdaptiveTranslationResult, ProviderError>(e)
                    && final(self)@ == old(self)@,
                None => published == outcome && exists|completed: AdaptiveTranslationResult|
                    #![auto]
                    completed@ == outcome->Ok_0@ && final(self)@ == with_published_result(
                        old(self)@,
                        session_id,
                        provider_key@,
                        completed,
                        None,
                    ),
            },
            is_well_formed(final(self)@),
    {
        proof {
            use_type_invariant(&*self);
            self.lemma_view_well_formed();
        }
        let translation = match outcome {
            Err(e) => {
                return Err(e);
            },
            Ok(t) => t,
        };
        let i = match find_session(&self.sessions, session_id) {
            None => {
                proof {
                    lemma_session_absent(self.sessions@, session_id);
                }
                return Err(ProviderError::new(ProviderErrorKind::Cancelled));
            },
            Some(i) => i,
        };
        proof {
            lemma_session_at(self.sessions@, i as int);
        }
        if self.sessions[i].cancelled {
            return Err(ProviderError::new(ProviderErrorKind::Cancelled));
        }
        self.publish(i, provider_key, &translation, false);
        Ok(translation)
    }

    /// Cancels the active session in a window, if any; returns the session cancelled.
    pub fn cancel_window(&mut self, window_label: &str) -> (cancelled: Option<TranslationSessionId>)
        ensures
            final(self)@ == window_cancelled(old(self)@, window_label@),
            cancelled == (if old(self)@.windows.contains_key(window_label@) {
                Some(old(self)@.windows[window_label@])
            } else {
                None
            }),
            is_well_formed(final(self)@),
    {
        proof {
            use_type_invariant(&*self);
        }
        let mut windows: Vec<(String, TranslationSessionId)> = Vec::new();
        std::mem::swap(&mut windows, &mut self.windows);
        let removed = remove_text_entry(&mut windows, window_label);
        self.windows = windows;
        if let Some(id) = removed {
            let mut sessions: Vec<SessionState> = Vec::new();
            std::mem::swap(&mut sessions, &mut self.sessions);
            cancel_session_in(&mut sessions, id);
            self.sessions = sessions;
        }
        proof {
            use_type_invariant(&*self);
            self.lemma_view_well_formed();
            if removed is None {
                assert(self@.windows =~= old(self)@.windows);
            }
        }
        assert(self@ =~= window_cancelled(old(self)@, window_label@));
        removed
    }

    /// The latest attempt of a provider within a session.
    pub fn latest_attempt(&self, session_id: TranslationSessionId, provider_key: &str) -> (latest:
        Option<&AttemptSnapshot>)
        ensures
            match latest_attempt_spec(self@, session_id, provider_key@) {
                Some(a) => latest == Some(&a),
                None => latest is None,
            },
    {
        proof {
            use_type_invariant(self);
        }
        let i = match find_session(&self.sessions, session_id) {
            None => {
                proof {
                    lemma_session_absent(self.sessions@, session_id);
                }
                return None;
            },
            Some(i) => i,
        };
        proof {
            lemma_session_at(self.sessions@, i as int);
        }
        let state = &self.sessions[i];
        match state.find_lineage(provider_key) {
            None => None,
            Some(l) => {
                let lineage = &state.attempts[l].1;
                assert(lineage@.len() > 0);
                Some(&lineage[lineage.len() - 1])
            },
        }
    }

    /// Attaches the frozen non-secret configuration to a provider's latest attempt.
    pub fn attach_configuration(
        &mut self,
        session_id: TranslationSessionId,
        provider_key: &str,
        configuration: TranslationConfigurationSnapshot,
    )
        ensures
            final(self)@ == configured(old(self)@, session_id, provider_key@, configuration),
            is_well_formed(final(self)@),
    {
        proof {
            use_type_invariant(&*self);
            self.lemma_view_well_formed();
        }
        let i = match find_session(&self.sessions, session_id) {
            None => {
                proof {
                    lemma_session_absent(self.sessions@, session_id);
                }
                return;
            },
            Some(i) => i,
        };
        proof {
            lemma_session_at(self.sessions@, i as int);
        }
        let l = match self.sessions[i].find_lineage(provider_key) {
            None => {
                return;
            },
            Some(l) => l,
        };
        let mut sessions: Vec<SessionState> = Vec::new();
        std::mem::swap(&mut sessions, &mut self.sessions);
        let ghost before = sessions@;
        let mut state = sessions.remove(i);
        let ghost original = state;
        let (name, mut lineage) = state.take_lineage(l);
        let ghost old_lineage = lineage@;
        let last = lineage.len() - 1;
        let mut snapshot = lineage.remove(last);
        snapshot.configuration = Some(configuration);
        lineage.push(snapshot);
        assert(lineage@ =~= old_lineage.update(
            old_lineage.len() - 1,
            old_lineage.last().with_configuration(configuration),
        ));
        state.restore_lineage(l, name, lineage, Ghost(original));
        sessions.insert(i, state);
        proof {
            assert(sessions@ =~= before.update(i as int, state));
            lemma_session_update(before, i as int, state);
        }
        self.sessions = sessions;
        proof {
            use_type_invariant(&*self);
            self.lemma_view_well_formed();
        }
        assert(self@ =~= configured(old(self)@, session_id, provider_key@, configuration));
    }

    /// Compares the configurations of two attempts of one provider within a session.
    pub fn configuration_diff(
        &self,
        session_id: TranslationSessionId,
        provider_key: &str,
        previous_attempt_id: TranslationAttemptId,
        current_attempt_id: TranslationAttemptId,
    ) -> (diff: Option<ConfigurationDiff>)
        ensures
            match (
                attempt_configuration(self@, session_id, provider_key@, previous_attempt_id),
                attempt_configuration(self@, session_id, provider_key@, current_attempt_id),
            ) {
                (Some(previous), Some(current)) => diff matches Some(d) && is_diff_of(
                    previous,
                    current,
                    d,
                ),
                _ => diff is None,
            },
    {
        proof {
            use_type_invariant(self);
        }
        let i = match find_session(&self.sessions, session_id) {
            None => {
                proof {
                    lemma_session_absent(self.sessions@, session_id);
                }
                return None;
            },
            Some(i) => i,
        };
        proof {
            lemma_session_at(self.sessions@, i as int);
        }
        let state = &self.sessions[i];
        let l = match state.find_lineage(provider_key) {
            None => {
                return None;
            },
            Some(l) => l,
        };
        let lineage = &state.attempts[l].1;
        let previous = match find_attempt(lineage, previous_attempt_id) {
            None => {
                return None;
            },
            Some(a) => a,
        };
        let current = match find_attempt(lineage, current_attempt_id) {
            None => {
                return None;
            },
            Some(a) => a,
        };
        match (&lineage[previous].configuration, &lineage[current].configuration) {
            (Some(p), Some(c)) => Some(p.diff(c)),
            _ => None,
        }
    }

    /// The session and primary result of a completed submission.
    pub fn completed_submission(&self, submission_id: &str) -> (completed: Option<
        (TranslationSessionId, &AdaptiveTranslationResult),
    >)
        ensures
            match completed_submission_spec(self@, submission_id@) {
                Some((id, r)) => completed == Some((id, &r)),
                None => completed is None,
            },
    {
        proof {
            use_type_invariant(self);
        }
        let ghost keys = text_keys(self.completed_submissions@);
        let id = match find_text_key(&self.completed_submissions, submission_id) {
            None => {
                proof {
                    assert forall|j: int| 0 <= j < keys.len() implies (#[trigger] keys[j]).0
                        != submission_id@ by {
                        assert(keys[j].0 == self.completed_submissions@[j].0@);
                    }
                    lemma_entries_map_absent(keys, submission_id@);
                }
                return None;
            },
            Some(k) => {
                proof {
                    lemma_entries_map_at(keys, k as int);
                }
                self.completed_submissions[k].1
            },
        };
        let i = match find_session(&self.sessions, id) {
            None => {
                proof {
                    lemma_session_absent(self.sessions@, id);
                }
                return None;
            },
            Some(i) => i,
        };
        proof {
            lemma_session_at(self.sessions@, i as int);
        }
        let state = &self.sessions[i];
        let ghost results = text_keys(state.results@);
        match find_text_key(&state.results, "__primary") {
            Some(k) => {
                proof {
                    lemma_entries_map_at(results, k as int);
                }
                Some((id, &state.results[k].1))
            },
            None => {
                proof {
                    assert forall|j: int| 0 <= j < results.len() implies (#[trigger] results[j]).0
                        != primary_key() by {
                        assert(results[j].0 == state.results@[j].0@);
                    }
                    lemma_entries_map_absent(results, primary_key());
                }
                None
            },
        }
    }

    /// Decides what a submission does: reuse its completed session, wait for the identical
    /// submission in flight, or proceed (and be in flight from now on).
    pub fn begin_submission(&mut self, submission_id: &str) -> (step: SubmissionStep)
        ensures
            step == submission_step_spec(old(self)@, submission_id@),
            final(self)@ == (if step is Proceed {
                SupervisorView {
                    windows: old(self)@.windows,
                    sessions: old(self)@.sessions,
                    completed_submissions: old(self)@.completed_submissions,
                    in_flight_submissions: old(self)@.in_flight_submissions.insert(submission_id@),
                }
            } else {
                old(self)@
            }),
            is_well_formed(final(self)@),
    {
        proof {
            use_type_invariant(&*self);
            self.lemma_view_well_formed();
        }
        if let Some((id, _)) = self.completed_submission(submission_id) {
            return SubmissionStep::Completed(id);
        }
        let ghost keys = text_keys(self.in_flight_submissions@);
        match find_text_key(&self.in_flight_submissions, submission_id) {
            Some(k) => {
                proof {
                    lemma_entries_map_at(keys, k as int);
                }
                SubmissionStep::Wait
            },
            None => {
                proof {
                    assert forall|j: int| 0 <= j < keys.len() implies (#[trigger] keys[j]).0
                        != submission_id@ by {
                        assert(keys[j].0 == self.in_flight_submissions@[j].0@);
                    }
                    lemma_entries_map_absent(keys, submission_id@);
                }
                let mut in_flight: Vec<(String, ())> = Vec::new();
                std::mem::swap(&mut in_flight, &mut self.in_flight_submissions);
                insert_text_entry(&mut in_flight, submission_id, ());
                self.in_flight_submissions = in_flight;
                proof {
                    use_type_invariant(&*self);
                    self.lemma_view_well_formed();
                }
                assert(self@.in_flight_submissions =~= old(self)@.in_flight_submissions.insert(
                    submission_id@,
                ));
                SubmissionStep::Proceed
            },
        }
    }

    /// Settles a submission in flight: it is no longer in flight, and when its primary
    /// request succeeded (`session_id` given) its session is remembered.
    pub fn finish_submission(&mut self, submission_id: &str, session_id: Option<TranslationSessionId>)
        requires
            old(self)@.in_flight_submissions.contains(submission_id@),
        ensures
            final(self)@ == submission_finished(old(self)@, submission_id@, session_id),
            is_well_formed(final(self)@),
    {
        proof {
            use_type_invariant(&*self);
        }
        let mut in_flight: Vec<(String, ())> = Vec::new();
        std::mem::swap(&mut in_flight, &mut self.in_flight_submissions);
        remove_text_entry(&mut in_flight, submission_id);
        self.in_flight_submissions = in_flight;
        if let Some(id) = session_id {
            let mut completed: Vec<(String, TranslationSessionId)> = Vec::new();
            std::mem::swap(&mut completed, &mut self.completed_submissions);
            insert_text_entry(&mut completed, submission_id, id);
            self.completed_submissions = completed;
        }
        proof {
            use_type_invariant(&*self);
            self.lemma_view_well_formed();
        }
        assert(self@.in_flight_submissions =~= old(self)@.in_flight_submissions.remove(
            submission_id@,
        ));
        assert(self@ =~= submission_finished(old(self)@, submission_id@, session_id));
    }
}

} // verus!

verus! {

/// Law: when a window starts a second request (whose new session is not one the supervisor
/// already holds, as `start_primary` ensures), a late completion of its first request is
/// never published: it is answered with cancellation, whatever the provider returned.
pub proof fn law_replaced_session_is_cancelled(
    v: SupervisorView,
    window: Seq<char>,
    first: TranslationSessionId,
    first_attempt: TranslationAttemptId,
    second: TranslationSessionId,
    second_attempt: TranslationAttemptId,
    failure: Option<ProviderError>,
)
    requires
        !started(v, window, first, first_attempt).sessions.contains_key(second),
    ensures
        primary_refusal(
            started(started(v, window, first, first_attempt), window, second, second_attempt),
            window,
            first,
            failure,
        ) == Some(cancelled_error()),
{
    let v1 = started(v, window, first, first_attempt);
    let v2 = started(v1, window, second, second_attempt);
    assert(v1.windows[window] == first);
    assert(v2.sessions[first].cancelled);
}

/// Law: a failed primary request is answered with its own failure (or with cancellation
/// once its session is cancelled), so finishing it publishes nothing and starts no other
/// provider in its place.
pub proof fn law_primary_failure_has_no_fallback(
    v: SupervisorView,
    window: Seq<char>,
    session_id: TranslationSessionId,
    failure: ProviderError,
)
    ensures
        primary_refusal(v, window, session_id, Some(failure)) is Some,
        !is_cancelled(v, session_id) ==> primary_refusal(v, window, session_id, Some(failure))
            == Some(failure),
{
}

/// Law: starting a request starts only the primary provider of the new session: it has one
/// primary attempt, no other provider's attempt, and no completed result.
pub proof fn law_start_requests_only_the_primary(
    v: SupervisorView,
    window: Seq<char>,
    session_id: TranslationSessionId,
    attempt_id: TranslationAttemptId,
)
    ensures
        started(v, window, session_id, attempt_id).sessions[session_id].attempts.dom() == set![
            primary_key(),
        ],
        started(v, window, session_id, attempt_id).sessions[session_id].attempts[primary_key()].len()
            == 1,
        started(v, window, session_id, attempt_id).sessions[session_id].results.is_empty(),
        started(v, window, session_id, attempt_id).windows[window] == session_id,
{
    let s = started(v, window, session_id, attempt_id).sessions[session_id];
    assert(s.attempts.dom() =~= set![primary_key()]);
}

/// Law: once a provider's expansion is published in a live session, expanding it again
/// reuses that result instead of asking for another request.
pub proof fn law_expansion_reuses_its_result(
    v: SupervisorView,
    session_id: TranslationSessionId,
    key: Seq<char>,
    completed: AdaptiveTranslationResult,
)
    requires
        !is_cancelled(v, session_id),
    ensures
        expansion_lookup(with_published_result(v, session_id, key, completed, None), session_id, key)
            == Ok::<Option<AdaptiveTranslationResult>, ProviderError>(Some(completed)),
{
}

/// Law: a retry adds one attempt whose result version is one past the latest one, keeps
/// every earlier attempt (with its result) and every completed result.
pub proof fn law_retry_adds_the_next_version(
    v: SupervisorView,
    session_id: TranslationSessionId,
    key: Seq<char>,
    attempt_id: TranslationAttemptId,
)
    requires
        is_well_formed(v),
        retry_refusal(v, session_id, key) is None,
    ensures
        ({
            let before = v.sessions[session_id].attempts[key];
            let after = retry_started(v, session_id, key, attempt_id);
            let lineage = after.sessions[session_id].attempts[key];
            &&& lineage.len() == before.len() + 1
            &&& lineage.take(before.len() as int) == before
            &&& lineage.last().id_spec() == attempt_id
            &&& lineage.last().result_spec() is None
            &&& lineage.last().result_version_spec().value_spec() == before.last().result_version_spec().value_spec() + 1
            &&& after.sessions[session_id].results == v.sessions[session_id].results
            &&& latest_attempt_spec(after, session_id, key) == Some(lineage.last())
        }),
{
    let before = v.sessions[session_id].attempts[key];
    let after = retry_started(v, session_id, key, attempt_id);
    let lineage = after.sessions[session_id].attempts[key];
    let next = ResultVersion::from_value_spec(
        (before.last().result_version_spec().value_spec() + 1) as u32,
    );
    assert(lineage == before.push(AttemptSnapshot::fresh(attempt_id, next)));
    assert(lineage.take(before.len() as int) =~= before);
    AttemptSnapshot::lemma_fresh(attempt_id, next);
    ResultVersion::lemma_from_value((before.last().result_version_spec().value_spec() + 1) as u32);
}

/// Law: a published primary result is the result of the session's latest primary attempt
/// and its completed result; earlier attempts are untouched.
pub proof fn law_published_result_is_the_latest_attempt(
    v: SupervisorView,
    session_id: TranslationSessionId,
    key: Seq<char>,
    completed: AdaptiveTranslationResult,
    latest: AdaptiveTranslationResult,
)
    requires
        is_well_formed(v),
        v.sessions.contains_key(session_id),
        v.sessions[session_id].attempts.contains_key(key),
    ensures
        ({
            let after = with_published_result(v, session_id, key, completed, Some(latest));
            let before = v.sessions[session_id].attempts[key];
            let lineage = after.sessions[session_id].attempts[key];
            &&& after.sessions[session_id].results[key] == completed
            &&& lineage.len() == before.len()
            &&& lineage.take(before.len() - 1) == before.take(before.len() - 1)
            &&& latest_attempt_spec(after, session_id, key) matches Some(a) && a.result_spec()
                == Some(latest) && a.id_spec() == before.last().id_spec()
                && a.result_version_spec() == before.last().result_version_spec()
        }),
{
    let after = with_published_result(v, session_id, key, completed, Some(latest));
    let before = v.sessions[session_id].attempts[key];
    let lineage = after.sessions[session_id].attempts[key];
    assert(lineage.take(before.len() - 1) =~= before.take(before.len() - 1));
    before.last().lemma_with_result(latest);
}

/// Law: the first attempt of a new session has result version 1, and retrying it gives an
/// attempt with version 2 and a new identity, while the first attempt stays in the lineage.
pub proof fn law_first_retry_is_the_second_version(
    v: SupervisorView,
    window: Seq<char>,
    session_id: TranslationSessionId,
    first: TranslationAttemptId,
    second: TranslationAttemptId,
)
    requires
        first != second,
    ensures
        ({
            let v1 = started(v, window, session_id, first);
            let v2 = retry_started(v1, session_id, primary_key(), second);
            let lineage = v2.sessions[session_id].attempts[primary_key()];
            &&& latest_attempt_spec(v1, session_id, primary_key()) matches Some(a) && a.id_spec()
                == first && a.result_version_spec().value_spec() == 1
            &&& retry_refusal(v1, session_id, primary_key()) is None
            &&& lineage.len() == 2
            &&& lineage[0].id_spec() == first
            &&& latest_attempt_spec(v2, session_id, primary_key()) matches Some(b) && b.id_spec()
                == second && b.result_version_spec().value_spec() == 2
        }),
{
    let v1 = started(v, window, session_id, first);
    let one = ResultVersion::from_value_spec(1);
    ResultVersion::lemma_from_value(1);
    AttemptSnapshot::lemma_fresh(first, one);
    let v2 = retry_started(v1, session_id, primary_key(), second);
    let two = ResultVersion::from_value_spec(2);
    ResultVersion::lemma_from_value(2);
    AttemptSnapshot::lemma_fresh(second, two);
    assert(v1.sessions[session_id].attempts[primary_key()] == seq![AttemptSnapshot::fresh(first, one)]);
}

/// Law: a configuration attached to a provider in a live lineage becomes the configuration
/// of that provider's latest attempt, which keeps its identity, version and result.
pub proof fn law_attached_configuration_is_the_latest_attempts(
    v: SupervisorView,
    session_id: TranslationSessionId,
    key: Seq<char>,
    configuration: TranslationConfigurationSnapshot,
)
    requires
        v.sessions.contains_key(session_id),
        v.sessions[session_id].attempts.contains_key(key),
        v.sessions[session_id].attempts[key].len() > 0,
    ensures
        ({
            let before = v.sessions[session_id].attempts[key].last();
            latest_attempt_spec(configured(v, session_id, key, configuration), session_id, key)
                matches Some(a) && a.configuration_spec() == Some(configuration) && a.id_spec()
                == before.id_spec() && a.result_version_spec() == before.result_version_spec()
                && a.result_spec() == before.result_spec()
        }),
{
    v.sessions[session_id].attempts[key].last().lemma_with_configuration(configuration);
}

/// Law: once a submission's request succeeded, submitting it again reuses the session it
/// produced instead of starting another primary request.
pub proof fn law_completed_submission_is_reused(
    v: SupervisorView,
    submission: Seq<char>,
    session_id: TranslationSessionId,
)
    requires
        v.sessions.contains_key(session_id),
        v.sessions[session_id].results.contains_key(primary_key()),
    ensures
        submission_step_spec(submission_finished(v, submission, Some(session_id)), submission)
            == SubmissionStep::Completed(session_id),
{
}

/// Law: while a submission is in flight, the same submission waits for it instead of
/// starting a second primary request.
pub proof fn law_duplicate_submission_waits(v: SupervisorView, submission: Seq<char>)
    requires
        submission_step_spec(v, submission) == SubmissionStep::Proceed,
    ensures
        submission_step_spec(
            SupervisorView {
                windows: v.windows,
                sessions: v.sessions,
                completed_submissions: v.completed_submissions,
                in_flight_submissions: v.in_flight_submissions.insert(submission),
            },
            submission,
        ) == SubmissionStep::Wait,
{
}

/// Law: after a window is cancelled, nothing more is published for its session: its primary
/// request, retries and expansions are all answered with cancellation.
pub proof fn law_cancelled_window_publishes_nothing(
    v: SupervisorView,
    window: Seq<char>,
    key: Seq<char>,
    failure: Option<ProviderError>,
)
    requires
        v.windows.contains_key(window),
        v.sessions.contains_key(v.windows[window]),
    ensures
        ({
            let id = v.windows[window];
            let after = window_cancelled(v, window);
            &&& primary_refusal(after, window, id, failure) == Some(cancelled_error())
            &&& retry_refusal(after, id, key) == Some(cancelled_error())
            &&& expansion_lookup(after, id, key) == Err::<Option<AdaptiveTranslationResult>, ProviderError>(cancelled_error())
            &&& failure is None ==> follow_up_refusal(after, id, failure) == Some(cancelled_error())
        }),
{
}

} // verus!
