use vstd::prelude::*;

verus! {

/// One file produced by the generation service, attached to a job when it
/// completes. Timestamps are milliseconds since the Unix epoch.
#[derive(Debug)]
pub struct GeneratedFile {
    pub name: String,
    pub content: String,
    pub language: String,
    pub size: Option<u64>,
    pub last_modified: Option<u64>,
}

/// Lifecycle states of a generation job.
#[derive(Clone, Copy, Debug, PartialEq, Eq, Structural)]
pub enum ProjectStatus {
    Pending,
    Generating,
    Completed,
    Failed,
}

/// Position of a status along the lifecycle path `Pending -> Generating ->
/// {Completed, Failed}`; the two terminal states share the highest rank.
pub open spec fn status_rank(s: ProjectStatus) -> int {
    match s {
        ProjectStatus::Pending => 0,
        ProjectStatus::Generating => 1,
        ProjectStatus::Completed => 2,
        ProjectStatus::Failed => 2,
    }
}

/// A terminal status admits no further transition.
pub open spec fn is_terminal(s: ProjectStatus) -> bool {
    s == ProjectStatus::Completed || s == ProjectStatus::Failed
}

/// The single-step transitions the lifecycle state machine allows.
pub open spec fn valid_transition(from: ProjectStatus, to: ProjectStatus) -> bool {
    ||| (from == ProjectStatus::Pending && to == ProjectStatus::Generating)
    ||| (from == ProjectStatus::Generating && is_terminal(to))
}

/// A status reachable from `from` by zero or more allowed transitions.
pub open spec fn reachable_status(from: ProjectStatus, to: ProjectStatus) -> bool {
    ||| from == to
    ||| valid_transition(from, to)
    ||| (from == ProjectStatus::Pending && is_terminal(to))
}

/// Law: every allowed transition strictly advances the lifecycle, and none
/// leads back to `Pending` — a status sequence observed by repeated polling
/// can never move backward nor revisit `Pending` after leaving it.
pub proof fn lemma_transition_advances(from: ProjectStatus, to: ProjectStatus)
    requires
        valid_transition(from, to),
    ensures
        status_rank(to) > status_rank(from),
        to != ProjectStatus::Pending,
{
}

/// Law: a terminal status admits no further transition.
pub proof fn lemma_terminal_is_final(from: ProjectStatus, to: ProjectStatus)
    requires
        is_terminal(from),
    ensures
        !valid_transition(from, to),
{
}

/// Law: reachability along the lifecycle composes, so any chain of allowed
/// transitions stays a prefix of `Pending, Generating, {Completed | Failed}`.
pub proof fn lemma_reachable_transitive(a: ProjectStatus, b: ProjectStatus, c: ProjectStatus)
    requires
        reachable_status(a, b),
        reachable_status(b, c),
    ensures
        reachable_status(a, c),
{
}

/// Law: two consecutive allowed transitions can only be the canonical path —
/// `Pending` to `Generating` to a terminal state — so no chain is longer,
/// and a polled status sequence is always a prefix of that path.
pub proof fn lemma_chain_is_canonical(a: ProjectStatus, b: ProjectStatus, c: ProjectStatus)
    requires
        valid_transition(a, b),
        valid_transition(b, c),
    ensures
        a == ProjectStatus::Pending,
        b == ProjectStatus::Generating,
        is_terminal(c),
        forall|d: ProjectStatus| !valid_transition(c, d),
{
}

/// One generation job and its tracked lifecycle. The `metadata` field is an
/// opaque pass-through payload carried verbatim.
#[derive(Debug)]
pub struct ProjectRecord {
    pub project_id: u64,
    pub prompt: String,
    pub files: Vec<GeneratedFile>,
    pub output: String,
    pub status: ProjectStatus,
    pub created_at: u64,
    pub updated_at: u64,
    pub backend: String,
    pub metadata: Option<String>,
}

impl ProjectRecord {
    /// A fresh record: `Pending`, no files, empty output, both timestamps set
    /// to the supplied clock reading.
    pub fn new(project_id: u64, prompt: String, backend: String, now: u64) -> (r: ProjectRecord)
        ensures
            r.project_id == project_id,
            r.prompt == prompt,
            r.backend == backend,
            r.status == ProjectStatus::Pending,
            r.files@.len() == 0,
            r.output@.len() == 0,
            r.created_at == now,
            r.updated_at == now,
            r.metadata is None,
    {
        ProjectRecord {
            project_id,
            prompt,
            files: Vec::new(),
            output: String::new(),
            status: ProjectStatus::Pending,
            created_at: now,
            updated_at: now,
            backend,
            metadata: None,
        }
    }

    /// Replaces the status and refreshes `updated_at`; every other field is
    /// left untouched.
    pub fn update_status(&mut self, status: ProjectStatus, now: u64)
        ensures
            final(self).status == status,
            final(self).updated_at == now,
            final(self).project_id == old(self).project_id,
            final(self).prompt == old(self).prompt,
            final(self).files == old(self).files,
            final(self).output == old(self).output,
            final(self).created_at == old(self).created_at,
            final(self).backend == old(self).backend,
            final(self).metadata == old(self).metadata,
    {
        self.status = status;
        self.updated_at = now;
    }

    /// Replaces the attached files and refreshes `updated_at`; every other
    /// field is left untouched.
    pub fn add_files(&mut self, files: Vec<GeneratedFile>, now: u64)
        ensures
            final(self).files == files,
            final(self).updated_at == now,
            final(self).project_id == old(self).project_id,
            final(self).prompt == old(self).prompt,
            final(self).output == old(self).output,
            final(self).status == old(self).status,
            final(self).created_at == old(self).created_at,
            final(self).backend == old(self).backend,
            final(self).metadata == old(self).metadata,
    {
        self.files = files;
        self.updated_at = now;
    }

    /// Replaces the output text and refreshes `updated_at`; every other field
    /// is left untouched.
    pub fn set_output(&mut self, output: String, now: u64)
        ensures
            final(self).output == output,
            final(self).updated_at == now,
            final(self).project_id == old(self).project_id,
            final(self).prompt == old(self).prompt,
            final(self).files == old(self).files,
            final(self).status == old(self).status,
            final(self).created_at == old(self).created_at,
            final(self).backend == old(self).backend,
            final(self).metadata == old(self).metadata,
    {
        self.output = output;
        self.updated_at = now;
    }
}

/// Body of a generation request as the API receives it.
#[derive(Debug)]
pub struct GenerateRequest {
    pub prompt: String,
    pub backend: Option<String>,
}

/// Uniform envelope for API responses.
#[derive(Debug)]
pub struct ApiResponse<T> {
    pub success: bool,
    pub message: String,
    pub data: Option<T>,
}

/// Summary health report: overall status plus one entry per service.
#[derive(Debug)]
pub struct HealthResponse {
    pub status: String,
    pub timestamp: u64,
    pub services: Vec<(String, String)>,
}

/// Selection and pagination of a job listing.
#[derive(Debug)]
pub struct ProjectQuery {
    pub project_id: Option<u64>,
    pub status: Option<ProjectStatus>,
    pub limit: Option<i64>,
    pub skip: Option<u64>,
}

/// A partial update: only the fields present are applied.
#[derive(Debug)]
pub struct ProjectUpdate {
    pub status: Option<ProjectStatus>,
    pub files: Option<Vec<GeneratedFile>>,
    pub output: Option<String>,
    pub metadata: Option<String>,
}

} // verus!
