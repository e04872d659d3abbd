use vstd::prelude::*;
use vstd::string::StringExecFns;
use crate::error::GenesisError;
use crate::models::GeneratedFile;
use crate::models::ProjectRecord;
use crate::models::ProjectStatus;
use crate::models::ProjectUpdate;
use crate::models::valid_transition;
use crate::store::JobStore;
use crate::validation::GenerateRequest;
use crate::validation::valid_generate_request;
use crate::validation::validate_generate_request;

verus! {

/// What one call to the Generation Service came back as, once classified:
/// a parsed success carrying the produced files and output text, or one of
/// the four failure kinds.
pub enum GenerationOutcome {
    Success(Vec<GeneratedFile>, String),
    Timeout,
    Unreachable,
    ServiceError(u16),
    ParseError,
}

/// The failure description a failed job carries as its output.
pub open spec fn failure_text(o: GenerationOutcome) -> Seq<char> {
    match o {
        GenerationOutcome::Success(_, _) => Seq::empty(),
        GenerationOutcome::Timeout => "Generation request timed out"@,
        GenerationOutcome::Unreachable => "Failed to connect to AI core"@,
        GenerationOutcome::ServiceError(_) => "AI core returned error"@,
        GenerationOutcome::ParseError => "Failed to parse AI core response"@,
    }
}

/// The failure description of a failed outcome, never empty.
fn failure_message(o: &GenerationOutcome) -> (s: String)
    requires
        !(o matches GenerationOutcome::Success(_, _)),
    ensures
        s@ == failure_text(*o),
        s@.len() > 0,
{
    proof {
        reveal_strlit("Generation request timed out");
        reveal_strlit("Failed to connect to AI core");
        reveal_strlit("AI core returned error");
        reveal_strlit("Failed to parse AI core response");
    }
    match o {
        GenerationOutcome::Success(_, _) => "".to_owned(),
        GenerationOutcome::Timeout => "Generation request timed out".to_owned(),
        GenerationOutcome::Unreachable => "Failed to connect to AI core".to_owned(),
        GenerationOutcome::ServiceError(_) => "AI core returned error".to_owned(),
        GenerationOutcome::ParseError => "Failed to parse AI core response".to_owned(),
    }
}

/// The job orchestrator: owns the store of records and issues each job id
/// exactly once, from a counter that only grows. One asynchronous task per
/// job drives `begin_generation` and then `finish_generation`; the caller
/// runs the tasks, the orchestrator decides every transition.
#[derive(Debug)]
pub struct Orchestrator {
    pub store: JobStore,
    pub next_id: u64,
}

impl Orchestrator {
    /// Well-formed: the store is, and every issued id lies below the counter,
    /// so the counter value is never already in use.
    pub open spec fn wf(&self) -> bool {
        &&& self.store.wf()
        &&& forall|i: int|
            0 <= i < self.store.records@.len() ==> #[trigger] self.store.records@[i].project_id
                < self.next_id
    }

    /// A fresh orchestrator with an empty store.
    pub fn new() -> (r: Orchestrator)
        ensures
            r.wf(),
            r.store.records@.len() == 0,
            r.next_id == 0,
    {
        Orchestrator { store: JobStore::new(), next_id: 0 }
    }

    /// Admits a generation request: rejected with the validation error before
    /// any state is created if invalid; otherwise a fresh, never-issued job
    /// id is returned at once, and the job is already retrievable, `Pending`,
    /// with the prompt, the chosen backend (`ollama` when none was named),
    /// no files, empty output and both timestamps at `now`.
    pub fn submit(&mut self, req: &GenerateRequest, now: u64) -> (r: Result<u64, GenesisError>)
        requires
            old(self).wf(),
            old(self).next_id < u64::MAX,
        ensures
            final(self).wf(),
            r is Ok <==> valid_generate_request(*req),
            r matches Err(e) ==> e is ValidationError && *final(self) == *old(self),
            r matches Ok(id) ==> {
                &&& id == old(self).next_id
                &&& final(self).next_id == old(self).next_id + 1
                &&& !old(self).store.has_id(id)
                &&& final(self).store.records@.len() == old(self).store.records@.len() + 1
                &&& forall|j: int|
                    0 <= j < old(self).store.records@.len()
                        ==> #[trigger] final(self).store.records@[j] == old(self).store.records@[j]
                &&& submitted_record(final(self).store.records@.last(), *req, id, now)
            },
    {
        if let Err(e) = validate_generate_request(req) {
            return Err(e);
        }
        let id = self.next_id;
        let backend: String = match &req.backend {
            Some(b) => b.clone(),
            None => "ollama".to_owned(),
        };
        let record = ProjectRecord::new(id, req.prompt.clone(), backend, now);
        let created = self.store.create_project(record);
        proof {
            assert(created is Ok);
        }
        self.next_id = id + 1;
        Ok(id)
    }

    /// Moves a `Pending` job to `Generating` before its external call starts,
    /// refreshing `updated_at`; nothing else changes. Fails without touching
    /// any state on an unknown id or a job no longer `Pending` — a terminal
    /// job is never re-entered.
    pub fn begin_generation(&mut self, id: u64, now: u64) -> (r: Result<(), GenesisError>)
        requires
            old(self).wf(),
        ensures
            final(self).wf(),
            final(self).next_id == old(self).next_id,
            r is Ok <==> exists|i: int|
                {
                    &&& 0 <= i < old(self).store.records@.len()
                    &&& (#[trigger] old(self).store.records@[i]).project_id == id
                    &&& old(self).store.records@[i].status == ProjectStatus::Pending
                },
            r is Err ==> *final(self) == *old(self),
            !old(self).store.has_id(id) ==> r matches Err(GenesisError::NotFoundError(_)),
            old(self).store.has_id(id) && r is Err ==> r matches Err(
                GenesisError::InternalError(_),
            ),
            r is Ok ==> exists|i: int|
                {
                    &&& 0 <= i < old(self).store.records@.len()
                    &&& (#[trigger] old(self).store.records@[i]).project_id == id
                    &&& status_step(
                        old(self).store.records@[i],
                        final(self).store.records@[i],
                        ProjectStatus::Generating,
                        now,
                    )
                    &&& valid_transition(
                        old(self).store.records@[i].status,
                        final(self).store.records@[i].status,
                    )
                    &&& final(self).store.records@.len() == old(self).store.records@.len()
                    &&& forall|j: int|
                        0 <= j < old(self).store.records@.len() && j != i
                            ==> #[trigger] final(self).store.records@[j] == old(self).store.records@[j]
                },
    {
        let current = match self.store.get_project(id) {
            None => {
                return Err(GenesisError::NotFoundError("Project not found".to_owned()));
            },
            Some(p) => p.status,
        };
        if !matches!(current, ProjectStatus::Pending) {
            return Err(
                GenesisError::InternalError("job is no longer pending".to_owned()),
            );
        }
        let update = ProjectUpdate {
            status: Some(ProjectStatus::Generating),
            files: None,
            output: None,
            metadata: None,
        };
        let updated = self.store.update_project(id, update, now);
        proof {
            assert(updated is Ok);
        }
        Ok(())
    }

    /// Settles a `Generating` job from the classified outcome of its external
    /// call, as one persisted update: a parsed success makes it `Completed`
    /// with exactly the returned files (order kept) and output; any failure
    /// makes it `Failed`, its files untouched and its output a non-empty
    /// description of the failure. Fails without touching any state on an
    /// unknown id or a job not `Generating` — a terminal job is never
    /// re-entered.
    pub fn finish_generation(&mut self, id: u64, outcome: GenerationOutcome, now: u64) -> (r:
        Result<(), GenesisError>)
        requires
            old(self).wf(),
        ensures
            final(self).wf(),
            final(self).next_id == old(self).next_id,
            r is Ok <==> exists|i: int|
                {
                    &&& 0 <= i < old(self).store.records@.len()
                    &&& (#[trigger] old(self).store.records@[i]).project_id == id
                    &&& old(self).store.records@[i].status == ProjectStatus::Generating
                },
            r is Err ==> *final(self) == *old(self),
            !old(self).store.has_id(id) ==> r matches Err(GenesisError::NotFoundError(_)),
            old(self).store.has_id(id) && r is Err ==> r matches Err(
                GenesisError::InternalError(_),
            ),
            r is Ok ==> exists|i: int|
                {
                    &&& 0 <= i < old(self).store.records@.len()
                    &&& (#[trigger] old(self).store.records@[i]).project_id == id
                    &&& settled_record(
                        old(self).store.records@[i],
                        final(self).store.records@[i],
                        outcome,
                        now,
                    )
                    &&& valid_transition(
                        old(self).store.records@[i].status,
                        final(self).store.records@[i].status,
                    )
                    &&& final(self).store.records@.len() == old(self).store.records@.len()
                    &&& forall|j: int|
                        0 <= j < old(self).store.records@.len() && j != i
                            ==> #[trigger] final(self).store.records@[j] == old(self).store.records@[j]
                },
    {
        let current = match self.store.get_project(id) {
            None => {
                return Err(GenesisError::NotFoundError("Project not found".to_owned()));
            },
            Some(p) => p.status,
        };
        if !matches!(current, ProjectStatus::Generating) {
            return Err(
                GenesisError::InternalError("job is not generating".to_owned()),
            );
        }
        let update = match outcome {
            GenerationOutcome::Success(files, output) => ProjectUpdate {
                status: Some(ProjectStatus::Completed),
                files: Some(files),
                output: Some(output),
                metadata: None,
            },
            ref failed => ProjectUpdate {
                status: Some(ProjectStatus::Failed),
                files: None,
                output: Some(failure_message(failed)),
                metadata: None,
            },
        };
        let updated = self.store.update_project(id, update, now);
        proof {
            assert(updated is Ok);
        }
        Ok(())
    }
}

/// What `submit` persists: a fresh `Pending` record carrying the request.
pub open spec fn submitted_record(
    rec: ProjectRecord,
    req: GenerateRequest,
    id: u64,
    now: u64,
) -> bool {
    &&& rec.project_id == id
    &&& rec.prompt == req.prompt
    &&& rec.status == ProjectStatus::Pending
    &&& rec.files@.len() == 0
    &&& rec.output@.len() == 0
    &&& rec.created_at == now
    &&& rec.updated_at == now
    &&& rec.backend@ == match req.backend {
        Some(b) => b@,
        None => "ollama"@,
    }
    &&& rec.metadata is None
}

/// One lifecycle step: only the status moved (to `to`) and `updated_at` was
/// refreshed; every other field is untouched.
pub open spec fn status_step(
    before: ProjectRecord,
    after: ProjectRecord,
    to: ProjectStatus,
    now: u64,
) -> bool {
    &&& after.project_id == before.project_id
    &&& after.prompt == before.prompt
    &&& after.files == before.files
    &&& after.output == before.output
    &&& after.status == to
    &&& after.created_at == before.created_at
    &&& after.updated_at == now
    &&& after.backend == before.backend
    &&& after.metadata == before.metadata
}

/// What `finish_generation` persists for each outcome.
pub open spec fn settled_record(
    before: ProjectRecord,
    after: ProjectRecord,
    outcome: GenerationOutcome,
    now: u64,
) -> bool {
    &&& after.project_id == before.project_id
    &&& after.prompt == before.prompt
    &&& after.created_at == before.created_at
    &&& after.updated_at == now
    &&& after.backend == before.backend
    &&& match outcome {
        GenerationOutcome::Success(files, output) => {
            &&& after.status == ProjectStatus::Completed
            &&& after.files == files
            &&& after.output == output
        },
        _ => {
            &&& after.status == ProjectStatus::Failed
            &&& after.files == before.files
            &&& after.output@ == failure_text(outcome)
            &&& after.output@.len() > 0
        },
    }
}

} // verus!
