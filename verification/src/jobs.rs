//! Generation jobs: what is stored for them, what a status query answers, and
//! how submissions, poll outcomes and cancellations change them.

use vstd::prelude::*;
use crate::json::{deref_opt, get_opt, opt_get, opt_i64, JsonValue};
use crate::provider::{
    error_message, opt_view, result_view, AIError, AIErrorView, PollView, ProviderTaskPollResult,
    ProviderTaskSubmission, SubmissionView,
};
use crate::registry::ProviderRegistry;
use crate::text::{concat2, i64_text, owned, push_i64, str_eq};

verus! {

/// A stored generation job.
pub struct GenerationJobRecord {
    pub job_id: String,
    pub provider_id: String,
    pub status: String,
    pub resumable: bool,
    pub external_task_id: Option<String>,
    pub external_task_meta_json: Option<String>,
    pub result: Option<String>,
    pub error: Option<String>,
}

/// What a status query answers about a job.
pub struct GenerationJobStatusDto {
    pub job_id: String,
    pub status: String,
    pub result: Option<String>,
    pub error: Option<String>,
    pub seed: Option<i64>,
    /// The provider's own task id, where the job has one.
    pub external_task_id: Option<String>,
}

/// The abstract form of a status answer.
pub struct StatusView {
    pub job_id: Seq<char>,
    pub status: Seq<char>,
    pub result: Option<Seq<char>>,
    pub error: Option<Seq<char>>,
    pub seed: Option<i64>,
    pub external_task_id: Option<Seq<char>>,
}

impl View for GenerationJobStatusDto {
    type V = StatusView;

    open spec fn view(&self) -> StatusView {
        StatusView {
            job_id: self.job_id@,
            status: self.status@,
            result: opt_view(self.result),
            error: opt_view(self.error),
            seed: self.seed,
            external_task_id: opt_view(self.external_task_id),
        }
    }
}

/// The `seed` integer of a job's task metadata.
pub open spec fn meta_seed(meta: Option<JsonValue>) -> Option<i64> {
    opt_i64(opt_get(meta, "seed"@))
}

/// The answer for a stored job, its seed read from its parsed task metadata.
pub open spec fn record_status(record: GenerationJobRecord, meta: Option<JsonValue>) -> StatusView {
    StatusView {
        job_id: record.job_id@,
        status: record.status@,
        result: opt_view(record.result),
        error: opt_view(record.error),
        seed: meta_seed(meta),
        external_task_id: opt_view(record.external_task_id),
    }
}

fn clone_opt(o: &Option<String>) -> (r: Option<String>)
    ensures
        opt_view(r) == opt_view(*o),
{
    match o {
        Some(s) => Some(s.clone()),
        None => None,
    }
}

/// The `seed` of parsed task metadata, where it is an integer that fits `i64`.
pub fn seed_from_meta(meta: Option<&JsonValue>) -> (r: Option<i64>)
    ensures
        r == meta_seed(deref_opt(meta)),
{
    match get_opt(meta, "seed") {
        Some(v) => v.as_i64(),
        None => None,
    }
}

/// The status answer for a stored job; `meta` is its task metadata as parsed
/// from `external_task_meta_json` (`None` where absent or not JSON).
pub fn dto_from_record(record: &GenerationJobRecord, meta: Option<&JsonValue>) -> (r: GenerationJobStatusDto)
    ensures
        r@ == record_status(*record, deref_opt(meta)),
{
    GenerationJobStatusDto {
        job_id: record.job_id.clone(),
        status: record.status.clone(),
        result: clone_opt(&record.result),
        error: clone_opt(&record.error),
        seed: seed_from_meta(meta),
        external_task_id: clone_opt(&record.external_task_id),
    }
}

/// The task metadata text stored with a seed: `{"seed":<n>}`.
pub open spec fn seed_meta_text(seed: i64) -> Seq<char> {
    "{\"seed\":"@ + i64_text(seed) + "}"@
}

/// The task metadata stored with a result seed, as compact JSON; none without a seed.
pub fn seed_meta_json(seed: Option<i64>) -> (r: Option<String>)
    ensures
        match seed {
            Some(s) => opt_view(r) == Some(seed_meta_text(s)),
            None => r is None,
        },
{
    match seed {
        Some(s) => {
            let mut text = owned("{\"seed\":");
            push_i64(&mut text, s);
            text.append("}");
            Some(text)
        },
        None => None,
    }
}

/// The answer for a job id that is not stored.
pub fn not_found_dto(job_id: String) -> (r: GenerationJobStatusDto)
    ensures
        r@ == (StatusView {
            job_id: job_id@,
            status: "not_found"@,
            result: None,
            error: Some("job not found"@),
            seed: None,
            external_task_id: None,
        }),
{
    GenerationJobStatusDto {
        job_id,
        status: owned("not_found"),
        result: None,
        error: Some(owned("job not found")),
        seed: None,
        external_task_id: None,
    }
}

/// The stored fields of a new job (besides its id, provider and timestamps).
pub struct NewJobRow {
    pub status: String,
    pub resumable: bool,
    pub external_task_id: Option<String>,
    pub external_task_meta_json: Option<String>,
    pub result: Option<String>,
    pub error: Option<String>,
}

/// The abstract form of a [`NewJobRow`].
pub struct NewJobRowView {
    pub status: Seq<char>,
    pub resumable: bool,
    pub external_task_id: Option<Seq<char>>,
    pub external_task_meta_json: Option<Seq<char>>,
    pub result: Option<Seq<char>>,
    pub error: Option<Seq<char>>,
}

impl View for NewJobRow {
    type V = NewJobRowView;

    open spec fn view(&self) -> NewJobRowView {
        NewJobRowView {
            status: self.status@,
            resumable: self.resumable,
            external_task_id: opt_view(self.external_task_id),
            external_task_meta_json: opt_view(self.external_task_meta_json),
            result: opt_view(self.result),
            error: opt_view(self.error),
        }
    }
}

/// The job stored for a resumable submission: done at once with its image, or
/// running with the provider's task id and metadata.
pub open spec fn submission_row(s: SubmissionView, meta_json: Option<Seq<char>>) -> NewJobRowView {
    match s {
        SubmissionView::Succeeded(src) => NewJobRowView {
            status: "succeeded"@,
            resumable: true,
            external_task_id: None,
            external_task_meta_json: None,
            result: Some(src),
            error: None,
        },
        SubmissionView::Queued(task_id, _) => NewJobRowView {
            status: "running"@,
            resumable: true,
            external_task_id: Some(task_id),
            external_task_meta_json: meta_json,
            result: None,
            error: None,
        },
    }
}

/// The job to store for a provider's submission; `meta_json` is the queued task's
/// metadata as JSON text.
pub fn row_for_submission(submission: ProviderTaskSubmission, meta_json: Option<String>) -> (r: NewJobRow)
    ensures
        r@ == submission_row(submission@, opt_view(meta_json)),
{
    match submission {
        ProviderTaskSubmission::Succeeded(src) => NewJobRow {
            status: owned("succeeded"),
            resumable: true,
            external_task_id: None,
            external_task_meta_json: None,
            result: Some(src),
            error: None,
        },
        ProviderTaskSubmission::Queued(handle) => NewJobRow {
            status: owned("running"),
            resumable: true,
            external_task_id: Some(handle.task_id),
            external_task_meta_json: meta_json,
            result: None,
            error: None,
        },
    }
}

/// The job stored before a provider that cannot resume tasks generates in the background.
pub fn row_for_background_generation() -> (r: NewJobRow)
    ensures
        r@ == (NewJobRowView {
            status: "running"@,
            resumable: false,
            external_task_id: None,
            external_task_meta_json: None,
            result: None,
            error: None,
        }),
{
    NewJobRow {
        status: owned("running"),
        resumable: false,
        external_task_id: None,
        external_task_meta_json: None,
        result: None,
        error: None,
    }
}

/// A change to a stored job's status, result and error.
pub struct JobUpdate {
    pub status: String,
    pub result: Option<String>,
    pub error: Option<String>,
}

/// The abstract form of a [`JobUpdate`].
pub struct JobUpdateView {
    pub status: Seq<char>,
    pub result: Option<Seq<char>>,
    pub error: Option<Seq<char>>,
}

impl View for JobUpdate {
    type V = JobUpdateView;

    open spec fn view(&self) -> JobUpdateView {
        JobUpdateView { status: self.status@, result: opt_view(self.result), error: opt_view(self.error) }
    }
}

/// The job after a background generation ended: succeeded with the image, or
/// failed with the error's message.
pub open spec fn generation_update(r: Result<Seq<char>, AIErrorView>) -> JobUpdateView {
    match r {
        Ok(src) => JobUpdateView { status: "succeeded"@, result: Some(src), error: None },
        Err(e) => JobUpdateView { status: "failed"@, result: None, error: Some(error_message(e)) },
    }
}

/// The update to store when a background generation ends.
pub fn update_for_generation_result(outcome: Result<String, AIError>) -> (r: JobUpdate)
    ensures
        r@ == generation_update(result_view(outcome)),
{
    match outcome {
        Ok(src) => JobUpdate { status: owned("succeeded"), result: Some(src), error: None },
        Err(e) => JobUpdate { status: owned("failed"), result: None, error: Some(e.message()) },
    }
}

/// A status from which a job can no longer be cancelled.
pub open spec fn is_cancel_terminal(status: Seq<char>) -> bool {
    status == "succeeded"@ || status == "failed"@ || status == "cancelled"@
}

/// What cancelling a job does: a missing job is "Job not found"; a finished,
/// failed or cancelled job is refused; any other job becomes cancelled.
pub open spec fn cancel_outcome(record: Option<GenerationJobRecord>) -> Result<JobUpdateView, Seq<char>> {
    match record {
        None => Err("Job not found"@),
        Some(r) => if is_cancel_terminal(r.status@) {
            Err("Job already in terminal state: "@ + r.status@)
        } else {
            Ok(JobUpdateView { status: "cancelled"@, result: None, error: Some("Cancelled by user"@) })
        },
    }
}

/// A borrowed optional record read as a record.
pub open spec fn record_opt(r: Option<&GenerationJobRecord>) -> Option<GenerationJobRecord> {
    match r {
        Some(x) => Some(*x),
        None => None,
    }
}

/// Decides a cancellation: the update to store, or the refusal.
pub fn cancel_job(record: Option<&GenerationJobRecord>) -> (r: Result<JobUpdate, String>)
    ensures
        match r {
            Ok(u) => cancel_outcome(record_opt(record)) == Ok::<JobUpdateView, Seq<char>>(u@),
            Err(m) => cancel_outcome(record_opt(record)) == Err::<JobUpdateView, Seq<char>>(m@),
        },
{
    match record {
        None => Err(owned("Job not found")),
        Some(rec) => {
            let s = rec.status.as_str();
            if str_eq(s, "succeeded") || str_eq(s, "failed") || str_eq(s, "cancelled") {
                Err(concat2("Job already in terminal state: ", s))
            } else {
                Ok(
                    JobUpdate {
                        status: owned("cancelled"),
                        result: None,
                        error: Some(owned("Cancelled by user")),
                    },
                )
            }
        },
    }
}

} // verus!

verus! {

/// A write to a stored job before a status query answers.
pub enum JobWrite {
    /// Only the update time changes (a failure to write it is ignored).
    Touch,
    /// Status, result and error change.
    Update(JobUpdate),
    /// Status and result change, and the seed is stored as task metadata.
    UpdateWithSeed { status: String, result: Option<String>, seed: Option<i64> },
}

/// The abstract form of a [`JobWrite`].
pub enum JobWriteView {
    Touch,
    Update(JobUpdateView),
    UpdateWithSeed(Seq<char>, Option<Seq<char>>, Option<i64>),
}

impl View for JobWrite {
    type V = JobWriteView;

    open spec fn view(&self) -> JobWriteView {
        match self {
            JobWrite::Touch => JobWriteView::Touch,
            JobWrite::Update(u) => JobWriteView::Update(u@),
            JobWrite::UpdateWithSeed { status, result, seed } => JobWriteView::UpdateWithSeed(
                status@,
                opt_view(*result),
                *seed,
            ),
        }
    }
}

/// The next step of answering a status query.
pub enum StatusQueryStep {
    /// Answer at once, writing nothing.
    Respond(GenerationJobStatusDto),
    /// The job runs in the background here: ask whether it is still active.
    CheckActive,
    /// Store the write, then answer.
    Finish(JobWrite, GenerationJobStatusDto),
    /// Poll a task: the provider's place among the registered ones, and the task id.
    Poll(usize, String),
}

/// The abstract form of a [`StatusQueryStep`].
pub enum StatusStepView {
    Respond(StatusView),
    CheckActive,
    Finish(JobWriteView, StatusView),
    Poll(usize, Seq<char>),
}

impl View for StatusQueryStep {
    type V = StatusStepView;

    open spec fn view(&self) -> StatusStepView {
        match self {
            StatusQueryStep::Respond(d) => StatusStepView::Respond(d@),
            StatusQueryStep::CheckActive => StatusStepView::CheckActive,
            StatusQueryStep::Finish(w, d) => StatusStepView::Finish(w@, d@),
            StatusQueryStep::Poll(i, t) => StatusStepView::Poll(*i, t@),
        }
    }
}

/// The answer for a stored job once it is marked failed with `message`.
pub open spec fn failed_record_status(
    record: GenerationJobRecord,
    meta: Option<JsonValue>,
    message: Seq<char>,
) -> StatusView {
    StatusView {
        job_id: record.job_id@,
        status: "failed"@,
        result: opt_view(record.result),
        error: Some(message),
        seed: meta_seed(meta),
        external_task_id: opt_view(record.external_task_id),
    }
}

/// The write that marks a job failed with `message`.
pub open spec fn fail_write(message: Seq<char>) -> JobWriteView {
    JobWriteView::Update(JobUpdateView { status: "failed"@, result: None, error: Some(message) })
}

/// How a status query begins: an unknown id is answered "not_found"; a succeeded
/// or failed job is answered as stored; a background job must be checked for
/// activity; a resumable job needs its provider (else the query fails) and its
/// task id (else it is marked failed), and is then polled.
pub open spec fn status_step(
    provider_count: nat,
    job_id: Seq<char>,
    record: Option<GenerationJobRecord>,
    meta: Option<JsonValue>,
) -> Result<StatusStepView, Seq<char>> {
    match record {
        None => Ok(
            StatusStepView::Respond(
                StatusView {
                    job_id,
                    status: "not_found"@,
                    result: None,
                    error: Some("job not found"@),
                    seed: None,
                    external_task_id: None,
                },
            ),
        ),
        Some(r) => if r.status@ == "succeeded"@ || r.status@ == "failed"@ {
            Ok(StatusStepView::Respond(record_status(r, meta)))
        } else if !r.resumable {
            Ok(StatusStepView::CheckActive)
        } else if !(r.provider_id@ == "grsai"@ && provider_count > 0) {
            Err("Provider not found for job: "@ + r.provider_id@)
        } else {
            match r.external_task_id {
                None => Ok(
                    StatusStepView::Finish(
                        fail_write("missing external task id"@),
                        failed_record_status(r, meta, "missing external task id"@),
                    ),
                ),
                Some(t) => Ok(StatusStepView::Poll(0, t@)),
            }
        },
    }
}

/// Begins a status query for `job_id`; `record` is what is stored under it and
/// `meta` its parsed task metadata.
pub fn status_query_step(
    registry: &ProviderRegistry,
    job_id: String,
    record: Option<&GenerationJobRecord>,
    meta: Option<&JsonValue>,
) -> (r: Result<StatusQueryStep, String>)
    ensures
        match r {
            Ok(s) => status_step(registry.providers@.len(), job_id@, record_opt(record), deref_opt(meta))
                == Ok::<StatusStepView, Seq<char>>(s@),
            Err(m) => status_step(registry.providers@.len(), job_id@, record_opt(record), deref_opt(meta))
                == Err::<StatusStepView, Seq<char>>(m@),
        },
{
    let rec = match record {
        None => return Ok(StatusQueryStep::Respond(not_found_dto(job_id))),
        Some(rec) => rec,
    };
    let status = rec.status.as_str();
    if str_eq(status, "succeeded") || str_eq(status, "failed") {
        return Ok(StatusQueryStep::Respond(dto_from_record(rec, meta)));
    }
    if !rec.resumable {
        return Ok(StatusQueryStep::CheckActive);
    }
    let index = match registry.get_provider(rec.provider_id.as_str()) {
        Some(i) => i,
        None => return Err(concat2("Provider not found for job: ", rec.provider_id.as_str())),
    };
    match &rec.external_task_id {
        None => {
            let message = "missing external task id";
            Ok(StatusQueryStep::Finish(fail_job(message), failed_dto(rec, meta, message)))
        },
        Some(task_id) => Ok(StatusQueryStep::Poll(index, task_id.clone())),
    }
}

/// The write that marks a job failed with `message`.
pub fn fail_job(message: &str) -> (r: JobWrite)
    ensures
        r@ == fail_write(message@),
{
    JobWrite::Update(JobUpdate { status: owned("failed"), result: None, error: Some(owned(message)) })
}

/// The answer for a stored job once it is marked failed with `message`.
pub fn failed_dto(record: &GenerationJobRecord, meta: Option<&JsonValue>, message: &str) -> (r: GenerationJobStatusDto)
    ensures
        r@ == failed_record_status(*record, deref_opt(meta), message@),
{
    GenerationJobStatusDto {
        job_id: record.job_id.clone(),
        status: owned("failed"),
        result: clone_opt(&record.result),
        error: Some(owned(message)),
        seed: seed_from_meta(meta),
        external_task_id: clone_opt(&record.external_task_id),
    }
}

/// What a background job's status query does once its activity is known: an
/// active job is touched and answered as stored; an inactive one was cut off by a
/// restart and is marked failed.
pub open spec fn activity_outcome(record: GenerationJobRecord, meta: Option<JsonValue>, active: bool) -> (
    JobWriteView,
    StatusView,
) {
    if active {
        (JobWriteView::Touch, record_status(record, meta))
    } else {
        (
            fail_write("job interrupted by app restart"@),
            failed_record_status(record, meta, "job interrupted by app restart"@),
        )
    }
}

/// Finishes a background job's status query once its activity is known.
pub fn after_activity_check(record: &GenerationJobRecord, meta: Option<&JsonValue>, active: bool) -> (r: (
    JobWrite,
    GenerationJobStatusDto,
))
    ensures
        (r.0@, r.1@) == activity_outcome(*record, deref_opt(meta), active),
{
    if active {
        (JobWrite::Touch, dto_from_record(record, meta))
    } else {
        let message = "job interrupted by app restart";
        (fail_job(message), failed_dto(record, meta, message))
    }
}

/// The answer for a job that the provider finished or failed.
pub open spec fn settled_status(
    record: GenerationJobRecord,
    status: Seq<char>,
    result: Option<Seq<char>>,
    error: Option<Seq<char>>,
    seed: Option<i64>,
) -> StatusView {
    StatusView {
        job_id: record.job_id@,
        status,
        result,
        error,
        seed,
        external_task_id: opt_view(record.external_task_id),
    }
}

/// What a poll outcome does to a resumable job: still running, the job is
/// touched and answered as stored; a result is stored (with its seed where it has
/// one) and answered; a failure, or a poll error, marks the job failed with the
/// task's message or the error's message.
pub open spec fn poll_job_outcome(
    record: GenerationJobRecord,
    meta: Option<JsonValue>,
    outcome: Result<PollView, AIErrorView>,
) -> (JobWriteView, StatusView) {
    match outcome {
        Ok(PollView::Running) => (JobWriteView::Touch, record_status(record, meta)),
        Ok(PollView::Succeeded(src)) => (
            JobWriteView::Update(JobUpdateView { status: "succeeded"@, result: Some(src), error: None }),
            settled_status(record, "succeeded"@, Some(src), None, None),
        ),
        Ok(PollView::SucceededWithMeta(url, seed)) => (
            JobWriteView::UpdateWithSeed("succeeded"@, Some(url), seed),
            settled_status(record, "succeeded"@, Some(url), None, seed),
        ),
        Ok(PollView::Failed(m)) => (
            fail_write(m),
            settled_status(record, "failed"@, None, Some(m), None),
        ),
        Err(AIErrorView::TaskFailed(m)) => (
            fail_write(m),
            settled_status(record, "failed"@, None, Some(m), None),
        ),
        Err(e) => (
            fail_write(error_message(e)),
            settled_status(record, "failed"@, None, Some(error_message(e)), None),
        ),
    }
}

fn settled_dto(
    record: &GenerationJobRecord,
    status: &str,
    result: Option<String>,
    error: Option<String>,
    seed: Option<i64>,
) -> (r: GenerationJobStatusDto)
    ensures
        r@ == settled_status(*record, status@, opt_view(result), opt_view(error), seed),
{
    GenerationJobStatusDto {
        job_id: record.job_id.clone(),
        status: owned(status),
        result,
        error,
        seed,
        external_task_id: clone_opt(&record.external_task_id),
    }
}

/// Finishes a resumable job's status query with the provider's poll outcome.
pub fn after_poll(
    record: &GenerationJobRecord,
    meta: Option<&JsonValue>,
    outcome: Result<ProviderTaskPollResult, AIError>,
) -> (r: (JobWrite, GenerationJobStatusDto))
    ensures
        (r.0@, r.1@) == poll_job_outcome(*record, deref_opt(meta), result_view(outcome)),
{
    match outcome {
        Ok(ProviderTaskPollResult::Running) => (JobWrite::Touch, dto_from_record(record, meta)),
        Ok(ProviderTaskPollResult::Succeeded(src)) => {
            let update = JobUpdate { status: owned("succeeded"), result: Some(src.clone()), error: None };
            (JobWrite::Update(update), settled_dto(record, "succeeded", Some(src), None, None))
        },
        Ok(ProviderTaskPollResult::SucceededWithMeta { url, seed }) => {
            let write = JobWrite::UpdateWithSeed {
                status: owned("succeeded"),
                result: Some(url.clone()),
                seed,
            };
            (write, settled_dto(record, "succeeded", Some(url), None, seed))
        },
        Ok(ProviderTaskPollResult::Failed(m)) => {
            (fail_job(m.as_str()), settled_dto(record, "failed", None, Some(m), None))
        },
        Err(AIError::TaskFailed(m)) => {
            (fail_job(m.as_str()), settled_dto(record, "failed", None, Some(m), None))
        },
        Err(e) => {
            let m = e.message();
            (fail_job(m.as_str()), settled_dto(record, "failed", None, Some(m), None))
        },
    }
}

} // verus!

verus! {

/// A stored job read by its views.
pub struct RecordView {
    pub job_id: Seq<char>,
    pub provider_id: Seq<char>,
    pub status: Seq<char>,
    pub resumable: bool,
    pub external_task_id: Option<Seq<char>>,
    pub external_task_meta_json: Option<Seq<char>>,
    pub result: Option<Seq<char>>,
    pub error: Option<Seq<char>>,
}

impl View for GenerationJobRecord {
    type V = RecordView;

    open spec fn view(&self) -> RecordView {
        RecordView {
            job_id: self.job_id@,
            provider_id: self.provider_id@,
            status: self.status@,
            resumable: self.resumable,
            external_task_id: opt_view(self.external_task_id),
            external_task_meta_json: opt_view(self.external_task_meta_json),
            result: opt_view(self.result),
            error: opt_view(self.error),
        }
    }
}

/// A stored job after a write: an update replaces status, result and error; a
/// seeded update replaces status and result and stores the seed as task metadata;
/// a touch leaves the stored fields as they are.
pub open spec fn apply_write(r: RecordView, w: JobWriteView) -> RecordView {
    match w {
        JobWriteView::Touch => r,
        JobWriteView::Update(u) => RecordView { status: u.status, result: u.result, error: u.error, ..r },
        JobWriteView::UpdateWithSeed(status, result, seed) => RecordView {
            status,
            result,
            external_task_meta_json: match seed {
                Some(s) => Some(seed_meta_text(s)),
                None => None,
            },
            ..r
        },
    }
}

/// A stored job after a cancellation or background-generation update.
pub open spec fn apply_update(r: RecordView, u: JobUpdateView) -> RecordView {
    apply_write(r, JobWriteView::Update(u))
}

} // verus!
