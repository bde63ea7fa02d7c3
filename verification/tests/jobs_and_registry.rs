use canvas_ai::jobs::{
    after_activity_check, after_poll, cancel_job, dto_from_record, not_found_dto, row_for_background_generation,
    row_for_submission, seed_from_meta, seed_meta_json, status_query_step, update_for_generation_result,
    GenerationJobRecord, JobWrite, StatusQueryStep,
};
use canvas_ai::json::JsonValue;
use canvas_ai::provider::{AIError, ProviderTaskHandle, ProviderTaskPollResult, ProviderTaskSubmission};
use canvas_ai::registry::{build_default_providers, get_registry, ProviderRegistry};
use canvas_ai::clock::{millis_or_zero, millis_to_i64, now_ms};

fn s(x: &str) -> String {
    x.to_string()
}

fn record(status: &str, resumable: bool, task: Option<&str>) -> GenerationJobRecord {
    GenerationJobRecord {
        job_id: s("job-1"),
        provider_id: s("grsai"),
        status: s(status),
        resumable,
        external_task_id: task.map(s),
        external_task_meta_json: None,
        result: None,
        error: None,
    }
}

fn seed_meta(v: JsonValue) -> JsonValue {
    JsonValue::Object(vec![(s("seed"), v)])
}

#[test]
fn seed_metadata_round_trips() {
    assert_eq!(seed_meta_json(Some(42)), Some(s("{\"seed\":42}")));
    assert_eq!(seed_meta_json(Some(-7)), Some(s("{\"seed\":-7}")));
    assert_eq!(seed_meta_json(None), None);
    let text = seed_meta_json(Some(123456789012)).unwrap();
    let parsed: serde_json::Value = serde_json::from_str(&text).unwrap();
    assert_eq!(parsed["seed"].as_i64(), Some(123456789012));
    assert_eq!(seed_from_meta(Some(&seed_meta(JsonValue::Int(123456789012)))), Some(123456789012));
    assert_eq!(seed_from_meta(Some(&seed_meta(JsonValue::UInt(u64::MAX)))), None);
    assert_eq!(seed_from_meta(Some(&seed_meta(JsonValue::Str(s("1"))))), None);
    assert_eq!(seed_from_meta(None), None);
}

#[test]
fn dto_copies_the_record_and_its_seed() {
    let mut r = record("running", true, Some("t-1"));
    r.result = Some(s("img"));
    let meta = seed_meta(JsonValue::Int(9));
    let dto = dto_from_record(&r, Some(&meta));
    assert_eq!(dto.job_id, "job-1");
    assert_eq!(dto.status, "running");
    assert_eq!(dto.result, Some(s("img")));
    assert_eq!(dto.error, None);
    assert_eq!(dto.seed, Some(9));
    assert_eq!(dto.external_task_id, Some(s("t-1")));
}

#[test]
fn unknown_job_is_not_found() {
    let dto = not_found_dto(s("zzz"));
    assert_eq!(dto.status, "not_found");
    assert_eq!(dto.error, Some(s("job not found")));
    assert_eq!(dto.job_id, "zzz");
}

#[test]
fn submissions_become_rows() {
    let row = row_for_submission(ProviderTaskSubmission::Succeeded(s("img")), Some(s("{}")));
    assert_eq!(row.status, "succeeded");
    assert!(row.resumable);
    assert_eq!(row.result, Some(s("img")));
    assert_eq!(row.external_task_meta_json, None);
    let handle = ProviderTaskHandle { task_id: s("t-9"), metadata: None };
    let row = row_for_submission(ProviderTaskSubmission::Queued(handle), Some(s("{\"a\":1}")));
    assert_eq!(row.status, "running");
    assert_eq!(row.external_task_id, Some(s("t-9")));
    assert_eq!(row.external_task_meta_json, Some(s("{\"a\":1}")));
    let row = row_for_background_generation();
    assert_eq!(row.status, "running");
    assert!(!row.resumable);
}

#[test]
fn background_results_update_the_job() {
    let u = update_for_generation_result(Ok(s("img")));
    assert_eq!((u.status.as_str(), u.result, u.error), ("succeeded", Some(s("img")), None));
    let u = update_for_generation_result(Err(AIError::TaskFailed(s("no"))));
    assert_eq!((u.status.as_str(), u.result, u.error), ("failed", None, Some(s("Task failed: no"))));
}

#[test]
fn cancellation_rules() {
    assert_eq!(cancel_job(None).err(), Some(s("Job not found")));
    for terminal in ["succeeded", "failed", "cancelled"] {
        assert_eq!(
            cancel_job(Some(&record(terminal, true, None))).err(),
            Some(format!("Job already in terminal state: {}", terminal))
        );
    }
    let u = cancel_job(Some(&record("running", true, None))).ok().unwrap();
    assert_eq!(u.status, "cancelled");
    assert_eq!(u.error, Some(s("Cancelled by user")));
    let mut after = record("running", true, None);
    after.status = u.status;
    after.error = u.error;
    assert_eq!(cancel_job(Some(&after)).err(), Some(s("Job already in terminal state: cancelled")));
}

#[test]
fn status_query_begins_by_the_stored_state() {
    let reg = get_registry();
    assert!(matches!(status_query_step(&reg, s("x"), None, None), Ok(StatusQueryStep::Respond(d)) if d.status == "not_found"));
    assert!(matches!(
        status_query_step(&reg, s("job-1"), Some(&record("succeeded", true, None)), None),
        Ok(StatusQueryStep::Respond(d)) if d.status == "succeeded"
    ));
    assert!(matches!(
        status_query_step(&reg, s("job-1"), Some(&record("running", false, None)), None),
        Ok(StatusQueryStep::CheckActive)
    ));
    assert!(matches!(
        status_query_step(&reg, s("job-1"), Some(&record("running", true, Some("t-1"))), None),
        Ok(StatusQueryStep::Poll(0, t)) if t == "t-1"
    ));
    match status_query_step(&reg, s("job-1"), Some(&record("running", true, None)), None) {
        Ok(StatusQueryStep::Finish(JobWrite::Update(u), d)) => {
            assert_eq!(u.status, "failed");
            assert_eq!(u.error, Some(s("missing external task id")));
            assert_eq!(d.status, "failed");
            assert_eq!(d.error, Some(s("missing external task id")));
        }
        _ => panic!("expected failure"),
    }
    let mut other = record("running", true, Some("t"));
    other.provider_id = s("volcvideo");
    assert_eq!(
        status_query_step(&reg, s("job-1"), Some(&other), None).err(),
        Some(s("Provider not found for job: volcvideo"))
    );
    let empty = ProviderRegistry::new();
    assert!(status_query_step(&empty, s("job-1"), Some(&record("running", true, Some("t"))), None).is_err());
}

#[test]
fn interrupted_background_jobs_fail() {
    let r = record("running", false, None);
    let (w, d) = after_activity_check(&r, None, true);
    assert!(matches!(w, JobWrite::Touch));
    assert_eq!(d.status, "running");
    let (w, d) = after_activity_check(&r, None, false);
    assert!(matches!(w, JobWrite::Update(u) if u.error == Some(s("job interrupted by app restart"))));
    assert_eq!(d.status, "failed");
    assert_eq!(d.error, Some(s("job interrupted by app restart")));
}

#[test]
fn poll_outcomes_settle_jobs() {
    let r = record("running", true, Some("t-1"));
    let (w, d) = after_poll(&r, None, Ok(ProviderTaskPollResult::Running));
    assert!(matches!(w, JobWrite::Touch));
    assert_eq!(d.status, "running");
    let (w, d) = after_poll(&r, None, Ok(ProviderTaskPollResult::Succeeded(s("img"))));
    assert!(matches!(w, JobWrite::Update(u) if u.status == "succeeded" && u.result == Some(s("img"))));
    assert_eq!((d.status.as_str(), d.result, d.seed), ("succeeded", Some(s("img")), None));
    let (w, d) = after_poll(&r, None, Ok(ProviderTaskPollResult::SucceededWithMeta { url: s("u"), seed: Some(5) }));
    assert!(matches!(w, JobWrite::UpdateWithSeed { seed: Some(5), .. }));
    assert_eq!(d.seed, Some(5));
    assert_eq!(d.external_task_id, Some(s("t-1")));
    let (_, d) = after_poll(&r, None, Ok(ProviderTaskPollResult::Failed(s("bad"))));
    assert_eq!((d.status.as_str(), d.error), ("failed", Some(s("bad"))));
    let (_, d) = after_poll(&r, None, Err(AIError::TaskFailed(s("tf"))));
    assert_eq!(d.error, Some(s("tf")));
    let (_, d) = after_poll(&r, None, Err(AIError::Http(s("down"))));
    assert_eq!(d.error, Some(s("HTTP error: down")));
}

#[test]
fn settled_job_is_answered_from_store() {
    let reg = get_registry();
    let before = record("running", true, Some("t-1"));
    let (w, _) = after_poll(&before, None, Ok(ProviderTaskPollResult::Succeeded(s("img"))));
    let mut after = record("running", true, Some("t-1"));
    if let JobWrite::Update(u) = w {
        after.status = u.status;
        after.result = u.result;
        after.error = u.error;
    }
    assert!(matches!(
        status_query_step(&reg, s("job-1"), Some(&after), None),
        Ok(StatusQueryStep::Respond(d)) if d.status == "succeeded" && d.result == Some(s("img"))
    ));
}

#[test]
fn registry_dispatch() {
    let reg = get_registry();
    assert_eq!(build_default_providers().len(), 1);
    assert_eq!(reg.get_provider("grsai"), Some(0));
    assert_eq!(reg.get_provider("openai"), None);
    assert_eq!(reg.resolve_provider_for_model("grsai/gpt-image-2"), Some(0));
    assert_eq!(reg.resolve_provider_for_model("dall-e"), None);
    assert_eq!(reg.provider_for_model("dall-e"), Ok(0));
    assert_eq!(reg.named_provider("openai").err(), Some(s("Unknown provider: openai")));
    assert_eq!(reg.list_models().len(), 4);
    let empty = ProviderRegistry::new();
    assert_eq!(empty.provider_for_model("x").err(), Some(s("Provider not found")));
    assert!(empty.list_models().is_empty());
    let mut two = ProviderRegistry::new();
    two.register_provider(canvas_ai::grsai::GrsaiProvider::new());
    two.register_provider(canvas_ai::grsai::GrsaiProvider::new());
    assert_eq!(two.list_models().len(), 8);
}

#[test]
fn clock_reads_milliseconds() {
    assert!(now_ms() > 1_600_000_000_000);
    assert_eq!(millis_to_i64(5), 5);
    assert_eq!(millis_to_i64(1u128 << 64), 0);
    assert_eq!(millis_to_i64(u64::MAX as u128), -1);
}

#[test]
fn interrupted_job_is_then_answered_from_store() {
    let reg = get_registry();
    let before = record("running", false, None);
    let (w, _) = after_activity_check(&before, None, false);
    let mut after = record("running", false, None);
    if let JobWrite::Update(u) = w {
        after.status = u.status;
        after.result = u.result;
        after.error = u.error;
    }
    assert!(matches!(
        status_query_step(&reg, s("job-1"), Some(&after), None),
        Ok(StatusQueryStep::Respond(d)) if d.status == "failed" && d.error == Some(s("job interrupted by app restart"))
    ));
}

#[test]
fn every_registry_model_has_a_provider() {
    let reg = get_registry();
    for model in reg.list_models() {
        assert_eq!(reg.resolve_provider_for_model(&model), Some(0));
    }
}

#[test]
fn cancelled_jobs_are_still_polled_or_checked() {
    let reg = get_registry();
    let mut resumable = record("cancelled", true, Some("t-1"));
    resumable.error = Some(s("Cancelled by user"));
    assert!(matches!(
        status_query_step(&reg, s("job-1"), Some(&resumable), None),
        Ok(StatusQueryStep::Poll(0, t)) if t == "t-1"
    ));
    let background = record("cancelled", false, None);
    assert!(matches!(
        status_query_step(&reg, s("job-1"), Some(&background), None),
        Ok(StatusQueryStep::CheckActive)
    ));
    let (w, d) = after_activity_check(&background, None, false);
    assert!(matches!(w, JobWrite::Update(u) if u.status == "failed"));
    assert_eq!(d.error, Some(s("job interrupted by app restart")));
    let empty = ProviderRegistry::new();
    assert_eq!(
        status_query_step(&empty, s("job-1"), Some(&resumable), None).err(),
        Some(s("Provider not found for job: grsai"))
    );
}

#[test]
fn clock_readings_before_the_epoch_are_zero() {
    assert_eq!(millis_or_zero(None), 0);
    assert_eq!(millis_or_zero(Some(1_700_000_000_123)), 1_700_000_000_123);
    assert_eq!(millis_or_zero(Some(u128::from(u64::MAX))), -1);
}
