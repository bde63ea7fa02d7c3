//! The provider-facing data: requests, task handles, poll results and errors.

use vstd::prelude::*;
use crate::json::JsonValue;
use crate::text::concat2;

verus! {

/// Errors of the AI provider layer.
pub enum AIError {
    /// The request cannot be sent as it stands.
    InvalidRequest(String),
    /// The provider answered with something the library cannot use.
    Provider(String),
    /// The provider reports that the task failed.
    TaskFailed(String),
    /// The HTTP exchange itself failed (transport or body decoding).
    Http(String),
}

/// The abstract form of an [`AIError`]: its kind and its text.
pub enum AIErrorView {
    InvalidRequest(Seq<char>),
    Provider(Seq<char>),
    TaskFailed(Seq<char>),
    Http(Seq<char>),
}

impl View for AIError {
    type V = AIErrorView;

    open spec fn view(&self) -> AIErrorView {
        match self {
            AIError::InvalidRequest(m) => AIErrorView::InvalidRequest(m@),
            AIError::Provider(m) => AIErrorView::Provider(m@),
            AIError::TaskFailed(m) => AIErrorView::TaskFailed(m@),
            AIError::Http(m) => AIErrorView::Http(m@),
        }
    }
}

/// The text that [`AIError::message`] gives for an error.
pub open spec fn error_message(e: AIErrorView) -> Seq<char> {
    match e {
        AIErrorView::InvalidRequest(m) => "Invalid request: "@ + m,
        AIErrorView::Provider(m) => "Provider error: "@ + m,
        AIErrorView::TaskFailed(m) => "Task failed: "@ + m,
        AIErrorView::Http(m) => "HTTP error: "@ + m,
    }
}

impl AIError {
    /// The error's text, as it is shown to the user.
    pub fn message(&self) -> (r: String)
        ensures
            r@ == error_message(self@),
    {
        match self {
            AIError::InvalidRequest(m) => concat2("Invalid request: ", m.as_str()),
            AIError::Provider(m) => concat2("Provider error: ", m.as_str()),
            AIError::TaskFailed(m) => concat2("Task failed: ", m.as_str()),
            AIError::Http(m) => concat2("HTTP error: ", m.as_str()),
        }
    }
}

/// A request for one image generation.
pub struct GenerateRequest {
    pub prompt: String,
    pub model: String,
    pub size: String,
    pub aspect_ratio: String,
    pub reference_images: Option<Vec<String>>,
    pub extra_params: Option<Vec<(String, JsonValue)>>,
    pub draft_task_id: Option<String>,
}

/// A queued task at the provider.
pub struct ProviderTaskHandle {
    pub task_id: String,
    pub metadata: Option<JsonValue>,
}

/// What submitting a task gave: a finished image or a queued task.
pub enum ProviderTaskSubmission {
    Succeeded(String),
    Queued(ProviderTaskHandle),
}

/// The abstract form of a [`ProviderTaskSubmission`].
pub enum SubmissionView {
    Succeeded(Seq<char>),
    Queued(Seq<char>, Option<JsonValue>),
}

impl View for ProviderTaskSubmission {
    type V = SubmissionView;

    open spec fn view(&self) -> SubmissionView {
        match self {
            ProviderTaskSubmission::Succeeded(u) => SubmissionView::Succeeded(u@),
            ProviderTaskSubmission::Queued(h) => SubmissionView::Queued(h.task_id@, h.metadata),
        }
    }
}

/// What one poll of a queued task gave.
pub enum ProviderTaskPollResult {
    Running,
    Succeeded(String),
    SucceededWithMeta { url: String, seed: Option<i64> },
    Failed(String),
}

/// The abstract form of a [`ProviderTaskPollResult`].
pub enum PollView {
    Running,
    Succeeded(Seq<char>),
    SucceededWithMeta(Seq<char>, Option<i64>),
    Failed(Seq<char>),
}

impl View for ProviderTaskPollResult {
    type V = PollView;

    open spec fn view(&self) -> PollView {
        match self {
            ProviderTaskPollResult::Running => PollView::Running,
            ProviderTaskPollResult::Succeeded(u) => PollView::Succeeded(u@),
            ProviderTaskPollResult::SucceededWithMeta { url, seed } => PollView::SucceededWithMeta(
                url@,
                *seed,
            ),
            ProviderTaskPollResult::Failed(m) => PollView::Failed(m@),
        }
    }
}

/// A result whose value and error are both read by their views.
pub open spec fn result_view<T: View>(r: Result<T, AIError>) -> Result<T::V, AIErrorView> {
    match r {
        Ok(v) => Ok(v@),
        Err(e) => Err(e@),
    }
}

/// An optional string read by its view.
pub open spec fn opt_view(o: Option<String>) -> Option<Seq<char>> {
    match o {
        Some(s) => Some(s@),
        None => None,
    }
}

} // verus!
