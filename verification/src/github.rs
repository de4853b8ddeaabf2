//! What the platform's REST API answers, and how the answers become the
//! repositories and runs that the engine works on.

use crate::repository::{Repository, RepositoryView};
use crate::run::{WorkflowRun, WorkflowRunView};
use crate::text::{decimal, to_decimal};
use crate::timestamp::{parse_rfc3339, rfc3339_instant, Timestamp};
use vstd::prelude::*;
use vstd::string::*;

verus! {

/// The owner of a repository, as the API names them.
#[derive(Debug)]
pub struct GitHubOwnerResponse {
    pub login: String,
}

/// One repository in the answer to "list repositories".
#[derive(Debug)]
pub struct GitHubRepositoryResponse {
    pub name: String,
    pub owner: GitHubOwnerResponse,
}

/// The repository that a run belongs to, as `owner/name`.
#[derive(Debug)]
pub struct GitHubRepositoryMinimalResponse {
    pub full_name: String,
}

/// One run in the answer to "list workflow runs".
#[derive(Debug)]
pub struct GitHubWorkflowRunResponse {
    pub id: u64,
    /// The name of the workflow.
    pub name: String,
    pub display_title: String,
    pub event: String,
    /// The state of the run; `completed` once it has ended.
    pub status: String,
    /// The outcome of a run that has ended.
    pub conclusion: Option<String>,
    /// When the run was created, as an RFC 3339 date and time.
    pub created_at: String,
    /// When the run last changed, as an RFC 3339 date and time.
    pub updated_at: String,
    pub html_url: String,
    pub repository: GitHubRepositoryMinimalResponse,
}

/// The answer to "list workflow runs".
#[derive(Debug)]
pub struct GitHubWorkflowRunsApiResponse {
    pub workflow_runs: Vec<GitHubWorkflowRunResponse>,
}

/// The two timestamps of a run.
#[derive(Clone, Copy, Debug, PartialEq, Eq, Structural)]
pub enum TimeField {
    CreatedAt,
    UpdatedAt,
}

/// A timestamp of a run could not be read. The whole answer that holds the
/// run is then of no use, and asking again would not change it.
#[derive(Clone, Copy, Debug, PartialEq, Eq)]
pub struct TimeParseError {
    /// The run whose timestamp could not be read.
    pub run_id: u64,
    /// Which of its timestamps it was.
    pub field: TimeField,
    /// What the parser objected to.
    pub cause: chrono::format::ParseError,
}

/// How the error reads for a timestamp of a run that could not be read.
pub open spec fn time_parse_text(run_id: u64, field: TimeField) -> Seq<char> {
    (match field {
        TimeField::CreatedAt => "Failed to parse created_at for run "@,
        TimeField::UpdatedAt => "Failed to parse updated_at for run "@,
    }) + decimal(run_id as nat)
}

impl TimeParseError {
    /// Writes the error out: which timestamp of which run it was.
    pub fn message(&self) -> (message: String)
        ensures
            message@ == time_parse_text(self.run_id, self.field),
    {
        let mut message: String = match self.field {
            TimeField::CreatedAt => "Failed to parse created_at for run ".to_owned(),
            TimeField::UpdatedAt => "Failed to parse updated_at for run ".to_owned(),
        };
        message.append(to_decimal(self.run_id).as_str());
        message
    }
}

/// The repository that an item of the API's answer stands for.
pub open spec fn converted_repository(item: GitHubRepositoryResponse) -> RepositoryView {
    RepositoryView { name: item.name@, owner: item.owner.login@ }
}

/// Turns the answer to "list repositories" into repositories, one for one
/// and in the same order.
pub fn convert_repositories(items: Vec<GitHubRepositoryResponse>) -> (repositories: Vec<
    Repository,
>)
    ensures
        repositories.len() == items.len(),
        forall|i: int|
            0 <= i < items.len() ==> (#[trigger] repositories[i])@ == converted_repository(
                items[i],
            ),
{
    let mut repositories: Vec<Repository> = Vec::new();
    for item in it: items
        invariant
            it.seq() == items@,
            repositories.len() == it.index(),
            forall|i: int|
                0 <= i < it.index() ==> (#[trigger] repositories[i])@ == converted_repository(
                    items[i],
                ),
    {
        repositories.push(Repository { name: item.name, owner: item.owner.login });
    }
    repositories
}

/// The status of a run: the outcome of a completed run where one was
/// reported, else the state as it was reported.
pub open spec fn derived_status(state: Seq<char>, outcome: Option<Seq<char>>) -> Seq<char> {
    match outcome {
        Some(outcome) => if state == "completed"@ {
            outcome
        } else {
            state
        },
        None => state,
    }
}

/// Derives the status of a run from its reported state and outcome.
pub fn derive_status(state: String, outcome: Option<String>) -> (status: String)
    ensures
        status@ == derived_status(state@, outcome.deep_view()),
{
    let completed: String = "completed".to_owned();
    if state == completed {
        match outcome {
            Some(outcome) => outcome,
            None => state,
        }
    } else {
        state
    }
}

/// The run that a record of the API's answer stands for, once its two
/// timestamps are read.
pub open spec fn assembled_run(
    raw: GitHubWorkflowRunResponse,
    created_at: Timestamp,
    updated_at: Timestamp,
) -> WorkflowRunView {
    WorkflowRunView {
        repository_name: raw.repository.full_name@,
        id: raw.id,
        workflow_name: raw.name@,
        display_title: raw.display_title@,
        event: raw.event@,
        status: derived_status(raw.status@, raw.conclusion.deep_view()),
        created_at,
        updated_at,
        html_url: raw.html_url@,
    }
}

/// Makes the run of a record whose two timestamps have been read.
pub fn assemble_run(raw: GitHubWorkflowRunResponse, created_at: Timestamp, updated_at: Timestamp) -> (run:
    WorkflowRun)
    ensures
        run@ == assembled_run(raw, created_at, updated_at),
{
    WorkflowRun {
        repository_name: raw.repository.full_name,
        id: raw.id,
        workflow_name: raw.name,
        display_title: raw.display_title,
        event: raw.event,
        status: derive_status(raw.status, raw.conclusion),
        created_at,
        updated_at,
        html_url: raw.html_url,
    }
}

/// The instant that a text denotes, if it is an RFC 3339 date and time.
pub open spec fn instant_of(text: Seq<char>) -> Option<Timestamp> {
    match rfc3339_instant(text) {
        Some((secs, nanos)) => Some(Timestamp { secs: secs as i64, nanos: nanos as u32 }),
        None => None,
    }
}

/// What a record of the API's answer converts to: its run, or the run's
/// number and the first of its timestamps that cannot be read.
pub open spec fn converted_run(raw: GitHubWorkflowRunResponse) -> Result<
    WorkflowRunView,
    (u64, TimeField),
> {
    match instant_of(raw.created_at@) {
        None => Err((raw.id, TimeField::CreatedAt)),
        Some(created_at) => match instant_of(raw.updated_at@) {
            None => Err((raw.id, TimeField::UpdatedAt)),
            Some(updated_at) => Ok(assembled_run(raw, created_at, updated_at)),
        },
    }
}

/// Converts one record of the API's answer.
pub fn convert_run(raw: GitHubWorkflowRunResponse) -> (result: Result<WorkflowRun, TimeParseError>)
    ensures
        match result {
            Ok(run) => converted_run(raw) == Ok::<WorkflowRunView, (u64, TimeField)>(run@),
            Err(e) => converted_run(raw) == Err::<WorkflowRunView, (u64, TimeField)>(
                (e.run_id, e.field),
            ),
        },
{
    let created_at = match parse_rfc3339(raw.created_at.as_str()) {
        Ok(instant) => instant,
        Err(cause) => {
            return Err(TimeParseError { run_id: raw.id, field: TimeField::CreatedAt, cause });
        },
    };
    let updated_at = match parse_rfc3339(raw.updated_at.as_str()) {
        Ok(instant) => instant,
        Err(cause) => {
            return Err(TimeParseError { run_id: raw.id, field: TimeField::UpdatedAt, cause });
        },
    };
    Ok(assemble_run(raw, created_at, updated_at))
}

/// Converts the answer to "list workflow runs", record by record and in the
/// same order. The first record that does not convert fails the whole answer.
pub fn convert_runs(response: GitHubWorkflowRunsApiResponse) -> (result: Result<
    Vec<WorkflowRun>,
    TimeParseError,
>)
    ensures
        match result {
            Ok(runs) => {
                &&& runs.len() == response.workflow_runs.len()
                &&& forall|i: int|
                    0 <= i < runs.len() ==> converted_run(#[trigger] response.workflow_runs[i])
                        == Ok::<WorkflowRunView, (u64, TimeField)>(runs[i]@)
            },
            Err(e) => exists|k: int|
                {
                    &&& 0 <= k < response.workflow_runs.len()
                    &&& forall|i: int|
                        0 <= i < k ==> converted_run(#[trigger] response.workflow_runs[i]) is Ok
                    &&& converted_run(#[trigger] response.workflow_runs[k]) == Err::<
                        WorkflowRunView,
                        (u64, TimeField),
                    >((e.run_id, e.field))
                },
        },
{
    let mut runs: Vec<WorkflowRun> = Vec::new();
    let ghost records = response.workflow_runs@;
    for raw in it: response.workflow_runs
        invariant
            it.seq() == records,
            runs.len() == it.index(),
            forall|i: int|
                0 <= i < it.index() ==> converted_run(#[trigger] records[i]) == Ok::<
                    WorkflowRunView,
                    (u64, TimeField),
                >(runs[i]@),
    {
        match convert_run(raw) {
            Ok(run) => {
                runs.push(run);
            },
            Err(e) => {
                return Err(e);
            },
        }
    }
    Ok(runs)
}

} // verus!
