//! The requests that the engine makes of the platform's REST API: where
//! they go, what they carry, and what they are called in error texts.

use crate::text::{decimal, to_decimal};
use vstd::prelude::*;
use vstd::string::*;

verus! {

/// The name under which the listing of the repositories is retried.
pub open spec fn repositories_operation_text() -> Seq<char> {
    "fetch_repositories"@
}

/// The name under which the listing of the runs of a repository is retried.
pub open spec fn workflow_runs_operation_text(owner: Seq<char>, repo: Seq<char>) -> Seq<char> {
    "workflow runs for "@ + owner + "/"@ + repo
}

/// The address that lists up to `count` repositories of the user, most
/// recently pushed to first.
pub open spec fn repositories_url_text(base_url: Seq<char>, count: u8) -> Seq<char> {
    base_url + "/user/repos?type=owner&sort=pushed&direction=desc&per_page="@ + decimal(
        count as nat,
    )
}

/// The address that lists up to `count` runs of a repository.
pub open spec fn workflow_runs_url_text(
    base_url: Seq<char>,
    owner: Seq<char>,
    repo: Seq<char>,
    count: u8,
) -> Seq<char> {
    base_url + "/repos/"@ + owner + "/"@ + repo + "/actions/runs?per_page="@ + decimal(
        count as nat,
    )
}

/// What a request carries to show that it is authorised.
pub open spec fn authorization_text(token: Seq<char>) -> Seq<char> {
    "Bearer "@ + token
}

/// Names the listing of the repositories.
pub fn repositories_operation() -> (name: String)
    ensures
        name@ == repositories_operation_text(),
{
    "fetch_repositories".to_owned()
}

/// Names the listing of the runs of a repository.
pub fn workflow_runs_operation(owner: &str, repo: &str) -> (name: String)
    ensures
        name@ == workflow_runs_operation_text(owner@, repo@),
{
    let mut name: String = "workflow runs for ".to_owned();
    name.append(owner);
    name.append("/");
    name.append(repo);
    name
}

/// Writes the address that lists the repositories.
pub fn repositories_url(base_url: &str, count: u8) -> (url: String)
    ensures
        url@ == repositories_url_text(base_url@, count),
{
    let mut url: String = base_url.to_owned();
    url.append("/user/repos?type=owner&sort=pushed&direction=desc&per_page=");
    url.append(to_decimal(count as u64).as_str());
    url
}

/// Writes the address that lists the runs of a repository.
pub fn workflow_runs_url(base_url: &str, owner: &str, repo: &str, count: u8) -> (url: String)
    ensures
        url@ == workflow_runs_url_text(base_url@, owner@, repo@, count),
{
    let mut url: String = base_url.to_owned();
    url.append("/repos/");
    url.append(owner);
    url.append("/");
    url.append(repo);
    url.append("/actions/runs?per_page=");
    url.append(to_decimal(count as u64).as_str());
    url
}

/// Writes what a request carries to show that it is authorised.
pub fn authorization(token: &str) -> (value: String)
    ensures
        value@ == authorization_text(token@),
{
    let mut value: String = "Bearer ".to_owned();
    value.append(token);
    value
}

} // verus!
