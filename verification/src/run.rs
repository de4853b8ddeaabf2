//! Runs of CI workflows, as the dashboard shows them.

use crate::timestamp::Timestamp;
use vstd::prelude::*;

verus! {

/// One run of a workflow.
#[derive(Debug, PartialEq)]
pub struct WorkflowRun {
    pub repository_name: String,
    pub id: u64,
    pub workflow_name: String,
    pub display_title: String,
    pub event: String,
    /// The outcome of a completed run where one was reported, else the
    /// state that the platform reported.
    pub status: String,
    pub created_at: Timestamp,
    pub updated_at: Timestamp,
    pub html_url: String,
}

/// What a [`WorkflowRun`] holds.
pub struct WorkflowRunView {
    pub repository_name: Seq<char>,
    pub id: u64,
    pub workflow_name: Seq<char>,
    pub display_title: Seq<char>,
    pub event: Seq<char>,
    pub status: Seq<char>,
    pub created_at: Timestamp,
    pub updated_at: Timestamp,
    pub html_url: Seq<char>,
}

impl View for WorkflowRun {
    type V = WorkflowRunView;

    open spec fn view(&self) -> WorkflowRunView {
        WorkflowRunView {
            repository_name: self.repository_name@,
            id: self.id,
            workflow_name: self.workflow_name@,
            display_title: self.display_title@,
            event: self.event@,
            status: self.status@,
            created_at: self.created_at,
            updated_at: self.updated_at,
            html_url: self.html_url@,
        }
    }
}

impl DeepView for WorkflowRun {
    type V = WorkflowRunView;

    open spec fn deep_view(&self) -> WorkflowRunView {
        self@
    }
}

impl Clone for WorkflowRun {
    fn clone(&self) -> (copy: WorkflowRun)
        ensures
            copy@ == self@,
    {
        WorkflowRun {
            repository_name: self.repository_name.clone(),
            id: self.id,
            workflow_name: self.workflow_name.clone(),
            display_title: self.display_title.clone(),
            event: self.event.clone(),
            status: self.status.clone(),
            created_at: self.created_at,
            updated_at: self.updated_at,
            html_url: self.html_url.clone(),
        }
    }
}

} // verus!
