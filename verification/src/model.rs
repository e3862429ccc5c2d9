//! The records of Linear.
use vstd::prelude::*;

verus! {

/// A user.
#[derive(Debug, Clone, PartialEq, Eq)]
pub struct LinearUser {
    pub id: String,
    pub name: String,
    pub email: String,
}

/// A state that an issue of a team can be in; `kind` groups the states of all teams.
#[derive(Debug, Clone, PartialEq, Eq)]
pub struct WorkflowState {
    pub id: String,
    pub name: String,
    pub kind: String,
}

/// The states of a team.
#[derive(Debug, Clone, PartialEq, Eq)]
pub struct WorkflowStateConnection {
    pub nodes: Vec<WorkflowState>,
}

/// A team.
#[derive(Debug, Clone, PartialEq, Eq)]
pub struct LinearTeam {
    pub id: String,
    pub name: String,
    pub states: WorkflowStateConnection,
}

/// An issue.
#[derive(Debug, Clone, PartialEq, Eq)]
pub struct LinearIssue {
    pub id: String,
    pub identifier: String,
    pub url: String,
}

/// A comment on an issue.
#[derive(Debug, Clone, PartialEq, Eq)]
pub struct LinearComment {
    pub id: String,
}

} // verus!
