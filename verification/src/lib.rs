//! Keeps taskwarrior tasks and Linear issues in step.
//!
//! The library holds the decisions: what a hook passes on, which calls a changed task asks
//! for, what goes into a request and what a reply means. Reading, sending and running other
//! programs is left to the caller.
pub mod action;
pub mod client;
pub mod config;
pub mod hooks;
pub mod ids;
pub mod install;
pub mod json;
pub mod model;
pub mod prompt;
pub mod push;
pub mod setup;
pub mod task;
pub mod text;

pub use crate::client::{ApiError, ApiRequest, LinearClient};
pub use crate::model::{
    LinearComment, LinearIssue, LinearTeam, LinearUser, WorkflowState, WorkflowStateConnection,
};
