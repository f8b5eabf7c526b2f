//! The record of one task that ran to completion.

use vstd::prelude::*;
use crate::structs::validation_result::ValidationResult;
use crate::tasks::TaskTypes;

verus! {

/// What a finished task reports: its name, kind, how long it ran, and the
/// validation outcomes where the task produced any.
#[derive(Debug, Clone, PartialEq, Eq)]
pub struct TaskOk {
    pub name: String,
    pub task_type: TaskTypes,
    pub duration: u64,
    pub result: Option<Vec<ValidationResult>>,
}

} // verus!
