//! The outcome of one expectation of a Validate task.

use vstd::prelude::*;

verus! {

/// Whether one expectation held.
#[derive(Debug, Clone, Copy, PartialEq, Eq, Structural)]
pub enum ValidationReultType {
    SUCCESS,
    FAILED,
}

/// One expectation's outcome with its message.
#[derive(Debug, Clone, PartialEq, Eq)]
pub struct ValidationResult {
    pub validation: ValidationReultType,
    pub message: String,
}

} // verus!
