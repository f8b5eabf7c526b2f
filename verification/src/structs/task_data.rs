//! A whole declaration document: its metadata and its ordered declarations.

use vstd::prelude::*;
use crate::value::ValueMap;

verus! {

/// The parsed document a suite file holds.
#[derive(Debug, PartialEq, Eq)]
pub struct TaskData {
    pub meta_data: ValueMap,
    pub tasks: Vec<ValueMap>,
}

} // verus!
