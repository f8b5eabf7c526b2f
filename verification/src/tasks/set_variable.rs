//! The SetVars task: merges a flat mapping of strings into the session's
//! variables.

use vstd::prelude::*;
use vstd::string::*;
use crate::structs::task_err::TaskErr;
use crate::tasks::{get_task_name, get_task, spec_get_task, spec_task_name, spec_to_hash, to_hash,
    TaskTypes};
use crate::value::{copy_map, map_veq, ValueMap};
use crate::variables::StrMap;

verus! {

/// A task that binds variables for the tasks after it.
#[derive(Debug, PartialEq, Eq)]
pub struct SetVars {
    pub _task_types: TaskTypes,
    pub name: String,
    pub variables: StrMap,
}

/// What building a SetVars task yields: its name and bindings in order, or
/// the error.
pub open spec fn spec_set_vars(task: ValueMap) -> Result<
    (Seq<char>, Seq<(Seq<char>, Seq<char>)>),
    (Seq<char>, Option<TaskTypes>),
> {
    match spec_task_name(task) {
        Err(m) => Err((m, None)),
        Ok(name) => match spec_get_task(task, "set_vars"@) {
            Err(m) => Err((m, None)),
            Ok(body) => match spec_to_hash(body.entries@) {
                Err(m) => Err((m, Some(TaskTypes::SETVARIABLE))),
                Ok(ps) => Ok((name, ps)),
            },
        },
    }
}

impl SetVars {
    /// Builds a SetVars task from its declaration.
    pub fn new(task: &ValueMap) -> (r: Result<SetVars, TaskErr>)
        ensures
            match r {
                Ok(s) => {
                    &&& spec_set_vars(*task) matches Ok(p) && s.name@ == p.0 && s.variables.pairs()
                        == p.1
                    &&& s._task_types == TaskTypes::SETVARIABLE
                },
                Err(e) => {
                    &&& spec_set_vars(*task) matches Err(p) && e.message@ == p.0 && e.task_type
                        == p.1
                    &&& e.task matches Some(t) && map_veq(t, *task)
                },
            },
    {
        let name = match get_task_name(task) {
            Ok(n) => n,
            Err(e) => {
                return Err(e);
            },
        };
        let body = match get_task(task, "set_vars") {
            Ok(b) => b,
            Err(e) => {
                return Err(e);
            },
        };
        let variables = match to_hash(body) {
            Ok(sm) => sm,
            Err(m) => {
                return Err(TaskErr::new(m, Some(TaskTypes::SETVARIABLE), Some(copy_map(task))));
            },
        };
        Ok(SetVars { _task_types: TaskTypes::SETVARIABLE, name, variables })
    }
}

} // verus!
