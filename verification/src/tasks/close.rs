//! The Close task: releases the driver session.  Every suite ends with one,
//! written or appended by the pipeline.

use vstd::prelude::*;
use vstd::string::*;
use crate::structs::task_err::TaskErr;
use crate::tasks::{get_task_name, spec_task_name, TaskTypes};
use crate::value::{copy_map, map_veq, ValueMap};

verus! {

/// A task that releases the driver session.
#[derive(Debug, Clone, PartialEq, Eq)]
pub struct Close {
    pub _task_types: TaskTypes,
    pub name: String,
}

/// What building a Close task yields: its name, or the error.  The value
/// under the `close` key does not matter; the key must exist.
pub open spec fn spec_close(task: ValueMap) -> Result<Seq<char>, (Seq<char>, Option<TaskTypes>)> {
    match spec_task_name(task) {
        Err(m) => Err((m, None)),
        Ok(name) => {
            if task.spec_get("close"@) is Some {
                Ok(name)
            } else {
                Err(("Malformed Task"@, Some(TaskTypes::CLOSE)))
            }
        },
    }
}

impl Close {
    /// Builds a Close task from its declaration.
    pub fn new(task: &ValueMap) -> (r: Result<Close, TaskErr>)
        ensures
            match r {
                Ok(c) => {
                    &&& spec_close(*task) matches Ok(n) && c.name@ == n
                    &&& c._task_types == TaskTypes::CLOSE
                },
                Err(e) => {
                    &&& spec_close(*task) matches Err(p) && e.message@ == p.0 && e.task_type == p.1
                    &&& e.task matches Some(t) && map_veq(t, *task)
                },
            },
    {
        let name = match get_task_name(task) {
            Ok(n) => n,
            Err(e) => {
                return Err(e);
            },
        };
        if !task.contains_key("close") {
            return Err(
                TaskErr::new(
                    String::from_str("Malformed Task"),
                    Some(TaskTypes::CLOSE),
                    Some(copy_map(task)),
                ),
            );
        }
        Ok(Close { name, _task_types: TaskTypes::CLOSE })
    }
}

} // verus!
