//! The Wait task: sleeps a fixed time and/or awaits one element becoming
//! visible.  The body is a mapping with `duration_ms` and/or `element`; a
//! bare number is accepted as the duration alone.

use vstd::prelude::*;
use vstd::string::*;
use crate::element::{spec_element, Element, ElementType};
use crate::structs::task_err::TaskErr;
use crate::tasks::{get_task_name, get_task, spec_get_task, spec_task_name, TaskTypes};
use crate::value::{copy_map, map_veq, Value, ValueMap};

verus! {

/// A task that waits: for a fixed time, for an element, or both.
#[derive(Debug, Clone, PartialEq, Eq)]
pub struct Wait {
    pub _task_types: TaskTypes,
    pub name: String,
    pub duration_ms: Option<u64>,
    pub element: Option<Element>,
}

/// What building a Wait task yields: name, optional duration and optional
/// locator, or the error.  A declaration whose `wait` value is a bare
/// non-negative number means that duration with no locator.
pub open spec fn spec_wait(task: ValueMap) -> Result<
    (Seq<char>, Option<u64>, Option<(ElementType, Seq<char>)>),
    (Seq<char>, Option<TaskTypes>),
> {
    match spec_task_name(task) {
        Err(m) => Err((m, None)),
        Ok(name) => match task.spec_get("wait"@) {
            Option::Some(Value::Number(n)) => {
                if n >= 0 {
                    Ok((name, Some(n as u64), None))
                } else {
                    spec_wait_mapping(task, name)
                }
            },
            _ => spec_wait_mapping(task, name),
        },
    }
}

/// The structured form of the wait body: a mapping with an optional
/// `duration_ms` number and an optional locator.
pub open spec fn spec_wait_mapping(task: ValueMap, name: Seq<char>) -> Result<
    (Seq<char>, Option<u64>, Option<(ElementType, Seq<char>)>),
    (Seq<char>, Option<TaskTypes>),
> {
    match spec_get_task(task, "wait"@) {
        Err(m) => Err((m, None)),
        Ok(body) => {
            let duration = match body.spec_get("duration_ms"@) {
                Option::None => Ok(None),
                Option::Some(v) => match v {
                    Value::Number(d) => {
                        if d >= 0 {
                            Ok(Some(d as u64))
                        } else {
                            Err(())
                        }
                    },
                    _ => Err(()),
                },
            };
            match duration {
                Err(_) => Err(("Wait field is not a number"@, Some(TaskTypes::WAIT))),
                Ok(d) => {
                    let element = match spec_element(body) {
                        Ok(p) => Some(p),
                        Err(_) => None,
                    };
                    Ok((name, d, element))
                },
            }
        },
    }
}

impl Wait {
    /// Builds a Wait task from its declaration.
    pub fn new(task: &ValueMap) -> (r: Result<Wait, TaskErr>)
        ensures
            match r {
                Ok(w) => {
                    &&& spec_wait(*task) matches Ok(p) && w.name@ == p.0 && w.duration_ms == p.1
                        && (match (w.element, p.2) {
                        (Some(el), Some(q)) => el.element_type == q.0 && el.value@ == q.1,
                        (None, None) => true,
                        _ => false,
                    })
                    &&& w._task_types == TaskTypes::WAIT
                },
                Err(e) => {
                    &&& spec_wait(*task) matches Err(p) && e.message@ == p.0 && e.task_type == p.1
                    &&& e.task matches Some(t) && map_veq(t, *task)
                },
            },
    {
        let name = match get_task_name(task) {
            Ok(n) => n,
            Err(e) => {
                return Err(e);
            },
        };
        match task.get("wait") {
            Some(v) => {
                match v.as_u64() {
                    Some(d) => {
                        return Ok(
                            Wait {
                                _task_types: TaskTypes::WAIT,
                                name,
                                duration_ms: Some(d),
                                element: None,
                            },
                        );
                    },
                    None => {},
                }
            },
            None => {},
        }
        let body = match get_task(task, "wait") {
            Ok(b) => b,
            Err(e) => {
                return Err(e);
            },
        };
        let duration_ms = match body.get("duration_ms") {
            None => None,
            Some(v) => {
                match v.as_u64() {
                    Some(d) => Some(d),
                    None => {
                        return Err(
                            TaskErr::new(
                                String::from_str("Wait field is not a number"),
                                Some(TaskTypes::WAIT),
                                Some(copy_map(task)),
                            ),
                        );
                    },
                }
            },
        };
        let element = match Element::new(body) {
            Ok(el) => Some(el),
            Err(_) => None,
        };
        Ok(Wait { _task_types: TaskTypes::WAIT, name, duration_ms, element })
    }
}

} // verus!
