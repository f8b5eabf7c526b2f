//! The SendKey task: looks one element up and types text into it.

use vstd::prelude::*;
use vstd::string::*;
use crate::element::{spec_element, Element};
use crate::structs::task_err::TaskErr;
use crate::tasks::{get_task_name, get_task, spec_get_task, spec_task_name, TaskTypes};
use crate::value::{copy_map, map_veq, Value, ValueMap};

verus! {

/// A task that sends keystrokes to one element.
#[derive(Debug, Clone, PartialEq, Eq)]
pub struct SendKey {
    pub _task_types: TaskTypes,
    pub name: String,
    pub element: Element,
    pub input: String,
}

/// What reading the `input` field of a send_key body yields.
pub open spec fn spec_input(task: ValueMap) -> Result<Seq<char>, (Seq<char>, Option<TaskTypes>)> {
    match spec_get_task(task, "send_key"@) {
        Err(m) => Err((m, None)),
        Ok(body) => match body.spec_get("input"@) {
            Option::None => Err(("input field not found"@, Some(TaskTypes::SENDKEY))),
            Option::Some(v) => match v {
                Value::Str(s) => {
                    if s@.len() == 0 {
                        Err(("input is empty"@, Some(TaskTypes::SENDKEY)))
                    } else {
                        Ok(s@)
                    }
                },
                _ => Err(("input is not a string"@, Some(TaskTypes::SENDKEY))),
            },
        },
    }
}

/// What building a SendKey task yields: name, locator and input text, or
/// the error.
pub open spec fn spec_send_key(task: ValueMap) -> Result<
    (Seq<char>, crate::element::ElementType, Seq<char>, Seq<char>),
    (Seq<char>, Option<TaskTypes>),
> {
    match spec_task_name(task) {
        Err(m) => Err((m, None)),
        Ok(name) => match spec_get_task(task, "send_key"@) {
            Err(m) => Err((m, None)),
            Ok(body) => match spec_input(task) {
                Err(e) => Err(e),
                Ok(input) => match spec_element(body) {
                    Err(m) => Err((m, Some(TaskTypes::SENDKEY))),
                    Ok(p) => Ok((name, p.0, p.1, input)),
                },
            },
        },
    }
}

fn get_input(task: &ValueMap) -> (r: Result<String, TaskErr>)
    ensures
        match r {
            Ok(u) => spec_input(*task) == Ok::<Seq<char>, (Seq<char>, Option<TaskTypes>)>(u@),
            Err(e) => {
                &&& spec_input(*task) matches Err(p) && e.message@ == p.0 && e.task_type == p.1
                &&& e.task matches Some(t) && map_veq(t, *task)
            },
        },
{
    let body = match get_task(task, "send_key") {
        Ok(b) => b,
        Err(e) => {
            return Err(e);
        },
    };
    let input_value = match body.get("input") {
        Some(v) => v,
        None => {
            return Err(
                TaskErr::new(
                    String::from_str("input field not found"),
                    Some(TaskTypes::SENDKEY),
                    Some(copy_map(task)),
                ),
            );
        },
    };
    let input = match input_value.as_str() {
        Some(s) => s,
        None => {
            return Err(
                TaskErr::new(
                    String::from_str("input is not a string"),
                    Some(TaskTypes::SENDKEY),
                    Some(copy_map(task)),
                ),
            );
        },
    };
    if input.as_str().is_empty() {
        return Err(
            TaskErr::new(
                String::from_str("input is empty"),
                Some(TaskTypes::SENDKEY),
                Some(copy_map(task)),
            ),
        );
    }
    Ok(input.clone())
}

impl SendKey {
    /// Builds a SendKey task from its declaration.
    pub fn new(task: &ValueMap) -> (r: Result<SendKey, TaskErr>)
        ensures
            match r {
                Ok(c) => {
                    &&& spec_send_key(*task) matches Ok(p) && c.name@ == p.0
                        && c.element.element_type == p.1 && c.element.value@ == p.2 && c.input@
                        == p.3
                    &&& c._task_types == TaskTypes::SENDKEY
                },
                Err(e) => {
                    &&& spec_send_key(*task) matches Err(p) && e.message@ == p.0 && e.task_type
                        == p.1
                    &&& e.task matches Some(t) && map_veq(t, *task)
                },
            },
    {
        let name = match get_task_name(task) {
            Ok(n) => n,
            Err(e) => {
                return Err(e);
            },
        };
        let body = match get_task(task, "send_key") {
            Ok(b) => b,
            Err(e) => {
                return Err(e);
            },
        };
        let input = match get_input(task) {
            Ok(s) => s,
            Err(e) => {
                return Err(e);
            },
        };
        let element = match Element::new(body) {
            Ok(el) => el,
            Err(m) => {
                return Err(TaskErr::new(m, Some(TaskTypes::SENDKEY), Some(copy_map(task))));
            },
        };
        Ok(SendKey { name, _task_types: TaskTypes::SENDKEY, element, input })
    }
}

} // verus!
