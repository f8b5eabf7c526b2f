//! The Click task: looks one element up and clicks it.

use vstd::prelude::*;
use vstd::string::*;
use crate::element::{spec_element, Element};
use crate::structs::task_err::TaskErr;
use crate::tasks::{get_task_name, get_task, spec_get_task, spec_task_name, TaskTypes};
use crate::value::{copy_map, map_veq, ValueMap};

verus! {

/// A task that clicks one element.
#[derive(Debug, Clone, PartialEq, Eq)]
pub struct Click {
    pub _task_types: TaskTypes,
    pub name: String,
    pub element: Element,
}

/// What building a Click task yields: its name and locator, or the error.
pub open spec fn spec_click(task: ValueMap) -> Result<
    (Seq<char>, crate::element::ElementType, Seq<char>),
    (Seq<char>, Option<TaskTypes>),
> {
    match spec_task_name(task) {
        Err(m) => Err((m, None)),
        Ok(name) => match spec_get_task(task, "click"@) {
            Err(m) => Err((m, None)),
            Ok(body) => match spec_element(body) {
                Err(m) => Err((m, Some(TaskTypes::CLICK))),
                Ok(p) => Ok((name, p.0, p.1)),
            },
        },
    }
}

impl Click {
    /// Builds a Click task from its declaration.
    pub fn new(task: &ValueMap) -> (r: Result<Click, TaskErr>)
        ensures
            match r {
                Ok(c) => {
                    &&& spec_click(*task) matches Ok(p) && c.name@ == p.0
                        && c.element.element_type == p.1 && c.element.value@ == p.2
                    &&& c._task_types == TaskTypes::CLICK
                },
                Err(e) => {
                    &&& spec_click(*task) matches Err(p) && e.message@ == p.0 && e.task_type == p.1
                    &&& e.task matches Some(t) && map_veq(t, *task)
                },
            },
    {
        let name = match get_task_name(task) {
            Ok(n) => n,
            Err(e) => {
                return Err(e);
            },
        };
        let body = match get_task(task, "click") {
            Ok(b) => b,
            Err(e) => {
                return Err(e);
            },
        };
        let element = match Element::new(body) {
            Ok(el) => el,
            Err(m) => {
                return Err(TaskErr::new(m, Some(TaskTypes::CLICK), Some(copy_map(task))));
            },
        };
        Ok(Click { name, _task_types: TaskTypes::CLICK, element })
    }
}

} // verus!
