//! The Screenshot task: captures the page, or one element's region, to a
//! file.

use vstd::prelude::*;
use vstd::string::*;
use crate::element::{spec_element, Element, ElementType};
use crate::structs::task_err::TaskErr;
use crate::tasks::{get_task_name, get_task, spec_get_task, spec_task_name, TaskTypes};
use crate::value::{copy_map, map_veq, Value, ValueMap};

verus! {

/// A task that takes a screenshot.
#[derive(Debug, Clone, PartialEq, Eq)]
pub struct Screenshot {
    pub _task_types: TaskTypes,
    pub name: String,
    pub path: String,
    pub element: Option<Element>,
}

/// What reading the `path` field of a screenshot body yields.
pub open spec fn spec_path(task: ValueMap) -> Result<Seq<char>, (Seq<char>, Option<TaskTypes>)> {
    match spec_get_task(task, "screenshot"@) {
        Err(m) => Err((m, None)),
        Ok(body) => match body.spec_get("path"@) {
            Option::None => Err(("path field not found"@, Some(TaskTypes::SCREENSHOT))),
            Option::Some(v) => match v {
                Value::Str(s) => Ok(s@),
                _ => Err(("path field is not a string"@, Some(TaskTypes::SCREENSHOT))),
            },
        },
    }
}

/// What building a Screenshot task yields: name, target path and optional
/// locator, or the error.
pub open spec fn spec_screenshot(task: ValueMap) -> Result<
    (Seq<char>, Seq<char>, Option<(ElementType, Seq<char>)>),
    (Seq<char>, Option<TaskTypes>),
> {
    match spec_task_name(task) {
        Err(m) => Err((m, None)),
        Ok(name) => match spec_get_task(task, "screenshot"@) {
            Err(m) => Err((m, None)),
            Ok(body) => match spec_path(task) {
                Err(e) => Err(e),
                Ok(path) => {
                    let element = match spec_element(body) {
                        Ok(p) => Some(p),
                        Err(_) => None,
                    };
                    Ok((name, path, element))
                },
            },
        },
    }
}

impl Screenshot {
    /// Builds a Screenshot task from its declaration.
    pub fn new(task: &ValueMap) -> (r: Result<Screenshot, TaskErr>)
        ensures
            match r {
                Ok(s) => {
                    &&& spec_screenshot(*task) matches Ok(p) && s.name@ == p.0 && s.path@ == p.1
                        && (match (s.element, p.2) {
                        (Some(el), Some(q)) => el.element_type == q.0 && el.value@ == q.1,
                        (None, None) => true,
                        _ => false,
                    })
                    &&& s._task_types == TaskTypes::SCREENSHOT
                },
                Err(e) => {
                    &&& spec_screenshot(*task) matches Err(p) && e.message@ == p.0 && e.task_type
                        == p.1
                    &&& e.task matches Some(t) && map_veq(t, *task)
                },
            },
    {
        let name = match get_task_name(task) {
            Ok(n) => n,
            Err(e) => {
                return Err(e);
            },
        };
        let body = match get_task(task, "screenshot") {
            Ok(b) => b,
            Err(e) => {
                return Err(e);
            },
        };
        let path_value = match body.get("path") {
            Some(v) => v,
            None => {
                return Err(
                    TaskErr::new(
                        String::from_str("path field not found"),
                        Some(TaskTypes::SCREENSHOT),
                        Some(copy_map(task)),
                    ),
                );
            },
        };
        let path = match path_value.as_str() {
            Some(s) => s.clone(),
            None => {
                return Err(
                    TaskErr::new(
                        String::from_str("path field is not a string"),
                        Some(TaskTypes::SCREENSHOT),
                        Some(copy_map(task)),
                    ),
                );
            },
        };
        let element = match Element::new(body) {
            Ok(el) => Some(el),
            Err(_) => None,
        };
        Ok(Screenshot { _task_types: TaskTypes::SCREENSHOT, name, path, element })
    }
}

} // verus!
