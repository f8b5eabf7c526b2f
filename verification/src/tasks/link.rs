//! The Link task: opens a page, and must stand first in every suite.

use vstd::prelude::*;
use vstd::string::*;
use crate::structs::task_err::TaskErr;
use crate::tasks::{get_task_name, get_task, spec_get_task, spec_task_name, TaskTypes};
use crate::value::{copy_map, map_veq, Value, ValueMap};

verus! {

/// A task that navigates the session to a page.
#[derive(Debug, Clone, PartialEq, Eq)]
pub struct Link {
    pub _task_types: TaskTypes,
    pub name: String,
    pub url: String,
}

/// What reading the `url` field of a link body yields.
pub open spec fn spec_url(task: ValueMap) -> Result<Seq<char>, (Seq<char>, Option<TaskTypes>)> {
    match spec_get_task(task, "link"@) {
        Err(m) => Err((m, None)),
        Ok(body) => match body.spec_get("url"@) {
            Option::None => Err(("url field not found"@, Some(TaskTypes::LINK))),
            Option::Some(v) => match v {
                Value::Str(s) => {
                    if s@.len() == 0 {
                        Err(("Url is empty"@, Some(TaskTypes::LINK)))
                    } else {
                        Ok(s@)
                    }
                },
                _ => Err(("Url is not a string"@, Some(TaskTypes::LINK))),
            },
        },
    }
}

/// What building a Link task from a declaration yields: its name and url,
/// or the message and kind tag of the error.
pub open spec fn spec_link(task: ValueMap) -> Result<
    (Seq<char>, Seq<char>),
    (Seq<char>, Option<TaskTypes>),
> {
    match spec_task_name(task) {
        Err(m) => Err((m, None)),
        Ok(name) => match spec_url(task) {
            Err(e) => Err(e),
            Ok(url) => Ok((name, url)),
        },
    }
}

fn get_url(task: &ValueMap) -> (r: Result<String, TaskErr>)
    ensures
        match r {
            Ok(u) => spec_url(*task) == Ok::<Seq<char>, (Seq<char>, Option<TaskTypes>)>(u@),
            Err(e) => {
                &&& spec_url(*task) matches Err(p) && e.message@ == p.0 && e.task_type == p.1
                &&& e.task matches Some(t) && map_veq(t, *task)
            },
        },
{
    let body = match get_task(task, "link") {
        Ok(b) => b,
        Err(e) => {
            return Err(e);
        },
    };
    let url_value = match body.get("url") {
        Some(v) => v,
        None => {
            return Err(
                TaskErr::new(
                    String::from_str("url field not found"),
                    Some(TaskTypes::LINK),
                    Some(copy_map(task)),
                ),
            );
        },
    };
    let url = match url_value.as_str() {
        Some(s) => s,
        None => {
            return Err(
                TaskErr::new(
                    String::from_str("Url is not a string"),
                    Some(TaskTypes::LINK),
                    Some(copy_map(task)),
                ),
            );
        },
    };
    if url.as_str().is_empty() {
        return Err(
            TaskErr::new(
                String::from_str("Url is empty"),
                Some(TaskTypes::LINK),
                Some(copy_map(task)),
            ),
        );
    }
    Ok(url.clone())
}

impl Link {
    /// Builds a Link task from its declaration.
    pub fn new(task: &ValueMap) -> (r: Result<Link, TaskErr>)
        ensures
            match r {
                Ok(l) => {
                    &&& spec_link(*task) matches Ok(p) && l.name@ == p.0 && l.url@ == p.1
                    &&& l._task_types == TaskTypes::LINK
                },
                Err(e) => {
                    &&& spec_link(*task) matches Err(p) && e.message@ == p.0 && e.task_type == p.1
                    &&& e.task matches Some(t) && map_veq(t, *task)
                },
            },
    {
        let name = match get_task_name(task) {
            Ok(n) => n,
            Err(e) => {
                return Err(e);
            },
        };
        let url = match get_url(task) {
            Ok(u) => u,
            Err(e) => {
                return Err(e);
            },
        };
        Ok(Link { name, _task_types: TaskTypes::LINK, url })
    }
}

} // verus!
