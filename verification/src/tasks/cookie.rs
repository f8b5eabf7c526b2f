//! The Cookie task: installs one cookie built from four text fields.

use vstd::prelude::*;
use vstd::string::*;
use crate::structs::task_err::TaskErr;
use crate::tasks::{get_task_name, get_task, spec_get_task, spec_task_name, TaskTypes};
use crate::value::{copy_map, map_veq, Value, ValueMap};

verus! {

/// A task that installs a cookie in the session.
#[derive(Debug, Clone, PartialEq, Eq)]
pub struct Cookie {
    pub _task_types: TaskTypes,
    pub name: String,
    pub domain: String,
    pub path: String,
    pub cookie_key: String,
    pub cookie_value: String,
}

/// What reading one required text field of the cookie body yields: the
/// non-empty text, or a message naming the field.
pub open spec fn spec_cookie_value(task: ValueMap, key: Seq<char>) -> Result<
    Seq<char>,
    (Seq<char>, Option<TaskTypes>),
> {
    match spec_get_task(task, "cookie"@) {
        Err(m) => Err((m, None)),
        Ok(body) => match body.spec_get(key) {
            Option::None => Err((key + " field not found"@, Some(TaskTypes::COOKIE))),
            Option::Some(v) => match v {
                Value::Str(s) => {
                    if s@.len() == 0 {
                        Err((key + " is empty"@, Some(TaskTypes::COOKIE)))
                    } else {
                        Ok(s@)
                    }
                },
                _ => Err((key + " is not a string"@, Some(TaskTypes::COOKIE))),
            },
        },
    }
}

/// What building a Cookie task yields: name, key, value, domain and path,
/// or the error.
pub open spec fn spec_cookie(task: ValueMap) -> Result<
    (Seq<char>, Seq<char>, Seq<char>, Seq<char>, Seq<char>),
    (Seq<char>, Option<TaskTypes>),
> {
    match spec_task_name(task) {
        Err(m) => Err((m, None)),
        Ok(name) => {
            if task.spec_get("cookie"@) is None {
                Err(("Malformed Task"@, Some(TaskTypes::COOKIE)))
            } else {
                match spec_cookie_value(task, "cookie_key"@) {
                    Err(e) => Err(e),
                    Ok(ck) => match spec_cookie_value(task, "cookie_value"@) {
                        Err(e) => Err(e),
                        Ok(cv) => match spec_cookie_value(task, "domain"@) {
                            Err(e) => Err(e),
                            Ok(dm) => match spec_cookie_value(task, "path"@) {
                                Err(e) => Err(e),
                                Ok(pt) => Ok((name, ck, cv, dm, pt)),
                            },
                        },
                    },
                }
            }
        },
    }
}

fn get_cookie_value(task: &ValueMap, key: &str) -> (r: Result<String, TaskErr>)
    ensures
        match r {
            Ok(u) => spec_cookie_value(*task, key@) == Ok::<
                Seq<char>,
                (Seq<char>, Option<TaskTypes>),
            >(u@),
            Err(e) => {
                &&& spec_cookie_value(*task, key@) matches Err(p) && e.message@ == p.0
                    && e.task_type == p.1
                &&& e.task matches Some(t) && map_veq(t, *task)
            },
        },
{
    let body = match get_task(task, "cookie") {
        Ok(b) => b,
        Err(e) => {
            return Err(e);
        },
    };
    let field_value = match body.get(key) {
        Some(v) => v,
        None => {
            let mut m = String::from_str(key);
            m.append(" field not found");
            return Err(TaskErr::new(m, Some(TaskTypes::COOKIE), Some(copy_map(task))));
        },
    };
    let text = match field_value.as_str() {
        Some(s) => s,
        None => {
            let mut m = String::from_str(key);
            m.append(" is not a string");
            return Err(TaskErr::new(m, Some(TaskTypes::COOKIE), Some(copy_map(task))));
        },
    };
    if text.as_str().is_empty() {
        let mut m = String::from_str(key);
        m.append(" is empty");
        return Err(TaskErr::new(m, Some(TaskTypes::COOKIE), Some(copy_map(task))));
    }
    Ok(text.clone())
}

impl Cookie {
    /// Builds a Cookie task from its declaration.
    pub fn new(task: &ValueMap) -> (r: Result<Cookie, TaskErr>)
        ensures
            match r {
                Ok(c) => {
                    &&& spec_cookie(*task) matches Ok(p) && c.name@ == p.0 && c.cookie_key@ == p.1
                        && c.cookie_value@ == p.2 && c.domain@ == p.3 && c.path@ == p.4
                    &&& c._task_types == TaskTypes::COOKIE
                },
                Err(e) => {
                    &&& spec_cookie(*task) matches Err(p) && e.message@ == p.0 && e.task_type
                        == p.1
                    &&& e.task matches Some(t) && map_veq(t, *task)
                },
            },
    {
        let name = match get_task_name(task) {
            Ok(n) => n,
            Err(e) => {
                return Err(e);
            },
        };
        if !task.contains_key("cookie") {
            return Err(
                TaskErr::new(
                    String::from_str("Malformed Task"),
                    Some(TaskTypes::COOKIE),
                    Some(copy_map(task)),
                ),
            );
        }
        let cookie_key = match get_cookie_value(task, "cookie_key") {
            Ok(s) => s,
            Err(e) => {
                return Err(e);
            },
        };
        let cookie_value = match get_cookie_value(task, "cookie_value") {
            Ok(s) => s,
            Err(e) => {
                return Err(e);
            },
        };
        let domain = match get_cookie_value(task, "domain") {
            Ok(s) => s,
            Err(e) => {
                return Err(e);
            },
        };
        let path = match get_cookie_value(task, "path") {
            Ok(s) => s,
            Err(e) => {
                return Err(e);
            },
        };
        Ok(Cookie { name, _task_types: TaskTypes::COOKIE, cookie_key, cookie_value, domain, path })
    }
}

} // verus!
