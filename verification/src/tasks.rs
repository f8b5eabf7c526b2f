//! The task model: the closed vocabulary of task kinds, the parsing of one
//! declaration into a task, and the pipeline that turns a whole document
//! into an ordered, validated task sequence.

pub mod click;
pub mod close;
pub mod cookie;
pub mod link;
pub mod read;
pub mod screenshot;
pub mod send_key;
pub mod set_variable;
pub mod validate;
pub mod wait;

use vstd::prelude::*;
use vstd::string::*;
use crate::strutil::str_eq;
use crate::structs::task_data::TaskData;
use crate::structs::task_err::TaskErr;
use crate::value::{copy_map, is_str_key, map_veq, Value, ValueMap};
use crate::variables::{pairs_map, StrMap};
use crate::tasks::click::{spec_click, Click};
use crate::tasks::close::{spec_close, Close};
use crate::tasks::cookie::{spec_cookie, Cookie};
use crate::tasks::link::{spec_link, Link};
use crate::tasks::screenshot::{spec_screenshot, Screenshot};
use crate::tasks::send_key::{spec_send_key, SendKey};
use crate::tasks::set_variable::{spec_set_vars, SetVars};
use crate::tasks::validate::{expects_desc, spec_validate, Validate};
use crate::tasks::wait::{spec_wait, Wait};

verus! {

/// The closed vocabulary of task kinds.
#[derive(Debug, Clone, Default, Copy, PartialEq, Eq, Structural)]
pub enum TaskTypes {
    CLICK,
    SENDKEY,
    LINK,
    CLOSE,
    WAIT,
    SCREENSHOT,
    VALIDATE,
    SETVARIABLE,
    COOKIE,
    READ,
    #[default]
    NONE,
}

impl TaskTypes {
    /// The name of the kind, as reports print it.
    pub fn kind_label(&self) -> (r: &'static str)
        ensures
            r@ == self.spec_kind_label(),
    {
        match self {
            TaskTypes::CLICK => "CLICK",
            TaskTypes::SENDKEY => "SENDKEY",
            TaskTypes::LINK => "LINK",
            TaskTypes::CLOSE => "CLOSE",
            TaskTypes::WAIT => "WAIT",
            TaskTypes::SCREENSHOT => "SCREENSHOT",
            TaskTypes::VALIDATE => "VALIDATE",
            TaskTypes::SETVARIABLE => "SETVARIABLE",
            TaskTypes::COOKIE => "COOKIE",
            TaskTypes::READ => "READ",
            TaskTypes::NONE => "NONE",
        }
    }

    pub open spec fn spec_kind_label(&self) -> Seq<char> {
        match self {
            TaskTypes::CLICK => "CLICK"@,
            TaskTypes::SENDKEY => "SENDKEY"@,
            TaskTypes::LINK => "LINK"@,
            TaskTypes::CLOSE => "CLOSE"@,
            TaskTypes::WAIT => "WAIT"@,
            TaskTypes::SCREENSHOT => "SCREENSHOT"@,
            TaskTypes::VALIDATE => "VALIDATE"@,
            TaskTypes::SETVARIABLE => "SETVARIABLE"@,
            TaskTypes::COOKIE => "COOKIE"@,
            TaskTypes::READ => "READ"@,
            TaskTypes::NONE => "NONE"@,
        }
    }

    /// Parses a kind key of the vocabulary; any other key is refused with a
    /// message naming it.
    pub fn parse(input: &str) -> (r: Result<TaskTypes, String>)
        ensures
            match r {
                Ok(t) => spec_task_kind(input@) == Ok::<TaskTypes, Seq<char>>(t),
                Err(m) => spec_task_kind(input@) matches Err(e) && m@ == e,
            },
    {
        if str_eq(input, "click") {
            Ok(TaskTypes::CLICK)
        } else if str_eq(input, "send_key") {
            Ok(TaskTypes::SENDKEY)
        } else if str_eq(input, "link") {
            Ok(TaskTypes::LINK)
        } else if str_eq(input, "close") {
            Ok(TaskTypes::CLOSE)
        } else if str_eq(input, "wait") {
            Ok(TaskTypes::WAIT)
        } else if str_eq(input, "screenshot") {
            Ok(TaskTypes::SCREENSHOT)
        } else if str_eq(input, "validate") {
            Ok(TaskTypes::VALIDATE)
        } else if str_eq(input, "set_vars") {
            Ok(TaskTypes::SETVARIABLE)
        } else if str_eq(input, "cookie") {
            Ok(TaskTypes::COOKIE)
        } else {
            let mut m = String::new();
            m.append("Unknow Task Type: \"");
            m.append(input);
            m.append("\"");
            proof {
                assert(m@ =~= "Unknow Task Type: \""@ + input@ + "\""@);
            }
            Err(m)
        }
    }
}

/// Which task kind a key of the vocabulary names.
pub open spec fn spec_task_kind(s: Seq<char>) -> Result<TaskTypes, Seq<char>> {
    if s == "click"@ {
        Ok(TaskTypes::CLICK)
    } else if s == "send_key"@ {
        Ok(TaskTypes::SENDKEY)
    } else if s == "link"@ {
        Ok(TaskTypes::LINK)
    } else if s == "close"@ {
        Ok(TaskTypes::CLOSE)
    } else if s == "wait"@ {
        Ok(TaskTypes::WAIT)
    } else if s == "screenshot"@ {
        Ok(TaskTypes::SCREENSHOT)
    } else if s == "validate"@ {
        Ok(TaskTypes::VALIDATE)
    } else if s == "set_vars"@ {
        Ok(TaskTypes::SETVARIABLE)
    } else if s == "cookie"@ {
        Ok(TaskTypes::COOKIE)
    } else {
        Err("Unknow Task Type: \""@ + s + "\""@)
    }
}

/// What reading a task's name yields: the non-empty name, or the message
/// refusing the declaration.
pub open spec fn spec_task_name(task: ValueMap) -> Result<Seq<char>, Seq<char>> {
    match task.spec_get("name"@) {
        Option::None => Err("Malformed Task"@),
        Option::Some(v) => match v {
            Value::Str(s) => {
                if s@.len() == 0 {
                    Err("Task name can`t be empty"@)
                } else {
                    Ok(s@)
                }
            },
            _ => Err("Task name is not a string"@),
        },
    }
}

/// Reads the task's name; an absent, non-string or empty name is refused.
pub fn get_task_name(task: &ValueMap) -> (r: Result<String, TaskErr>)
    ensures
        match r {
            Ok(n) => spec_task_name(*task) == Ok::<Seq<char>, Seq<char>>(n@),
            Err(e) => {
                &&& spec_task_name(*task) matches Err(m) && e.message@ == m
                &&& e.task_type is None
                &&& e.task matches Some(t) && map_veq(t, *task)
            },
        },
{
    let name_value = match task.get("name") {
        Some(v) => v,
        None => {
            return Err(
                TaskErr::new(String::from_str("Malformed Task"), None, Some(copy_map(task))),
            );
        },
    };
    let name = match name_value.as_str() {
        Some(s) => s,
        None => {
            return Err(
                TaskErr::new(
                    String::from_str("Task name is not a string"),
                    None,
                    Some(copy_map(task)),
                ),
            );
        },
    };
    if name.as_str().is_empty() {
        return Err(
            TaskErr::new(
                String::from_str("Task name can`t be empty"),
                None,
                Some(copy_map(task)),
            ),
        );
    }
    Ok(name.clone())
}

/// What reading the body under a key yields: the non-empty mapping, or the
/// message refusing the declaration.
pub open spec fn spec_get_task(task: ValueMap, key: Seq<char>) -> Result<ValueMap, Seq<char>> {
    match task.spec_get(key) {
        Option::None => Err("Malformed Task"@),
        Option::Some(v) => match v {
            Value::Mapping(m) => {
                if m.entries@.len() == 0 {
                    Err("Task data is empty"@)
                } else {
                    Ok(m)
                }
            },
            _ => Err("Task data is Malformed"@),
        },
    }
}

/// Reads the body of the task under `key`; it must be a non-empty mapping.
pub fn get_task<'a>(task: &'a ValueMap, key: &str) -> (r: Result<&'a ValueMap, TaskErr>)
    ensures
        match r {
            Ok(m) => spec_get_task(*task, key@) == Ok::<ValueMap, Seq<char>>(*m),
            Err(e) => {
                &&& spec_get_task(*task, key@) matches Err(m) && e.message@ == m
                &&& e.task_type is None
                &&& e.task matches Some(t) && map_veq(t, *task)
            },
        },
{
    let body = match task.get(key) {
        Some(v) => v,
        None => {
            return Err(
                TaskErr::new(String::from_str("Malformed Task"), None, Some(copy_map(task))),
            );
        },
    };
    let mapping = match body.as_mapping() {
        Some(m) => m,
        None => {
            return Err(
                TaskErr::new(
                    String::from_str("Task data is Malformed"),
                    None,
                    Some(copy_map(task)),
                ),
            );
        },
    };
    if mapping.is_empty() {
        return Err(
            TaskErr::new(String::from_str("Task data is empty"), None, Some(copy_map(task))),
        );
    }
    Ok(mapping)
}

/// The key of the first entry that is not the `name` entry.
pub open spec fn first_non_name(entries: Seq<(Value, Value)>) -> Option<Value>
    decreases entries.len(),
{
    if entries.len() == 0 {
        None
    } else if is_str_key(entries[0].0, "name"@) {
        first_non_name(entries.drop_first())
    } else {
        Some(entries[0].0)
    }
}

proof fn lemma_first_non_name_at(entries: Seq<(Value, Value)>, i: int)
    requires
        0 <= i < entries.len(),
        !is_str_key(entries[i].0, "name"@),
        forall|j: int| 0 <= j < i ==> is_str_key(entries[j].0, "name"@),
    ensures
        first_non_name(entries) == Some(entries[i].0),
    decreases entries.len(),
{
    if i > 0 {
        assert(forall|j: int|
            0 <= j < entries.drop_first().len() ==> entries.drop_first()[j] == entries[j + 1]);
        lemma_first_non_name_at(entries.drop_first(), i - 1);
    }
}

proof fn lemma_first_non_name_none(entries: Seq<(Value, Value)>)
    requires
        forall|j: int| 0 <= j < entries.len() ==> is_str_key(entries[j].0, "name"@),
    ensures
        first_non_name(entries) is None,
    decreases entries.len(),
{
    if entries.len() > 0 {
        assert(forall|j: int|
            0 <= j < entries.drop_first().len() ==> entries.drop_first()[j] == entries[j + 1]);
        lemma_first_non_name_none(entries.drop_first());
    }
}

/// The kind a declaration names: a declaration has exactly two entries, and
/// the one that is not `name` must be a kind key of the vocabulary.
pub open spec fn spec_task_type(task: ValueMap) -> Result<TaskTypes, Seq<char>> {
    if task.entries@.len() == 2 {
        match first_non_name(task.entries@) {
            Option::Some(Value::Str(k)) => spec_task_kind(k@),
            _ => Err("Task data is Malformed"@),
        }
    } else {
        Err("Task data is Malformed"@)
    }
}

/// Determines which kind of task a declaration describes.
pub fn get_task_type(task: &ValueMap) -> (r: Result<TaskTypes, TaskErr>)
    ensures
        match r {
            Ok(t) => spec_task_type(*task) == Ok::<TaskTypes, Seq<char>>(t),
            Err(e) => {
                &&& spec_task_type(*task) matches Err(m) && e.message@ == m
                &&& e.task_type is None
                &&& e.task matches Some(t) && map_veq(t, *task)
            },
        },
{
    if task.len() != 2 {
        return Err(
            TaskErr::new(String::from_str("Task data is Malformed"), None, Some(copy_map(task))),
        );
    }
    let n = task.entries.len();
    let mut i: usize = 0;
    while i < n
        invariant
            n == task.entries@.len(),
            n == 2,
            i <= n,
            forall|j: int| 0 <= j < i ==> is_str_key(task.entries@[j].0, "name"@),
        decreases n - i,
    {
        let is_name = match &task.entries[i].0 {
            Value::Str(s) => str_eq(s.as_str(), "name"),
            _ => false,
        };
        if !is_name {
            proof {
                lemma_first_non_name_at(task.entries@, i as int);
            }
            match &task.entries[i].0 {
                Value::Str(key) => {
                    match TaskTypes::parse(key.as_str()) {
                        Ok(t) => {
                            return Ok(t);
                        },
                        Err(m) => {
                            return Err(TaskErr::new(m, None, Some(copy_map(task))));
                        },
                    }
                },
                _ => {
                    return Err(
                        TaskErr::new(
                            String::from_str("Task data is Malformed"),
                            None,
                            Some(copy_map(task)),
                        ),
                    );
                },
            }
        }
        i = i + 1;
    }
    proof {
        lemma_first_non_name_none(task.entries@);
    }
    Err(TaskErr::new(String::from_str("Task data is Malformed"), None, Some(copy_map(task))))
}

/// Whether an entry's key and value are both strings.
pub open spec fn good_pair(e: (Value, Value)) -> bool {
    e.0 is Str && e.1 is Str
}

/// The name and value texts of a string entry.
pub open spec fn pair_views(e: (Value, Value)) -> (Seq<char>, Seq<char>) {
    (e.0->Str_0@, e.1->Str_0@)
}

/// What turning a mapping into string bindings yields: the pairs in order,
/// or the message naming the first entry that is not a pair of strings.
pub open spec fn spec_to_hash(entries: Seq<(Value, Value)>) -> Result<
    Seq<(Seq<char>, Seq<char>)>,
    Seq<char>,
>
    decreases entries.len(),
{
    if entries.len() == 0 {
        Ok(Seq::empty())
    } else if !(entries[0].0 is Str) {
        Err("Key: "@ + entries[0].0.spec_describe() + " is not a string"@)
    } else if !(entries[0].1 is Str) {
        Err("Value: "@ + entries[0].1.spec_describe() + " is not a string"@)
    } else {
        match spec_to_hash(entries.drop_first()) {
            Ok(rest) => Ok(seq![pair_views(entries[0])] + rest),
            Err(e) => Err(e),
        }
    }
}

proof fn lemma_to_hash_split(entries: Seq<(Value, Value)>, i: int)
    requires
        0 <= i <= entries.len(),
        forall|j: int| 0 <= j < i ==> good_pair(entries[j]),
    ensures
        spec_to_hash(entries) == match spec_to_hash(entries.skip(i)) {
            Ok(rest) => Ok::<_, Seq<char>>(
                entries.take(i).map_values(|e: (Value, Value)| pair_views(e)) + rest,
            ),
            Err(e) => Err(e),
        },
    decreases i,
{
    if i == 0 {
        assert(entries.skip(0) =~= entries);
        match spec_to_hash(entries) {
            Ok(rest) => {
                assert(entries.take(0).map_values(|e: (Value, Value)| pair_views(e)) + rest
                    =~= rest);
            },
            Err(_) => {},
        }
    } else {
        lemma_to_hash_split(entries, i - 1);
        let t = entries.skip(i - 1);
        assert(t[0] == entries[i - 1]);
        assert(t.drop_first() =~= entries.skip(i));
        match spec_to_hash(entries.skip(i)) {
            Ok(rest) => {
                assert(spec_to_hash(t) == Ok::<_, Seq<char>>(seq![pair_views(t[0])] + rest));
                assert(entries.take(i - 1).map_values(|e: (Value, Value)| pair_views(e)) + (seq![
                    pair_views(entries[i - 1]),
                ] + rest) =~= entries.take(i).map_values(|e: (Value, Value)| pair_views(e))
                    + rest);
            },
            Err(_) => {},
        }
    }
}

/// Turns a mapping whose keys and values are all strings into bindings,
/// keeping the order of the entries.
pub fn to_hash(task_data: &ValueMap) -> (r: Result<StrMap, String>)
    ensures
        match r {
            Ok(sm) => spec_to_hash(task_data.entries@) matches Ok(ps) && sm.pairs() == ps && sm@
                == pairs_map(ps),
            Err(m) => spec_to_hash(task_data.entries@) matches Err(e) && m@ == e,
        },
{
    let n = task_data.entries.len();
    let mut out = StrMap::new();
    let mut i: usize = 0;
    while i < n
        invariant
            n == task_data.entries@.len(),
            i <= n,
            forall|j: int| 0 <= j < i ==> good_pair(task_data.entries@[j]),
            out.pairs() =~= task_data.entries@.take(i as int).map_values(
                |e: (Value, Value)| pair_views(e),
            ),
        decreases n - i,
    {
        let key = match task_data.entries[i].0.as_str() {
            Some(k) => k,
            None => {
                proof {
                    lemma_to_hash_split(task_data.entries@, i as int);
                }
                let mut m = String::new();
                m.append("Key: ");
                let shown = task_data.entries[i].0.describe();
                m.append(shown.as_str());
                m.append(" is not a string");
                proof {
                    assert(m@ =~= "Key: "@ + task_data.entries@[i as int].0.spec_describe()
                        + " is not a string"@);
                }
                return Err(m);
            },
        };
        let value = match task_data.entries[i].1.as_str() {
            Some(v) => v,
            None => {
                proof {
                    lemma_to_hash_split(task_data.entries@, i as int);
                }
                let mut m = String::new();
                m.append("Value: ");
                let shown = task_data.entries[i].1.describe();
                m.append(shown.as_str());
                m.append(" is not a string");
                proof {
                    assert(m@ =~= "Value: "@ + task_data.entries@[i as int].1.spec_describe()
                        + " is not a string"@);
                }
                return Err(m);
            },
        };
        out.add_variable(key.as_str(), value.as_str());
        proof {
            assert(out.pairs() =~= task_data.entries@.take(i + 1).map_values(
                |e: (Value, Value)| pair_views(e),
            ));
        }
        i = i + 1;
    }
    proof {
        lemma_to_hash_split(task_data.entries@, n as int);
        assert(task_data.entries@.skip(n as int) =~= Seq::<(Value, Value)>::empty());
        assert(spec_to_hash(task_data.entries@) matches Ok(ps) && out.pairs() == ps);
    }
    Ok(out)
}

/// One task of a suite: the closed union over the vocabulary.
#[derive(Debug, PartialEq, Eq)]
pub enum Task {
    Click(Click),
    Close(Close),
    Cookie(Cookie),
    Link(Link),
    Screenshot(Screenshot),
    SendKey(SendKey),
    SetVars(SetVars),
    Validate(Validate),
    Wait(Wait),
}

impl Task {
    /// Which kind of the vocabulary the task is.
    pub open spec fn kind(&self) -> TaskTypes {
        match self {
            Task::Click(_) => TaskTypes::CLICK,
            Task::Close(_) => TaskTypes::CLOSE,
            Task::Cookie(_) => TaskTypes::COOKIE,
            Task::Link(_) => TaskTypes::LINK,
            Task::Screenshot(_) => TaskTypes::SCREENSHOT,
            Task::SendKey(_) => TaskTypes::SENDKEY,
            Task::SetVars(_) => TaskTypes::SETVARIABLE,
            Task::Validate(_) => TaskTypes::VALIDATE,
            Task::Wait(_) => TaskTypes::WAIT,
        }
    }

    pub fn get_kind(&self) -> (r: TaskTypes)
        ensures
            r == self.kind(),
    {
        match self {
            Task::Click(_) => TaskTypes::CLICK,
            Task::Close(_) => TaskTypes::CLOSE,
            Task::Cookie(_) => TaskTypes::COOKIE,
            Task::Link(_) => TaskTypes::LINK,
            Task::Screenshot(_) => TaskTypes::SCREENSHOT,
            Task::SendKey(_) => TaskTypes::SENDKEY,
            Task::SetVars(_) => TaskTypes::SETVARIABLE,
            Task::Validate(_) => TaskTypes::VALIDATE,
            Task::Wait(_) => TaskTypes::WAIT,
        }
    }

    /// The task's name, as its report carries it.
    pub open spec fn spec_name(&self) -> Seq<char> {
        match self {
            Task::Click(t) => t.name@,
            Task::Close(t) => t.name@,
            Task::Cookie(t) => t.name@,
            Task::Link(t) => t.name@,
            Task::Screenshot(t) => t.name@,
            Task::SendKey(t) => t.name@,
            Task::SetVars(t) => t.name@,
            Task::Validate(t) => t.name@,
            Task::Wait(t) => t.name@,
        }
    }

    pub fn get_name<'a>(&'a self) -> (r: &'a String)
        ensures
            r@ == self.spec_name(),
    {
        match self {
            Task::Click(t) => &t.name,
            Task::Close(t) => &t.name,
            Task::Cookie(t) => &t.name,
            Task::Link(t) => &t.name,
            Task::Screenshot(t) => &t.name,
            Task::SendKey(t) => &t.name,
            Task::SetVars(t) => &t.name,
            Task::Validate(t) => &t.name,
            Task::Wait(t) => &t.name,
        }
    }
}

/// Whether a task holds exactly what its declaration describes.
pub open spec fn task_built(t: Task, d: ValueMap) -> bool {
    match t {
        Task::Click(c) => spec_click(d) matches Ok(p) && c.name@ == p.0 && c.element.element_type
            == p.1 && c.element.value@ == p.2 && c._task_types == TaskTypes::CLICK,
        Task::Close(c) => spec_close(d) matches Ok(n) && c.name@ == n && c._task_types
            == TaskTypes::CLOSE,
        Task::Cookie(c) => spec_cookie(d) matches Ok(p) && c.name@ == p.0 && c.cookie_key@ == p.1
            && c.cookie_value@ == p.2 && c.domain@ == p.3 && c.path@ == p.4 && c._task_types
            == TaskTypes::COOKIE,
        Task::Link(l) => spec_link(d) matches Ok(p) && l.name@ == p.0 && l.url@ == p.1
            && l._task_types == TaskTypes::LINK,
        Task::Screenshot(s) => spec_screenshot(d) matches Ok(p) && s.name@ == p.0 && s.path@ == p.1
            && (match (s.element, p.2) {
            (Some(el), Some(q)) => el.element_type == q.0 && el.value@ == q.1,
            (None, None) => true,
            _ => false,
        }) && s._task_types == TaskTypes::SCREENSHOT,
        Task::SendKey(c) => spec_send_key(d) matches Ok(p) && c.name@ == p.0
            && c.element.element_type == p.1 && c.element.value@ == p.2 && c.input@ == p.3
            && c._task_types == TaskTypes::SENDKEY,
        Task::SetVars(s) => spec_set_vars(d) matches Ok(p) && s.name@ == p.0 && s.variables.pairs()
            == p.1 && s._task_types == TaskTypes::SETVARIABLE,
        Task::Validate(v) => spec_validate(d) matches Ok(p) && v.name@ == p.0
            && v.element.element_type == p.1.0 && v.element.value@ == p.1.1 && expects_desc(
            v.expects@,
        ) == p.2 && v._task_types == TaskTypes::VALIDATE,
        Task::Wait(w) => spec_wait(d) matches Ok(p) && w.name@ == p.0 && w.duration_ms == p.1
            && (match (w.element, p.2) {
            (Some(el), Some(q)) => el.element_type == q.0 && el.value@ == q.1,
            (None, None) => true,
            _ => false,
        }) && w._task_types == TaskTypes::WAIT,
    }
}

/// Whether building a task of kind `k` from `d` succeeds.
pub open spec fn kind_builds(k: TaskTypes, d: ValueMap) -> bool {
    match k {
        TaskTypes::CLICK => spec_click(d) is Ok,
        TaskTypes::CLOSE => spec_close(d) is Ok,
        TaskTypes::COOKIE => spec_cookie(d) is Ok,
        TaskTypes::LINK => spec_link(d) is Ok,
        TaskTypes::SCREENSHOT => spec_screenshot(d) is Ok,
        TaskTypes::SENDKEY => spec_send_key(d) is Ok,
        TaskTypes::SETVARIABLE => spec_set_vars(d) is Ok,
        TaskTypes::VALIDATE => spec_validate(d) is Ok,
        TaskTypes::WAIT => spec_wait(d) is Ok,
        _ => false,
    }
}

/// Whether a whole declaration builds into a task.
pub open spec fn spec_builds(d: ValueMap) -> bool {
    match spec_task_type(d) {
        Ok(k) => kind_builds(k, d),
        Err(_) => false,
    }
}

/// Whether `e` is exactly the error that building a task of kind `k` from
/// `d` raises.
pub open spec fn kind_err(k: TaskTypes, d: ValueMap, e: TaskErr) -> bool {
    &&& e.task matches Some(t) && map_veq(t, d)
    &&& match k {
        TaskTypes::CLICK => spec_click(d) matches Err(p) && e.message@ == p.0 && e.task_type
            == p.1,
        TaskTypes::CLOSE => spec_close(d) matches Err(p) && e.message@ == p.0 && e.task_type
            == p.1,
        TaskTypes::COOKIE => spec_cookie(d) matches Err(p) && e.message@ == p.0 && e.task_type
            == p.1,
        TaskTypes::LINK => spec_link(d) matches Err(p) && e.message@ == p.0 && e.task_type == p.1,
        TaskTypes::SCREENSHOT => spec_screenshot(d) matches Err(p) && e.message@ == p.0
            && e.task_type == p.1,
        TaskTypes::SENDKEY => spec_send_key(d) matches Err(p) && e.message@ == p.0 && e.task_type
            == p.1,
        TaskTypes::SETVARIABLE => spec_set_vars(d) matches Err(p) && e.message@ == p.0
            && e.task_type == p.1,
        TaskTypes::VALIDATE => spec_validate(d) matches Err(p) && e.message@ == p.0 && e.task_type
            == p.1,
        TaskTypes::WAIT => spec_wait(d) matches Err(p) && e.message@ == p.0 && e.task_type == p.1,
        _ => false,
    }
}

/// Whether `e` is exactly the error that building a task from `d` raises:
/// the kind error where the kind is unreadable, else the constructor's.
pub open spec fn spec_build_err(d: ValueMap, e: TaskErr) -> bool {
    match spec_task_type(d) {
        Err(m) => e.message@ == m && e.task_type is None && (e.task matches Some(t) && map_veq(
            t,
            d,
        )),
        Ok(k) => kind_err(k, d, e),
    }
}

/// Builds the task a declaration describes, dispatching on its kind.
pub fn data_to_task(task_data: &ValueMap) -> (r: Result<Task, TaskErr>)
    ensures
        match r {
            Ok(t) => {
                &&& spec_task_type(*task_data) matches Ok(k) && t.kind() == k
                &&& task_built(t, *task_data)
            },
            Err(e) => spec_build_err(*task_data, e),
        },
{
    let task_type = match get_task_type(task_data) {
        Ok(t) => t,
        Err(e) => {
            return Err(e);
        },
    };
    match task_type {
        TaskTypes::SENDKEY => match SendKey::new(task_data) {
            Ok(t) => Ok(Task::SendKey(t)),
            Err(e) => Err(e),
        },
        TaskTypes::CLICK => match Click::new(task_data) {
            Ok(t) => Ok(Task::Click(t)),
            Err(e) => Err(e),
        },
        TaskTypes::CLOSE => match Close::new(task_data) {
            Ok(t) => Ok(Task::Close(t)),
            Err(e) => Err(e),
        },
        TaskTypes::LINK => match Link::new(task_data) {
            Ok(t) => Ok(Task::Link(t)),
            Err(e) => Err(e),
        },
        TaskTypes::WAIT => match Wait::new(task_data) {
            Ok(t) => Ok(Task::Wait(t)),
            Err(e) => Err(e),
        },
        TaskTypes::SCREENSHOT => match Screenshot::new(task_data) {
            Ok(t) => Ok(Task::Screenshot(t)),
            Err(e) => Err(e),
        },
        TaskTypes::VALIDATE => match Validate::new(task_data) {
            Ok(t) => Ok(Task::Validate(t)),
            Err(e) => Err(e),
        },
        TaskTypes::SETVARIABLE => match SetVars::new(task_data) {
            Ok(t) => Ok(Task::SetVars(t)),
            Err(e) => Err(e),
        },
        TaskTypes::COOKIE => match Cookie::new(task_data) {
            Ok(t) => Ok(Task::Cookie(t)),
            Err(e) => Err(e),
        },
        TaskTypes::READ => unreached(),
        TaskTypes::NONE => unreached(),
    }
}

/// The kind the first non-name key of a declaration names.
pub open spec fn spec_decl_kind(d: ValueMap) -> Result<TaskTypes, Seq<char>> {
    match first_non_name(d.entries@) {
        Option::Some(Value::Str(k)) => spec_task_kind(k@),
        _ => Err("Task data is Malformed"@),
    }
}

fn decl_kind(d: &ValueMap) -> (r: Result<TaskTypes, String>)
    requires
        first_non_name(d.entries@) matches Some(v) && v is Str,
    ensures
        match r {
            Ok(t) => spec_decl_kind(*d) == Ok::<TaskTypes, Seq<char>>(t),
            Err(m) => spec_decl_kind(*d) matches Err(e) && m@ == e,
        },
{
    let n = d.entries.len();
    let mut i: usize = 0;
    while i < n
        invariant
            n == d.entries@.len(),
            i <= n,
            first_non_name(d.entries@) matches Some(v) && v is Str,
            forall|j: int| 0 <= j < i ==> is_str_key(d.entries@[j].0, "name"@),
        decreases n - i,
    {
        let is_name = match &d.entries[i].0 {
            Value::Str(s) => str_eq(s.as_str(), "name"),
            _ => false,
        };
        if !is_name {
            proof {
                lemma_first_non_name_at(d.entries@, i as int);
            }
            match &d.entries[i].0 {
                Value::Str(key) => {
                    return TaskTypes::parse(key.as_str());
                },
                _ => {
                    return Err(String::from_str("Task data is Malformed"));
                },
            }
        }
        i = i + 1;
    }
    proof {
        lemma_first_non_name_none(d.entries@);
    }
    unreached()
}

/// Checks that a suite's first declaration names a Link task.
pub fn validate_first_task(task_data: &TaskData) -> (r: Result<(), TaskErr>)
    requires
        task_data.tasks@.len() > 0 ==> (first_non_name(task_data.tasks@[0].entries@) matches Some(
            v,
        ) && v is Str),
    ensures
        match r {
            Ok(_) => task_data.tasks@.len() > 0 && spec_decl_kind(task_data.tasks@[0]) == Ok::<
                TaskTypes,
                Seq<char>,
            >(TaskTypes::LINK),
            Err(e) => {
                &&& e.task is None && e.task_type is None
                &&& if task_data.tasks@.len() == 0 {
                    e.message@ == "First Task not found"@
                } else {
                    match spec_decl_kind(task_data.tasks@[0]) {
                        Ok(k) => k != TaskTypes::LINK && e.message@
                            == "First Task should be a Link"@,
                        Err(m) => e.message@ == m,
                    }
                }
            },
        },
{
    if task_data.tasks.len() == 0 {
        return Err(TaskErr::new(String::from_str("First Task not found"), None, None));
    }
    match decl_kind(&task_data.tasks[0]) {
        Ok(k) => {
            if k == TaskTypes::LINK {
                Ok(())
            } else {
                Err(TaskErr::new(String::from_str("First Task should be a Link"), None, None))
            }
        },
        Err(m) => Err(TaskErr::new(m, None, None)),
    }
}

/// Whether a suite's last declaration names a Close task.
pub fn is_last_task_close(task_data: &TaskData) -> (r: Result<bool, TaskErr>)
    requires
        task_data.tasks@.len() > 0 ==> (first_non_name(
            task_data.tasks@[task_data.tasks@.len() - 1].entries@,
        ) matches Some(v) && v is Str),
    ensures
        match r {
            Ok(b) => {
                if task_data.tasks@.len() == 0 {
                    b == false
                } else {
                    spec_decl_kind(task_data.tasks@[task_data.tasks@.len() - 1]) matches Ok(k) && b
                        == (k == TaskTypes::CLOSE)
                }
            },
            Err(e) => {
                &&& e.task is None && e.task_type is None
                &&& task_data.tasks@.len() > 0
                &&& spec_decl_kind(task_data.tasks@[task_data.tasks@.len() - 1]) matches Err(m)
                    && e.message@ == m
            },
        },
{
    if task_data.tasks.len() == 0 {
        return Ok(false);
    }
    match decl_kind(&task_data.tasks[task_data.tasks.len() - 1]) {
        Ok(k) => Ok(k == TaskTypes::CLOSE),
        Err(m) => Err(TaskErr::new(m, None, None)),
    }
}

/// What a successful pipeline run guarantees: every declaration built its
/// task in order, the first names a Link, and the sequence ends in a Close
/// — the suite's own, or an appended one named `closing web driver
/// session`.
pub open spec fn pipeline_ok(data: TaskData, ts: Seq<Task>) -> bool {
    &&& data.tasks@.len() > 0
    &&& forall|i: int| 0 <= i < data.tasks@.len() ==> spec_builds(#[trigger] data.tasks@[i])
    &&& forall|i: int|
        0 <= i < data.tasks@.len() ==> task_built(#[trigger] ts[i], data.tasks@[i]) && (
        spec_task_type(data.tasks@[i]) matches Ok(k) && ts[i].kind() == k)
    &&& spec_task_type(data.tasks@[0]) == Ok::<TaskTypes, Seq<char>>(TaskTypes::LINK)
    &&& {
        let n = data.tasks@.len() as int;
        if spec_task_type(data.tasks@[n - 1]) == Ok::<TaskTypes, Seq<char>>(TaskTypes::CLOSE) {
            ts.len() == n
        } else {
            &&& ts.len() == n + 1
            &&& ts[n] matches Task::Close(c) && c.name@ == "closing web driver session"@
        }
    }
    &&& ts.len() > 0 && ts.last().kind() == TaskTypes::CLOSE
}

/// What a failed pipeline run guarantees: the error of the first
/// declaration that does not build, or, with every declaration building,
/// the message that the suite is empty or does not begin with a Link.
pub open spec fn pipeline_err(data: TaskData, e: TaskErr) -> bool {
    ||| (exists|i: int|
        {
            &&& 0 <= i < data.tasks@.len()
            &&& forall|j: int| 0 <= j < i ==> spec_builds(#[trigger] data.tasks@[j])
            &&& !spec_builds(data.tasks@[i])
            &&& spec_build_err(data.tasks@[i], e)
        })
    ||| {
        &&& forall|j: int| 0 <= j < data.tasks@.len() ==> spec_builds(#[trigger] data.tasks@[j])
        &&& e.task is None && e.task_type is None
        &&& if data.tasks@.len() == 0 {
            e.message@ == "First Task not found"@
        } else {
            &&& spec_task_type(data.tasks@[0]) matches Ok(k) && k != TaskTypes::LINK
            &&& e.message@ == "First Task should be a Link"@
        }
    }
}

/// Turns a whole document into its validated task sequence: every
/// declaration builds, the first must name a Link, and a suite that does
/// not end in a Close gets a final Close appended, so that the sequence
/// always releases its session.
pub fn to_task(task_data: &TaskData) -> (r: Result<Vec<Task>, TaskErr>)
    ensures
        match r {
            Ok(ts) => pipeline_ok(*task_data, ts@),
            Err(e) => pipeline_err(*task_data, e),
        },
{
    let n = task_data.tasks.len();
    let mut tasks: Vec<Task> = Vec::new();
    let mut i: usize = 0;
    while i < n
        invariant
            n == task_data.tasks@.len(),
            i <= n,
            tasks@.len() == i,
            forall|j: int| 0 <= j < i ==> spec_builds(#[trigger] task_data.tasks@[j]),
            forall|j: int|
                0 <= j < i ==> task_built(#[trigger] tasks@[j], task_data.tasks@[j]) && (
                spec_task_type(task_data.tasks@[j]) matches Ok(k) && tasks@[j].kind() == k),
        decreases n - i,
    {
        match data_to_task(&task_data.tasks[i]) {
            Ok(t) => {
                tasks.push(t);
            },
            Err(e) => {
                return Err(e);
            },
        }
        i = i + 1;
    }
    match validate_first_task(task_data) {
        Ok(_) => {},
        Err(e) => {
            return Err(e);
        },
    }
    let last_is_close = match is_last_task_close(task_data) {
        Ok(b) => b,
        Err(_) => unreached(),
    };
    if !last_is_close {
        tasks.push(
            Task::Close(
                Close {
                    _task_types: TaskTypes::CLOSE,
                    name: String::from_str("closing web driver session"),
                },
            ),
        );
    }
    Ok(tasks)
}

/// A declaration of exactly two entries whose kind key lies outside the
/// vocabulary is refused with a message naming that key.
pub proof fn lemma_unknown_kind_refused(d: ValueMap, key: String)
    requires
        d.entries@.len() == 2,
        first_non_name(d.entries@) == Some(Value::Str(key)),
        key@ != "click"@,
        key@ != "send_key"@,
        key@ != "link"@,
        key@ != "close"@,
        key@ != "wait"@,
        key@ != "screenshot"@,
        key@ != "validate"@,
        key@ != "set_vars"@,
        key@ != "cookie"@,
    ensures
        spec_task_type(d) == Err::<TaskTypes, Seq<char>>("Unknow Task Type: \""@ + key@ + "\""@),
{
}

/// A declaration whose name entry is the empty string is refused with the
/// message that the name may not be empty.
pub proof fn lemma_empty_name_refused(d: ValueMap, name: String)
    requires
        d.spec_get("name"@) == Some(Value::Str(name)),
        name@.len() == 0,
    ensures
        spec_task_name(d) == Err::<Seq<char>, Seq<char>>("Task name can`t be empty"@),
{
}

/// A declaration whose name entry is not a string is refused with the
/// message that the name is not a string.
pub proof fn lemma_non_string_name_refused(d: ValueMap)
    requires
        d.spec_get("name"@) matches Some(v) && !(v is Str),
    ensures
        spec_task_name(d) == Err::<Seq<char>, Seq<char>>("Task name is not a string"@),
{
}

} // verus!
