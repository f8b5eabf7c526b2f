//! The session executor: threads one session's variables through the task
//! sequence, strictly in order, stopping at the first failure.
//!
//! The executor decides; the surrounding application acts.  For each task
//! the executor hands out one command with every placeholder already
//! substituted, the application performs it against the live driver and
//! hands back the outcome, and the executor turns the outcome into the
//! task's report and the next state.

use vstd::prelude::*;
use vstd::string::*;
use crate::element::Element;
use crate::structs::task_data::TaskData;
use crate::structs::task_err::TaskErr;
use crate::structs::task_ok::TaskOk;
use crate::tasks::validate::{expects_desc, expects_weight, eval_all, outcomes_view, Probe,
    ProbeResult, probes_view, results_view, spec_probes};
use crate::tasks::{pipeline_err, pipeline_ok, to_task, Task, TaskTypes};
use crate::variables::{ident_char, pairs_map, resolve_spec, lemma_resolve_single_placeholder,
    StrMap};

verus! {

/// One action for the application to perform against the driver.  Every
/// text a command carries has had its placeholders substituted, except a
/// ReadValues locator, which is used as written.
#[derive(Debug, PartialEq, Eq)]
pub enum Command {
    Navigate { url: String },
    ClickElement { element: Element },
    SendKeys { element: Element, input: String },
    Quit,
    WaitFor { duration_ms: Option<u64>, element: Option<Element> },
    TakeScreenshot { path: String, element: Option<Element> },
    AddCookie { cookie_key: String, cookie_value: String, domain: String, path: String },
    ReadValues { element: Element, probes: Vec<Probe> },
}

/// What performing a command came to: it completed, the element could not
/// be found, the action on it failed, or the probed values were read.  The
/// messages carry the driver's own rendering of its error.
#[derive(Debug, PartialEq, Eq)]
pub enum Outcome {
    Completed,
    NoElement { message: String },
    ActionFailed { message: String },
    ValuesRead { values: Vec<ProbeResult> },
}

/// Whether `c` is exactly the command that `task` asks for under the
/// bindings `vars`.
pub open spec fn command_matches(task: Task, vars: Map<Seq<char>, Seq<char>>, c: Option<
    Command,
>) -> bool {
    match task {
        Task::Link(l) => c matches Some(Command::Navigate { url }) && url@ == resolve_spec(
            l.url@,
            vars,
        ),
        Task::Click(k) => c matches Some(Command::ClickElement { element })
            && element.element_type == k.element.element_type && element.value@ == resolve_spec(
            k.element.value@,
            vars,
        ),
        Task::SendKey(s) => c matches Some(Command::SendKeys { element, input })
            && element.element_type == s.element.element_type && element.value@ == resolve_spec(
            s.element.value@,
            vars,
        ) && input@ == resolve_spec(s.input@, vars),
        Task::Close(_) => c == Some(Command::Quit),
        Task::Wait(w) => c matches Some(Command::WaitFor { duration_ms, element }) && duration_ms
            == w.duration_ms && (match (element, w.element) {
            (Some(e), Some(we)) => e.element_type == we.element_type && e.value@ == resolve_spec(
                we.value@,
                vars,
            ),
            (None, None) => true,
            _ => false,
        }),
        Task::Screenshot(s) => c matches Some(Command::TakeScreenshot { path, element }) && path@
            == resolve_spec(s.path@, vars) && (match (element, s.element) {
            (Some(e), Some(se)) => e.element_type == se.element_type && e.value@ == resolve_spec(
                se.value@,
                vars,
            ),
            (None, None) => true,
            _ => false,
        }),
        Task::Cookie(ck) => c matches Some(
            Command::AddCookie { cookie_key, cookie_value, domain, path },
        ) && cookie_key@ == resolve_spec(ck.cookie_key@, vars) && cookie_value@ == resolve_spec(
            ck.cookie_value@,
            vars,
        ) && domain@ == resolve_spec(ck.domain@, vars) && path@ == resolve_spec(ck.path@, vars),
        Task::SetVars(_) => c is None,
        Task::Validate(v) => c matches Some(Command::ReadValues { element, probes })
            && element.element_type == v.element.element_type && element.value@ == v.element.value@
            && probes_view(probes@) == spec_probes(expects_desc(v.expects@)) && probes@.len()
            == expects_weight(expects_desc(v.expects@)),
    }
}

fn resolved_element(e: &Element, vars: &StrMap) -> (r: Element)
    ensures
        r.element_type == e.element_type,
        r.value@ == resolve_spec(e.value@, vars@),
{
    Element { element_type: e.element_type, value: e.resolve_value(vars) }
}

/// The command a task asks for under the given bindings, with every
/// placeholder substituted at this moment, so that earlier SetVars tasks
/// are in effect.  A SetVars task needs no command.
pub fn task_command(task: &Task, vars: &StrMap) -> (c: Option<Command>)
    ensures
        command_matches(*task, vars@, c),
{
    match task {
        Task::Link(l) => Some(
            Command::Navigate { url: crate::variables::resolve_variables(l.url.as_str(), vars) },
        ),
        Task::Click(k) => Some(
            Command::ClickElement { element: resolved_element(&k.element, vars) },
        ),
        Task::SendKey(s) => Some(
            Command::SendKeys {
                element: resolved_element(&s.element, vars),
                input: crate::variables::resolve_variables(s.input.as_str(), vars),
            },
        ),
        Task::Close(_) => Some(Command::Quit),
        Task::Wait(w) => {
            let element = match &w.element {
                Some(we) => Some(resolved_element(we, vars)),
                None => None,
            };
            Some(Command::WaitFor { duration_ms: w.duration_ms, element })
        },
        Task::Screenshot(s) => {
            let element = match &s.element {
                Some(se) => Some(resolved_element(se, vars)),
                None => None,
            };
            Some(
                Command::TakeScreenshot {
                    path: crate::variables::resolve_variables(s.path.as_str(), vars),
                    element,
                },
            )
        },
        Task::Cookie(ck) => Some(
            Command::AddCookie {
                cookie_key: crate::variables::resolve_variables(ck.cookie_key.as_str(), vars),
                cookie_value: crate::variables::resolve_variables(ck.cookie_value.as_str(), vars),
                domain: crate::variables::resolve_variables(ck.domain.as_str(), vars),
                path: crate::variables::resolve_variables(ck.path.as_str(), vars),
            },
        ),
        Task::SetVars(_) => None,
        Task::Validate(v) => Some(
            Command::ReadValues {
                element: Element {
                    element_type: v.element.element_type,
                    value: v.element.value.clone(),
                },
                probes: v.probes(),
            },
        ),
    }
}

/// Whether an outcome has a shape the task's command can produce.
pub open spec fn outcome_fits(task: Task, outcome: Outcome) -> bool {
    match task {
        Task::Link(_) => outcome is Completed || outcome is ActionFailed,
        Task::Click(_) => outcome is Completed || outcome is NoElement || outcome
            is ActionFailed,
        Task::SendKey(_) => outcome is Completed || outcome is NoElement || outcome
            is ActionFailed,
        Task::Close(_) => outcome is Completed || outcome is ActionFailed,
        Task::Wait(w) => outcome is Completed || ((outcome is NoElement || outcome
            is ActionFailed) && w.element is Some),
        Task::Screenshot(_) => outcome is Completed || outcome is NoElement || outcome
            is ActionFailed,
        Task::Cookie(_) => outcome is Completed || outcome is ActionFailed,
        Task::SetVars(_) => outcome is Completed,
        Task::Validate(v) => outcome is NoElement || (outcome matches Outcome::ValuesRead {
            values,
        } && values@.len() == expects_weight(expects_desc(v.expects@))),
    }
}

/// Whether the outcome lets the task complete.
pub open spec fn apply_succeeds(task: Task, outcome: Outcome) -> bool {
    match outcome {
        Outcome::Completed => true,
        Outcome::ValuesRead { .. } => true,
        _ => false,
    }
}

/// Whether `r` is exactly what the task reports for this outcome under the
/// bindings `vars`: the completed task's record, or the error that the
/// failure maps to.
pub open spec fn apply_matches(
    task: Task,
    outcome: Outcome,
    vars: Map<Seq<char>, Seq<char>>,
    duration: u64,
    r: Result<TaskOk, TaskErr>,
) -> bool {
    match r {
        Ok(ok) => {
            &&& apply_succeeds(task, outcome)
            &&& ok.name@ == task.spec_name()
            &&& ok.task_type == task.kind()
            &&& ok.duration == duration
            &&& match task {
                Task::Validate(v) => outcome matches Outcome::ValuesRead { values } && (
                ok.result matches Some(rs) && results_view(rs@) == eval_all(
                    expects_desc(v.expects@),
                    outcomes_view(values@),
                    vars,
                ) && rs@.len() == values@.len()),
                _ => ok.result is None,
            }
        },
        Err(e) => {
            &&& !apply_succeeds(task, outcome)
            &&& e.task is None
            &&& match task {
                Task::Link(_) => e.message@ == "Unable to open link"@ && e.task_type == Some(
                    TaskTypes::LINK,
                ),
                Task::Click(_) => (match outcome {
                    Outcome::NoElement { message } => e.message@ == message@,
                    Outcome::ActionFailed { message } => e.message@ == message@,
                    _ => false,
                }) && e.task_type == Some(TaskTypes::CLICK),
                Task::SendKey(s) => (match outcome {
                    Outcome::NoElement { .. } => e.message@ == "Unable to find element - Type: "@
                        + s.element.element_type.spec_kind_label() + ", Value: "@
                        + s.element.value@,
                    Outcome::ActionFailed { .. } => e.message@ == "Unable to send keys - Type: "@
                        + s.element.element_type.spec_kind_label() + ", Value: "@
                        + s.element.value@,
                    _ => false,
                }) && e.task_type == Some(TaskTypes::SENDKEY),
                Task::Close(_) => (outcome matches Outcome::ActionFailed { message } && e.message@
                    == "Unable to close webdriver: "@ + message@) && e.task_type == Some(
                    TaskTypes::CLOSE,
                ),
                Task::Wait(w) => match outcome {
                    Outcome::NoElement { message } => e.message@ == message@ && e.task_type
                        == Some(TaskTypes::CLICK),
                    Outcome::ActionFailed { .. } => (w.element matches Some(we) && e.message@
                        == "Unable to find element - Type: "@ + we.element_type.spec_kind_label()
                        + ", Value: "@ + we.value@) && e.task_type == Some(TaskTypes::SENDKEY),
                    _ => false,
                },
                Task::Screenshot(_) => (match outcome {
                    Outcome::NoElement { message } => e.message@ == message@,
                    Outcome::ActionFailed { message } => e.message@
                        == "Unable to take a screenshot: "@ + message@,
                    _ => false,
                }) && e.task_type == Some(TaskTypes::SCREENSHOT),
                Task::Cookie(_) => (outcome matches Outcome::ActionFailed { message } && e.message@
                    == "Unable to add cookie: "@ + message@) && e.task_type == Some(
                    TaskTypes::COOKIE,
                ),
                Task::SetVars(_) => false,
                Task::Validate(_) => (outcome matches Outcome::NoElement { message } && e.message@
                    == message@) && e.task_type == Some(TaskTypes::VALIDATE),
            }
        },
    }
}

/// The bindings after a task completes: a SetVars task merges its own, any
/// other task leaves them as they were.
pub open spec fn vars_after(task: Task, old_vars: Map<Seq<char>, Seq<char>>, new_vars: Map<
    Seq<char>,
    Seq<char>,
>) -> bool {
    match task {
        Task::SetVars(sv) => new_vars == old_vars.union_prefer_right(sv.variables@),
        _ => new_vars == old_vars,
    }
}

/// Turns one task's outcome into its report, binding a SetVars task's
/// variables for the tasks after it.
pub fn apply_outcome(task: &Task, outcome: &Outcome, vars: &mut StrMap, duration: u64) -> (r:
    Result<TaskOk, TaskErr>)
    requires
        outcome_fits(*task, *outcome),
    ensures
        apply_matches(*task, *outcome, old(vars)@, duration, r),
        r is Ok ==> vars_after(*task, old(vars)@, final(vars)@),
        r is Err ==> final(vars)@ == old(vars)@,
{
    match task {
        Task::Link(l) => match outcome {
            Outcome::Completed => Ok(
                TaskOk {
                    name: l.name.clone(),
                    task_type: TaskTypes::LINK,
                    duration,
                    result: None,
                },
            ),
            _ => Err(
                TaskErr::new(
                    String::from_str("Unable to open link"),
                    Some(TaskTypes::LINK),
                    None,
                ),
            ),
        },
        Task::Click(k) => match outcome {
            Outcome::Completed => Ok(
                TaskOk {
                    name: k.name.clone(),
                    task_type: TaskTypes::CLICK,
                    duration,
                    result: None,
                },
            ),
            Outcome::NoElement { message } => Err(
                TaskErr::new(message.clone(), Some(TaskTypes::CLICK), None),
            ),
            Outcome::ActionFailed { message } => Err(
                TaskErr::new(message.clone(), Some(TaskTypes::CLICK), None),
            ),
            _ => unreached(),
        },
        Task::SendKey(s) => match outcome {
            Outcome::Completed => Ok(
                TaskOk {
                    name: s.name.clone(),
                    task_type: TaskTypes::SENDKEY,
                    duration,
                    result: None,
                },
            ),
            Outcome::NoElement { .. } => {
                let mut m = String::new();
                m.append("Unable to find element - Type: ");
                m.append(s.element.element_type.kind_label());
                m.append(", Value: ");
                m.append(s.element.value.as_str());
                proof {
                    assert(m@ =~= "Unable to find element - Type: "@
                        + s.element.element_type.spec_kind_label() + ", Value: "@
                        + s.element.value@);
                }
                Err(TaskErr::new(m, Some(TaskTypes::SENDKEY), None))
            },
            Outcome::ActionFailed { .. } => {
                let mut m = String::new();
                m.append("Unable to send keys - Type: ");
                m.append(s.element.element_type.kind_label());
                m.append(", Value: ");
                m.append(s.element.value.as_str());
                proof {
                    assert(m@ =~= "Unable to send keys - Type: "@
                        + s.element.element_type.spec_kind_label() + ", Value: "@
                        + s.element.value@);
                }
                Err(TaskErr::new(m, Some(TaskTypes::SENDKEY), None))
            },
            _ => unreached(),
        },
        Task::Close(c) => match outcome {
            Outcome::Completed => Ok(
                TaskOk {
                    name: c.name.clone(),
                    task_type: TaskTypes::CLOSE,
                    duration,
                    result: None,
                },
            ),
            Outcome::ActionFailed { message } => {
                let mut m = String::new();
                m.append("Unable to close webdriver: ");
                m.append(message.as_str());
                Err(TaskErr::new(m, Some(TaskTypes::CLOSE), None))
            },
            _ => unreached(),
        },
        Task::Wait(w) => match outcome {
            Outcome::Completed => Ok(
                TaskOk {
                    name: w.name.clone(),
                    task_type: TaskTypes::WAIT,
                    duration,
                    result: None,
                },
            ),
            Outcome::NoElement { message } => Err(
                TaskErr::new(message.clone(), Some(TaskTypes::CLICK), None),
            ),
            Outcome::ActionFailed { .. } => match &w.element {
                Some(we) => {
                    let mut m = String::new();
                    m.append("Unable to find element - Type: ");
                    m.append(we.element_type.kind_label());
                    m.append(", Value: ");
                    m.append(we.value.as_str());
                    proof {
                        assert(m@ =~= "Unable to find element - Type: "@
                            + we.element_type.spec_kind_label() + ", Value: "@ + we.value@);
                    }
                    Err(TaskErr::new(m, Some(TaskTypes::SENDKEY), None))
                },
                None => unreached(),
            },
            _ => unreached(),
        },
        Task::Screenshot(s) => match outcome {
            Outcome::Completed => Ok(
                TaskOk {
                    name: s.name.clone(),
                    task_type: TaskTypes::SCREENSHOT,
                    duration,
                    result: None,
                },
            ),
            Outcome::NoElement { message } => Err(
                TaskErr::new(message.clone(), Some(TaskTypes::SCREENSHOT), None),
            ),
            Outcome::ActionFailed { message } => {
                let mut m = String::new();
                m.append("Unable to take a screenshot: ");
                m.append(message.as_str());
                Err(TaskErr::new(m, Some(TaskTypes::SCREENSHOT), None))
            },
            _ => unreached(),
        },
        Task::Cookie(ck) => match outcome {
            Outcome::Completed => Ok(
                TaskOk {
                    name: ck.name.clone(),
                    task_type: TaskTypes::COOKIE,
                    duration,
                    result: None,
                },
            ),
            Outcome::ActionFailed { message } => {
                let mut m = String::new();
                m.append("Unable to add cookie: ");
                m.append(message.as_str());
                Err(TaskErr::new(m, Some(TaskTypes::COOKIE), None))
            },
            _ => unreached(),
        },
        Task::SetVars(sv) => {
            vars.merge_from(&sv.variables);
            Ok(
                TaskOk {
                    name: sv.name.clone(),
                    task_type: TaskTypes::SETVARIABLE,
                    duration,
                    result: None,
                },
            )
        },
        Task::Validate(v) => match outcome {
            Outcome::NoElement { message } => Err(
                TaskErr::new(message.clone(), Some(TaskTypes::VALIDATE), None),
            ),
            Outcome::ValuesRead { values } => {
                let results = v.evaluate(vars, values);
                Ok(
                    TaskOk {
                        name: v.name.clone(),
                        task_type: TaskTypes::VALIDATE,
                        duration,
                        result: Some(results),
                    },
                )
            },
            _ => unreached(),
        },
    }
}

/// Where a running suite stands: about to run a task, stopped on a
/// failure, or closed after its last task.
#[derive(Debug, Clone, Copy, PartialEq, Eq, Structural)]
pub enum RunStatus {
    Running,
    Failed,
    Closed,
}

/// What the caller must do after one step: go on with the next task, stop
/// because the suite is complete, or release the driver once and stop
/// because the task failed.
#[derive(Debug, Clone, Copy, PartialEq, Eq, Structural)]
pub enum StepAction {
    Continue,
    Finished,
    ReleaseAndStop,
}

/// One suite mid-run: its tasks, the position reached, the session's
/// variable bindings, the reports of the completed tasks, and the failure
/// that stopped it, if any.
#[derive(Debug)]
pub struct SuiteRun {
    pub tasks: Vec<Task>,
    pub index: usize,
    pub variables: StrMap,
    pub results: Vec<TaskOk>,
    pub error: Option<TaskErr>,
}

impl SuiteRun {
    /// The state the run is in.
    pub open spec fn status(&self) -> RunStatus {
        if self.error is Some {
            RunStatus::Failed
        } else if self.index < self.tasks@.len() {
            RunStatus::Running
        } else {
            RunStatus::Closed
        }
    }

    pub fn get_status(&self) -> (r: RunStatus)
        ensures
            r == self.status(),
    {
        if self.error.is_some() {
            RunStatus::Failed
        } else if self.index < self.tasks.len() {
            RunStatus::Running
        } else {
            RunStatus::Closed
        }
    }

    /// Starts a run at the first task, with the caller's variable
    /// overrides seeded in order.
    pub fn new(tasks: Vec<Task>, vars: Vec<(String, String)>) -> (r: SuiteRun)
        ensures
            r.tasks == tasks,
            r.index == 0,
            r.results@.len() == 0,
            r.error is None,
            r.variables@ == pairs_map(
                vars@.map_values(|p: (String, String)| (p.0@, p.1@)),
            ),
    {
        let mut variables = StrMap::new();
        let n = vars.len();
        let mut i: usize = 0;
        proof {
            assert(vars@.take(0).map_values(|p: (String, String)| (p.0@, p.1@)) =~= Seq::<
                (Seq<char>, Seq<char>),
            >::empty());
        }
        while i < n
            invariant
                n == vars@.len(),
                i <= n,
                variables.pairs() == vars@.take(i as int).map_values(
                    |p: (String, String)| (p.0@, p.1@),
                ),
            decreases n - i,
        {
            variables.add_variable(vars[i].0.as_str(), vars[i].1.as_str());
            proof {
                assert(variables.pairs() =~= vars@.take(i + 1).map_values(
                    |p: (String, String)| (p.0@, p.1@),
                ));
            }
            i = i + 1;
        }
        proof {
            assert(vars@.take(n as int) =~= vars@);
        }
        SuiteRun { tasks, index: 0, variables, results: Vec::new(), error: None }
    }

    /// The command for the task about to run; nothing when the run is over
    /// or the task needs no driver action.
    pub fn next_command(&self) -> (c: Option<Command>)
        ensures
            self.status() == RunStatus::Running ==> command_matches(
                self.tasks@[self.index as int],
                self.variables@,
                c,
            ),
            self.status() != RunStatus::Running ==> c is None,
    {
        if self.error.is_none() && self.index < self.tasks.len() {
            task_command(&self.tasks[self.index], &self.variables)
        } else {
            None
        }
    }

    /// Takes one step: turns the current task's outcome into its report.
    /// On success the run moves to the next task; on failure it stops, and
    /// the caller releases the driver once.
    pub fn advance(&mut self, outcome: &Outcome, duration: u64) -> (act: StepAction)
        requires
            old(self).status() == RunStatus::Running,
            outcome_fits(old(self).tasks@[old(self).index as int], *outcome),
        ensures
            final(self).tasks == old(self).tasks,
            ({
                let t = old(self).tasks@[old(self).index as int];
                if apply_succeeds(t, *outcome) {
                    &&& final(self).index == old(self).index + 1
                    &&& final(self).error is None
                    &&& final(self).results@.len() == old(self).results@.len() + 1
                    &&& final(self).results@.drop_last() == old(self).results@
                    &&& apply_matches(
                        t,
                        *outcome,
                        old(self).variables@,
                        duration,
                        Ok(final(self).results@.last()),
                    )
                    &&& vars_after(t, old(self).variables@, final(self).variables@)
                    &&& act == (if final(self).index == final(self).tasks@.len() {
                        StepAction::Finished
                    } else {
                        StepAction::Continue
                    })
                } else {
                    &&& final(self).index == old(self).index
                    &&& final(self).results == old(self).results
                    &&& final(self).variables@ == old(self).variables@
                    &&& final(self).error matches Some(e) && apply_matches(
                        t,
                        *outcome,
                        old(self).variables@,
                        duration,
                        Err(e),
                    )
                    &&& act == StepAction::ReleaseAndStop
                }
            }),
    {
        let r = apply_outcome(&self.tasks[self.index], outcome, &mut self.variables, duration);
        match r {
            Ok(ok) => {
                self.results.push(ok);
                let task_count = self.tasks.len();
                proof {
                    assert(old(self).status() == RunStatus::Running);
                    assert(!(old(self).error is Some));
                    assert(old(self).index < old(self).tasks@.len());
                    assert(self.index == old(self).index);
                    assert(self.tasks@.len() == task_count);
                }
                self.index = self.index + 1;
                proof {
                    assert(final(self).results@.drop_last() =~= old(self).results@);
                }
                if self.index == self.tasks.len() {
                    StepAction::Finished
                } else {
                    StepAction::Continue
                }
            },
            Err(e) => {
                self.error = Some(e);
                StepAction::ReleaseAndStop
            },
        }
    }
}

/// A validated suite, ready to run: its tasks in order and the reports
/// collected so far.
#[derive(Debug)]
pub struct Executor {
    pub results: Vec<TaskOk>,
    pub tasks: Vec<Task>,
}

impl Executor {
    /// Builds the task sequence of a document, refusing any document the
    /// pipeline refuses, before any driver session exists.
    pub fn validate_tasks(task_data: &TaskData) -> (r: Result<Executor, TaskErr>)
        ensures
            match r {
                Ok(ex) => ex.results@.len() == 0 && pipeline_ok(*task_data, ex.tasks@),
                Err(e) => pipeline_err(*task_data, e),
            },
    {
        let tasks = match to_task(task_data) {
            Ok(ts) => ts,
            Err(e) => {
                return Err(e);
            },
        };
        Ok(Executor { results: Vec::new(), tasks })
    }

    /// Starts the run of this suite with the caller's variable overrides.
    pub fn start(self, vars: Vec<(String, String)>) -> (r: SuiteRun)
        ensures
            r.tasks == self.tasks,
            r.index == 0,
            r.results@.len() == 0,
            r.error is None,
            r.variables@ == pairs_map(
                vars@.map_values(|p: (String, String)| (p.0@, p.1@)),
            ),
    {
        SuiteRun::new(self.tasks, vars)
    }
}

/// After a SetVars task binds a name, any later task that writes that name
/// as a placeholder observes the bound value: the substitution of the
/// placeholder under the merged bindings is exactly what SetVars bound.
pub proof fn lemma_set_vars_observed(
    sv: crate::tasks::set_variable::SetVars,
    old_vars: Map<Seq<char>, Seq<char>>,
    new_vars: Map<Seq<char>, Seq<char>>,
    name: Seq<char>,
)
    requires
        vars_after(Task::SetVars(sv), old_vars, new_vars),
        sv.variables@.contains_key(name),
        forall|j: int| 0 <= j < name.len() ==> ident_char(name[j]),
    ensures
        resolve_spec(seq!['{'] + name + seq!['}'], new_vars) == sv.variables@[name],
{
    assert(new_vars.contains_key(name) && new_vars[name] == sv.variables@[name]);
    lemma_resolve_single_placeholder(name, new_vars);
}

} // verus!
