//! The error a task raises, carrying the offending declaration where known.

use vstd::prelude::*;
use vstd::string::*;
use crate::tasks::TaskTypes;
use crate::value::ValueMap;

verus! {

/// Why a task could not be built or run.
#[derive(Debug, PartialEq, Eq)]
pub struct TaskErr {
    pub message: String,
    pub task_type: Option<TaskTypes>,
    pub task: Option<ValueMap>,
}

impl TaskErr {
    pub fn new(message: String, task_type: Option<TaskTypes>, task: Option<ValueMap>) -> (r:
        TaskErr)
        ensures
            r.message == message,
            r.task_type == task_type,
            r.task == task,
    {
        TaskErr { message, task_type, task }
    }

    pub fn get_message(&self) -> (r: &str)
        ensures
            r@ == self.message@,
    {
        self.message.as_str()
    }

    pub fn set_task(&mut self, task: Option<ValueMap>)
        ensures
            final(self).message == old(self).message,
            final(self).task_type == old(self).task_type,
            final(self).task == task,
    {
        self.task = task;
    }

    /// The error as one line naming the kind and the message, for the
    /// caller's reporting.
    pub fn display_string(&self) -> (r: String)
        ensures
            r@ == match self.task_type {
                Some(t) => t.spec_kind_label() + ": "@ + self.message@,
                None => "NONE: "@ + self.message@,
            },
    {
        let mut s = String::new();
        match &self.task_type {
            Some(t) => s.append(t.kind_label()),
            None => s.append("NONE"),
        }
        s.append(": ");
        s.append(self.message.as_str());
        proof {
            match self.task_type {
                Some(t) => {
                    assert(s@ =~= t.spec_kind_label() + ": "@ + self.message@);
                },
                None => {
                    reveal_strlit("NONE");
                    reveal_strlit(": ");
                    reveal_strlit("NONE: ");
                    assert(s@ =~= "NONE: "@ + self.message@);
                },
            }
        }
        s
    }
}

} // verus!
