//! The task record.

use vstd::prelude::*;

verus! {

/// One to-do record.
#[derive(Debug, PartialEq, Eq)]
pub struct Task {
    /// The number the store gave the task when it was created.
    pub id: u64,
    /// What is to be done.
    pub description: String,
    /// Whether the task has been completed.
    pub done: bool,
    /// The date recorded with the task, as text.
    pub due_date: String,
}

/// A task as contracts see it.
pub ghost struct TaskView {
    pub id: nat,
    pub description: Seq<char>,
    pub done: bool,
    pub due_date: Seq<char>,
}

impl View for Task {
    type V = TaskView;

    open spec fn view(&self) -> TaskView {
        TaskView {
            id: self.id as nat,
            description: self.description@,
            done: self.done,
            due_date: self.due_date@,
        }
    }
}

impl Clone for Task {
    fn clone(&self) -> (r: Self)
        ensures
            r == *self,
    {
        Task {
            id: self.id,
            description: self.description.clone(),
            done: self.done,
            due_date: self.due_date.clone(),
        }
    }
}

/// The views of a sequence of tasks, in the same order.
pub open spec fn views(tasks: Seq<Task>) -> Seq<TaskView> {
    Seq::new(tasks.len(), |i: int| tasks[i]@)
}

} // verus!
