//! The task record and its mathematical view.

use vstd::prelude::*;

verus! {

/// What a task is, as a mathematical value.
pub struct TaskView {
    pub id: nat,
    pub title: Seq<char>,
    pub completed: bool,
}

/// An identified, titled, completable record.
#[derive(Debug)]
pub struct Task {
    pub id: u64,
    pub title: String,
    pub completed: bool,
}

impl View for Task {
    type V = TaskView;

    open spec fn view(&self) -> TaskView {
        TaskView { id: self.id as nat, title: self.title@, completed: self.completed }
    }
}

impl DeepView for Task {
    type V = TaskView;

    open spec fn deep_view(&self) -> TaskView {
        self@
    }
}

impl Clone for Task {
    fn clone(&self) -> (res: Self)
        ensures
            res == *self,
    {
        Task { id: self.id, title: self.title.clone(), completed: self.completed }
    }
}

/// The body of a request to create a task.
#[derive(Debug)]
pub struct CreateTaskRequest {
    pub title: String,
}

} // verus!
