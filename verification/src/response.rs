//! What a handler answers: a status and a body, as plain values.

use vstd::prelude::*;
use crate::task::{Task, TaskView};

verus! {

/// The outcome class of a response.
#[derive(Clone, Copy, Debug, PartialEq, Eq, Structural)]
pub enum Status {
    /// The request was served.
    Success,
    /// The request made a new task.
    Created,
    /// The request named a task that the store does not hold.
    NotFound,
}

impl Status {
    /// The three-digit code that the status travels as.
    pub open spec fn spec_code(self) -> u16 {
        match self {
            Status::Success => 200,
            Status::Created => 201,
            Status::NotFound => 404,
        }
    }

    /// The three-digit code that the status travels as.
    #[verifier::when_used_as_spec(spec_code)]
    pub fn code(self) -> (code: u16)
        ensures
            code == self.spec_code(),
    {
        match self {
            Status::Success => 200,
            Status::Created => 201,
            Status::NotFound => 404,
        }
    }
}

/// What a response carries.
#[derive(Debug)]
pub enum Body {
    /// Plain text.
    Text(String),
    /// One task.
    Task(Task),
    /// A list of tasks, oldest first.
    Tasks(Vec<Task>),
}

/// A body as a mathematical value.
pub enum BodyView {
    Text(Seq<char>),
    Task(TaskView),
    Tasks(Seq<TaskView>),
}

impl View for Body {
    type V = BodyView;

    open spec fn view(&self) -> BodyView {
        match self {
            Body::Text(text) => BodyView::Text(text@),
            Body::Task(task) => BodyView::Task(task@),
            Body::Tasks(tasks) => BodyView::Tasks(tasks.deep_view()),
        }
    }
}

/// The answer to one request.
#[derive(Debug)]
pub struct Response {
    pub status: Status,
    pub body: Body,
}

/// A response as a mathematical value.
pub struct ResponseView {
    pub status: Status,
    pub body: BodyView,
}

impl View for Response {
    type V = ResponseView;

    open spec fn view(&self) -> ResponseView {
        ResponseView { status: self.status, body: self.body@ }
    }
}

} // verus!
