//! The request handlers: each maps the plain values of one request to one
//! store operation and one response.

use vstd::prelude::*;
use crate::model;
use crate::response::{Body, BodyView, Response, ResponseView, Status};
use crate::store::TaskStore;
use crate::task::{CreateTaskRequest, Task, TaskView};
use crate::text;

verus! {

/// The response that reports that no task has `id`.
pub open spec fn not_found(id: nat) -> ResponseView {
    ResponseView { status: Status::NotFound, body: BodyView::Text(text::not_found_text(id)) }
}

/// The response that carries one task.
pub open spec fn with_task(status: Status, task: TaskView) -> ResponseView {
    ResponseView { status, body: BodyView::Task(task) }
}

/// Answers the health check.
pub fn health_check() -> (response: Response)
    ensures
        response@ == (ResponseView {
            status: Status::Success,
            body: BodyView::Text(text::healthy_text()),
        }),
{
    Response { status: Status::Success, body: Body::Text(text::healthy_message()) }
}

/// Lists every task, oldest first.
pub fn get_tasks(store: &TaskStore) -> (response: Response)
    ensures
        response@ == (ResponseView { status: Status::Success, body: BodyView::Tasks(store@) }),
{
    Response { status: Status::Success, body: Body::Tasks(store.list()) }
}

/// Looks one task up by its id.
pub fn get_task_by_id(task_id: u64, store: &TaskStore) -> (response: Response)
    ensures
        response@ == match model::get(store@, task_id as nat) {
            Some(task) => with_task(Status::Success, task),
            None => not_found(task_id as nat),
        },
{
    match store.get(task_id) {
        Some(task) => Response { status: Status::Success, body: Body::Task(task.clone()) },
        None => Response {
            status: Status::NotFound,
            body: Body::Text(text::not_found_message(task_id)),
        },
    }
}

/// Creates a task from the request's title and answers with the new task.
pub fn create_task(store: &mut TaskStore, req: &CreateTaskRequest) -> (response: Response)
    ensures
        final(store)@ == model::created(old(store)@, req.title@),
        response@ == with_task(Status::Created, model::new_task(old(store)@, req.title@)),
{
    let new_task = store.create(req.title.clone());
    Response { status: Status::Created, body: Body::Task(new_task) }
}

/// Overwrites the title and the flag of the task with `task_id` by those of
/// the request; the id in the request's body is not read.
pub fn update_task(task_id: u64, store: &mut TaskStore, req: &Task) -> (response: Response)
    ensures
        final(store)@ == model::updated(old(store)@, task_id as nat, req.title@, req.completed),
        !model::contains_id(old(store)@, task_id as nat) ==> final(store)@ == old(store)@,
        response@ == if model::contains_id(old(store)@, task_id as nat) {
            with_task(
                Status::Success,
                TaskView { id: task_id as nat, title: req.title@, completed: req.completed },
            )
        } else {
            not_found(task_id as nat)
        },
{
    match store.update(task_id, req.title.clone(), req.completed) {
        Some(task) => Response { status: Status::Success, body: Body::Task(task) },
        None => Response {
            status: Status::NotFound,
            body: Body::Text(text::not_found_message(task_id)),
        },
    }
}

/// Deletes the task with `task_id` and reports whether there was one.
pub fn delete_task(task_id: u64, store: &mut TaskStore) -> (response: Response)
    ensures
        final(store)@ == model::deleted(old(store)@, task_id as nat),
        !model::contains_id(old(store)@, task_id as nat) ==> final(store)@ == old(store)@,
        response@ == if model::contains_id(old(store)@, task_id as nat) {
            ResponseView {
                status: Status::Success,
                body: BodyView::Text(text::deleted_text(task_id as nat)),
            }
        } else {
            not_found(task_id as nat)
        },
{
    if store.delete(task_id) {
        Response { status: Status::Success, body: Body::Text(text::deleted_message(task_id)) }
    } else {
        Response { status: Status::NotFound, body: Body::Text(text::not_found_message(task_id)) }
    }
}

} // verus!
