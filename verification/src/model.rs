//! The store as a mathematical value: a sequence of task views in insertion
//! order, and what each operation makes of it.

use vstd::prelude::*;
use crate::task::TaskView;

verus! {

/// Some task of `s` carries `id`.
pub open spec fn contains_id(s: Seq<TaskView>, id: nat) -> bool {
    exists|i: int| 0 <= i < s.len() && (#[trigger] s[i]).id == id
}

/// Position `i` holds a task with `id`, and no earlier position does.
pub open spec fn is_first_with_id(s: Seq<TaskView>, id: nat, i: int) -> bool {
    &&& 0 <= i < s.len()
    &&& s[i].id == id
    &&& forall|j: int| 0 <= j < i ==> (#[trigger] s[j]).id != id
}

/// The position of the first task with `id`; meaningful where one exists.
pub open spec fn first_with_id(s: Seq<TaskView>, id: nat) -> int {
    choose|i: int| is_first_with_id(s, id, i)
}

/// No two positions of `s` share an id.
pub open spec fn ids_unique(s: Seq<TaskView>) -> bool {
    forall|i: int, j: int|
        0 <= i < s.len() && 0 <= j < s.len() && i != j ==> (#[trigger] s[i]).id != (#[trigger] s[j]).id
}

/// `id` occurs at no two positions of `s`.
pub open spec fn id_not_repeated(s: Seq<TaskView>, id: nat) -> bool {
    forall|i: int, j: int|
        0 <= i < j < s.len() ==> !((#[trigger] s[i]).id == id && (#[trigger] s[j]).id == id)
}

/// No id of `s` exceeds the number of tasks in `s`.
pub open spec fn ids_within_count(s: Seq<TaskView>) -> bool {
    forall|i: int| 0 <= i < s.len() ==> (#[trigger] s[i]).id <= s.len()
}

/// The two tasks every store starts with.
pub open spec fn seed_tasks() -> Seq<TaskView> {
    seq![
        TaskView { id: 1, title: "Learn Rust"@, completed: false },
        TaskView { id: 2, title: "Build an API"@, completed: false },
    ]
}

/// The task that a creation with `title` adds to `s`: its id is one more than
/// the number of tasks in `s`, and it is not completed.
pub open spec fn new_task(s: Seq<TaskView>, title: Seq<char>) -> TaskView {
    TaskView { id: s.len() + 1, title, completed: false }
}

/// `s` after a creation with `title`.
pub open spec fn created(s: Seq<TaskView>, title: Seq<char>) -> Seq<TaskView> {
    s.push(new_task(s, title))
}

/// The first task of `s` with `id`, if there is one.
pub open spec fn get(s: Seq<TaskView>, id: nat) -> Option<TaskView> {
    if contains_id(s, id) {
        Some(s[first_with_id(s, id)])
    } else {
        None
    }
}

/// `s` after an update of `id`: the first task with `id` has the new title and
/// flag and keeps its id and its place; without such a task `s` is unchanged.
pub open spec fn updated(s: Seq<TaskView>, id: nat, title: Seq<char>, completed: bool) -> Seq<
    TaskView,
> {
    if contains_id(s, id) {
        s.update(first_with_id(s, id), TaskView { id, title, completed })
    } else {
        s
    }
}

/// `s` after a deletion of `id`: every task with `id` is gone, the others keep
/// their order.
pub open spec fn deleted(s: Seq<TaskView>, id: nat) -> Seq<TaskView> {
    s.filter(|t: TaskView| t.id != id)
}

/// A first position is the only first position, and it is the one that
/// `first_with_id` names.
pub proof fn lemma_first_with_id(s: Seq<TaskView>, id: nat, i: int)
    requires
        is_first_with_id(s, id, i),
    ensures
        contains_id(s, id),
        first_with_id(s, id) == i,
{
}

/// Where some task has `id`, `first_with_id` names the first such position.
pub proof fn lemma_contains_has_first(s: Seq<TaskView>, id: nat)
    requires
        contains_id(s, id),
    ensures
        is_first_with_id(s, id, first_with_id(s, id)),
    decreases s.len(),
{
    let front = s.drop_last();
    if contains_id(front, id) {
        lemma_contains_has_first(front, id);
        let i = first_with_id(front, id);
        assert forall|j: int| 0 <= j < i implies (#[trigger] s[j]).id != id by {
            assert(s[j] == front[j]);
        }
        assert(is_first_with_id(s, id, i));
    } else {
        assert forall|j: int| 0 <= j < s.len() - 1 implies (#[trigger] s[j]).id != id by {
            assert(front[j] == s[j]);
        }
        assert(is_first_with_id(s, id, s.len() - 1));
    }
}

/// Deleting from a store with one more task at its end: the task stays unless
/// it has the id.
pub proof fn lemma_deleted_push(s: Seq<TaskView>, t: TaskView, id: nat)
    ensures
        deleted(s.push(t), id) == if t.id != id {
            deleted(s, id).push(t)
        } else {
            deleted(s, id)
        },
{
    reveal(Seq::filter);
    assert(s.push(t).drop_last() =~= s);
}

/// A deletion never lengthens the store, and keeps its length exactly where
/// no task has the id.
pub proof fn lemma_deleted_len(s: Seq<TaskView>, id: nat)
    ensures
        deleted(s, id).len() <= s.len(),
        deleted(s, id).len() == s.len() <==> !contains_id(s, id),
    decreases s.len(),
{
    if s.len() == 0 {
        reveal(Seq::filter);
    } else {
        let front = s.drop_last();
        let last = s.last();
        lemma_deleted_len(front, id);
        lemma_deleted_push(front, last, id);
        assert(front.push(last) =~= s);
    }
}

/// A deletion of an id that no task has leaves the store as it was.
pub proof fn lemma_delete_absent(s: Seq<TaskView>, id: nat)
    requires
        !contains_id(s, id),
    ensures
        deleted(s, id) == s,
    decreases s.len(),
{
    if s.len() == 0 {
        lemma_deleted_len(s, id);
    } else {
        let front = s.drop_last();
        let last = s.last();
        assert(!contains_id(front, id));
        lemma_delete_absent(front, id);
        lemma_deleted_push(front, last, id);
        assert(front.push(last) =~= s);
    }
}

} // verus!
