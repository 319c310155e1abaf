//! What holds between the store's operations, proved over the model that
//! their contracts are written in.

use vstd::prelude::*;
use crate::model::{
    contains_id, created, deleted, first_with_id, get, id_not_repeated, ids_unique,
    ids_within_count, lemma_contains_has_first, lemma_delete_absent, lemma_deleted_len,
    lemma_deleted_push, lemma_first_with_id, new_task, seed_tasks, updated,
};
use crate::task::TaskView;

verus! {

/// The store after one creation for each title of `titles`, in order.
pub open spec fn created_all(s: Seq<TaskView>, titles: Seq<Seq<char>>) -> Seq<TaskView>
    decreases titles.len(),
{
    if titles.len() == 0 {
        s
    } else {
        created(created_all(s, titles.drop_last()), titles.last())
    }
}

/// The empty store and the seeded store have distinct ids, none of them
/// beyond the number of tasks.
pub proof fn lemma_fresh_stores()
    ensures
        ids_unique(Seq::<TaskView>::empty()),
        ids_within_count(Seq::<TaskView>::empty()),
        ids_unique(seed_tasks()),
        ids_within_count(seed_tasks()),
{
}

/// In a store where no id exceeds the number of tasks, a creation returns an
/// id that no task of the store has yet, and leaves a store of the same kind;
/// ids that were distinct before are distinct after.
pub proof fn lemma_create_returns_fresh_id(s: Seq<TaskView>, title: Seq<char>)
    requires
        ids_within_count(s),
    ensures
        !contains_id(s, new_task(s, title).id),
        ids_within_count(created(s, title)),
        ids_unique(s) ==> ids_unique(created(s, title)),
{
}

/// A run of creations adds one task per title and keeps what
/// `lemma_create_returns_fresh_id` keeps.
proof fn lemma_created_all_keeps(s: Seq<TaskView>, titles: Seq<Seq<char>>)
    requires
        ids_within_count(s),
    ensures
        created_all(s, titles).len() == s.len() + titles.len(),
        ids_within_count(created_all(s, titles)),
        ids_unique(s) ==> ids_unique(created_all(s, titles)),
    decreases titles.len(),
{
    if titles.len() > 0 {
        lemma_created_all_keeps(s, titles.drop_last());
        lemma_create_returns_fresh_id(created_all(s, titles.drop_last()), titles.last());
    }
}

/// For every run of creations on a store where no id exceeds the number of
/// tasks, such as the empty and the seeded store: each creation returns an id
/// that no task of the store has at that time. The run adds one task per
/// title, and ids that were distinct before it are distinct after it.
pub proof fn lemma_creations_return_fresh_ids(s: Seq<TaskView>, titles: Seq<Seq<char>>)
    requires
        ids_within_count(s),
    ensures
        forall|k: int|
            0 <= k < titles.len() ==> {
                let before = #[trigger] created_all(s, titles.take(k));
                !contains_id(before, new_task(before, titles[k]).id)
            },
        created_all(s, titles).len() == s.len() + titles.len(),
        ids_unique(s) ==> ids_unique(created_all(s, titles)),
{
    assert forall|k: int| 0 <= k < titles.len() implies {
        let before = #[trigger] created_all(s, titles.take(k));
        !contains_id(before, new_task(before, titles[k]).id)
    } by {
        lemma_created_all_keeps(s, titles.take(k));
        lemma_create_returns_fresh_id(created_all(s, titles.take(k)), titles[k]);
    }
    lemma_created_all_keeps(s, titles);
}

/// Where no older task has the id that a creation returns, a lookup of that
/// id after the creation finds the created task: the given title, not
/// completed.
pub proof fn lemma_get_after_create(s: Seq<TaskView>, title: Seq<char>)
    requires
        !contains_id(s, new_task(s, title).id),
    ensures
        get(created(s, title), new_task(s, title).id) == Some(new_task(s, title)),
{
    let task = new_task(s, title);
    let after = created(s, title);
    assert forall|j: int| 0 <= j < s.len() implies (#[trigger] after[j]).id != task.id by {
        assert(after[j] == s[j]);
    }
    lemma_first_with_id(after, task.id, s.len() as int);
}

/// After a creation, a lookup of the returned id always finds a task; where an
/// older task has that id, it finds the older one.
pub proof fn lemma_get_after_create_finds(s: Seq<TaskView>, title: Seq<char>)
    ensures
        get(created(s, title), new_task(s, title).id) is Some,
        contains_id(s, new_task(s, title).id) ==> get(created(s, title), new_task(s, title).id)
            == get(s, new_task(s, title).id),
{
    let task = new_task(s, title);
    let after = created(s, title);
    assert(after[s.len() as int].id == task.id);
    if contains_id(s, task.id) {
        lemma_contains_has_first(s, task.id);
        let i = first_with_id(s, task.id);
        assert forall|j: int| 0 <= j < i implies (#[trigger] after[j]).id != task.id by {
            assert(after[j] == s[j]);
        }
        lemma_first_with_id(after, task.id, i);
    }
}

/// An update of an id that no task has leaves the store as it was.
pub proof fn lemma_update_absent(s: Seq<TaskView>, id: nat, title: Seq<char>, completed: bool)
    requires
        !contains_id(s, id),
    ensures
        updated(s, id, title, completed) == s,
{
}

/// An update changes no id and no position: the store keeps its length, and
/// each place keeps its id.
pub proof fn lemma_update_keeps_ids(s: Seq<TaskView>, id: nat, title: Seq<char>, completed: bool)
    ensures
        updated(s, id, title, completed).len() == s.len(),
        forall|i: int|
            0 <= i < s.len() ==> (#[trigger] updated(s, id, title, completed)[i]).id == s[i].id,
        ids_unique(s) ==> ids_unique(updated(s, id, title, completed)),
{
    let after = updated(s, id, title, completed);
    if contains_id(s, id) {
        lemma_contains_has_first(s, id);
    }
    if ids_unique(s) {
        assert forall|i: int, j: int|
            0 <= i < after.len() && 0 <= j < after.len() && i != j implies (#[trigger] after[i]).id
            != (#[trigger] after[j]).id by {
            assert(after[i].id == s[i].id);
            assert(after[j].id == s[j].id);
        }
    }
}

/// After an update of an id that some task has, a lookup of that id finds the
/// new title and flag.
pub proof fn lemma_get_after_update(s: Seq<TaskView>, id: nat, title: Seq<char>, completed: bool)
    requires
        contains_id(s, id),
    ensures
        get(updated(s, id, title, completed), id) == Some(TaskView { id, title, completed }),
{
    lemma_contains_has_first(s, id);
    let i = first_with_id(s, id);
    let after = updated(s, id, title, completed);
    assert forall|j: int| 0 <= j < i implies (#[trigger] after[j]).id != id by {
        assert(after[j] == s[j]);
    }
    lemma_first_with_id(after, id, i);
}

/// After a deletion of `id`, no task has `id`: a lookup of it finds nothing.
pub proof fn lemma_get_after_delete(s: Seq<TaskView>, id: nat)
    ensures
        !contains_id(deleted(s, id), id),
        get(deleted(s, id), id) is None,
    decreases s.len(),
{
    if s.len() == 0 {
        lemma_deleted_len(s, id);
    } else {
        let front = s.drop_last();
        lemma_get_after_delete(front, id);
        lemma_deleted_push(front, s.last(), id);
        assert(front.push(s.last()) =~= s);
    }
}

/// A deletion of `id` keeps exactly the tasks whose id is not `id`.
pub proof fn lemma_deleted_contains(s: Seq<TaskView>, id: nat, task: TaskView)
    ensures
        deleted(s, id).contains(task) <==> s.contains(task) && task.id != id,
    decreases s.len(),
{
    if s.len() == 0 {
        lemma_deleted_len(s, id);
    } else {
        let front = s.drop_last();
        let last = s.last();
        lemma_deleted_contains(front, id, task);
        lemma_deleted_push(front, last, id);
        assert(front.push(last) =~= s);
    }
}

/// A deletion leaves distinct ids distinct.
pub proof fn lemma_delete_keeps_unique(s: Seq<TaskView>, id: nat)
    requires
        ids_unique(s),
    ensures
        ids_unique(deleted(s, id)),
    decreases s.len(),
{
    if s.len() == 0 {
        lemma_deleted_len(s, id);
    } else {
        let front = s.drop_last();
        let last = s.last();
        assert(ids_unique(front)) by {
            assert forall|i: int, j: int|
                0 <= i < front.len() && 0 <= j < front.len() && i != j implies (
            #[trigger] front[i]).id != (#[trigger] front[j]).id by {
                assert(front[i] == s[i]);
                assert(front[j] == s[j]);
            }
        }
        lemma_delete_keeps_unique(front, id);
        lemma_deleted_push(front, last, id);
        assert(front.push(last) =~= s);
        let kept = deleted(front, id);
        assert forall|i: int| 0 <= i < kept.len() implies (#[trigger] kept[i]).id != last.id by {
            lemma_deleted_contains(front, id, kept[i]);
        }
    }
}

/// A creation lengthens the store by exactly one task.
pub proof fn lemma_create_len(s: Seq<TaskView>, title: Seq<char>)
    ensures
        created(s, title).len() == s.len() + 1,
{
}

/// A deletion of an id that exactly one task has removes that task and no
/// other: the store is shorter by exactly one.
pub proof fn lemma_delete_len(s: Seq<TaskView>, id: nat)
    requires
        contains_id(s, id),
        id_not_repeated(s, id),
    ensures
        deleted(s, id) == s.remove(first_with_id(s, id)),
        deleted(s, id).len() == s.len() - 1,
    decreases s.len(),
{
    lemma_contains_has_first(s, id);
    let i = first_with_id(s, id);
    let front = s.drop_last();
    let last = s.last();
    lemma_deleted_push(front, last, id);
    assert(front.push(last) =~= s);
    if i == s.len() - 1 {
        assert(!contains_id(front, id));
        lemma_delete_absent(front, id);
    } else {
        assert(last.id != id);
        assert(id_not_repeated(front, id)) by {
            assert forall|a: int, b: int| 0 <= a < b < front.len() implies !((
            #[trigger] front[a]).id == id && (#[trigger] front[b]).id == id) by {
                assert(front[a] == s[a]);
                assert(front[b] == s[b]);
            }
        }
        lemma_delete_len(front, id);
        assert forall|j: int| 0 <= j < i implies (#[trigger] front[j]).id != id by {
            assert(front[j] == s[j]);
        }
        lemma_first_with_id(front, id, i);
    }
}

} // verus!
