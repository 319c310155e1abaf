//! The task store: the one stateful component.

use vstd::prelude::*;
use crate::model;
use crate::task::{Task, TaskView};

verus! {

/// An ordered collection of tasks, oldest first.
///
/// The store is an owned value. Whoever shares it between threads guards it
/// with a lock and holds the lock for the length of one operation.
///
/// Ids come from the number of tasks held, not from a counter. They stay
/// distinct as long as nothing is deleted; a creation after a deletion can
/// hand out an id that a task still has. A lookup or an update then reaches
/// the oldest task with the id, and a deletion removes all of them.
pub struct TaskStore {
    tasks: Vec<Task>,
}

impl View for TaskStore {
    type V = Seq<TaskView>;

    closed spec fn view(&self) -> Seq<TaskView> {
        self.tasks.deep_view()
    }
}

impl TaskStore {
    /// A store without tasks.
    pub fn new() -> (store: Self)
        ensures
            store@ == Seq::<TaskView>::empty(),
    {
        TaskStore { tasks: Vec::new() }
    }

    /// A store with its two starting tasks, ids 1 and 2, neither completed.
    pub fn seeded() -> (store: Self)
        ensures
            store@ == model::seed_tasks(),
    {
        let mut tasks: Vec<Task> = Vec::new();
        tasks.push(Task { id: 1, title: "Learn Rust".to_string(), completed: false });
        tasks.push(Task { id: 2, title: "Build an API".to_string(), completed: false });
        TaskStore { tasks }
    }

    /// A copy of every task, oldest first.
    pub fn list(&self) -> (tasks: Vec<Task>)
        ensures
            tasks.deep_view() == self@,
    {
        self.tasks.clone()
    }

    /// The number of tasks in the store.
    pub fn len(&self) -> (n: usize)
        ensures
            n == self@.len(),
    {
        self.tasks.len()
    }

    /// Appends a task with the given title, not completed, whose id is the
    /// number of tasks before the call plus one, and returns a copy of it.
    pub fn create(&mut self, title: String) -> (task: Task)
        ensures
            final(self)@ == model::created(old(self)@, title@),
            task@ == model::new_task(old(self)@, title@),
    {
        let count = self.tasks.len();
        let new_id = (count as u64).wrapping_add(1);
        let task = Task { id: new_id, title, completed: false };
        self.tasks.push(task.clone());
        proof {
            // The vector holds `count + 1` tasks now, so the sum did not wrap.
            assert(self.tasks.len() == count + 1);
        }
        task
    }

    /// The position of the first task with `id`, if there is one.
    fn position(&self, id: u64) -> (found: Option<usize>)
        ensures
            match found {
                Some(i) => model::is_first_with_id(self@, id as nat, i as int),
                None => !model::contains_id(self@, id as nat),
            },
    {
        let mut i: usize = 0;
        while i < self.tasks.len()
            invariant
                i <= self.tasks.len(),
                forall|j: int| 0 <= j < i ==> (#[trigger] self@[j]).id != id,
            decreases self.tasks.len() - i,
        {
            if self.tasks[i].id == id {
                return Some(i);
            }
            i += 1;
        }
        None
    }

    /// The first task with `id`, oldest first, or `None` where no task has it.
    pub fn get(&self, id: u64) -> (found: Option<&Task>)
        ensures
            match found {
                Some(task) => model::get(self@, id as nat) == Some(task@),
                None => model::get(self@, id as nat) is None,
            },
    {
        match self.position(id) {
            Some(i) => {
                proof {
                    model::lemma_first_with_id(self@, id as nat, i as int);
                }
                Some(&self.tasks[i])
            },
            None => None,
        }
    }

    /// Gives the first task with `id` the new title and flag, in place, and
    /// returns a copy of it. Where no task has `id`, the store stays as it is
    /// and the result is `None`.
    pub fn update(&mut self, id: u64, title: String, completed: bool) -> (changed: Option<Task>)
        ensures
            final(self)@ == model::updated(old(self)@, id as nat, title@, completed),
            !model::contains_id(old(self)@, id as nat) ==> final(self)@ == old(self)@,
            match changed {
                Some(task) => model::contains_id(old(self)@, id as nat) && task@ == (TaskView {
                    id: id as nat,
                    title: title@,
                    completed,
                }),
                None => !model::contains_id(old(self)@, id as nat),
            },
    {
        match self.position(id) {
            Some(i) => {
                proof {
                    model::lemma_first_with_id(self@, id as nat, i as int);
                }
                let task = &mut self.tasks[i];
                task.title = title;
                task.completed = completed;
                Some(task.clone())
            },
            None => None,
        }
    }

    /// Removes every task with `id`, keeping the others in order, and says
    /// whether the store lost a task.
    pub fn delete(&mut self, id: u64) -> (removed: bool)
        ensures
            final(self)@ == model::deleted(old(self)@, id as nat),
            removed == model::contains_id(old(self)@, id as nat),
            !removed ==> final(self)@ == old(self)@,
    {
        let initial_len = self.tasks.len();
        let mut all: Vec<Task> = Vec::new();
        std::mem::swap(&mut self.tasks, &mut all);
        let ghost before = old(self)@;
        let ghost items = all@;
        for task in it: all
            invariant
                it.seq() == items,
                before.len() == items.len(),
                forall|i: int| 0 <= i < items.len() ==> before[i] == (#[trigger] items[i])@,
                self.tasks.deep_view() == model::deleted(before.take(it.index()), id as nat),
        {
            proof {
                let k = it.index();
                assert(before.take(k + 1) =~= before.take(k).push(task@));
                model::lemma_deleted_push(before.take(k), task@, id as nat);
            }
            if task.id != id {
                self.tasks.push(task);
            }
        }
        proof {
            assert(before.take(before.len() as int) =~= before);
            model::lemma_deleted_len(before, id as nat);
            if !model::contains_id(before, id as nat) {
                model::lemma_delete_absent(before, id as nat);
            }
        }
        self.tasks.len() < initial_len
    }
}

} // verus!
