use task_api::store::TaskStore;
use task_api::task::Task;

fn ids(store: &TaskStore) -> Vec<u64> {
    store.list().iter().map(|t| t.id).collect()
}

fn titles(store: &TaskStore) -> Vec<String> {
    store.list().iter().map(|t| t.title.clone()).collect()
}

fn assert_task(task: &Task, id: u64, title: &str, completed: bool) {
    assert_eq!(task.id, id);
    assert_eq!(task.title, title);
    assert_eq!(task.completed, completed);
}

#[test]
fn new_store_is_empty() {
    let store = TaskStore::new();
    assert_eq!(store.len(), 0);
    assert!(store.list().is_empty());
    assert!(store.get(1).is_none());
}

#[test]
fn seeded_store_holds_the_two_starting_tasks() {
    let store = TaskStore::seeded();
    let tasks = store.list();
    assert_eq!(tasks.len(), 2);
    assert_task(&tasks[0], 1, "Learn Rust", false);
    assert_task(&tasks[1], 2, "Build an API", false);
    assert_eq!(store.len(), 2);
}

#[test]
fn create_assigns_count_plus_one() {
    let mut store = TaskStore::new();
    let first = store.create("a".to_string());
    assert_task(&first, 1, "a", false);
    let second = store.create("b".to_string());
    assert_task(&second, 2, "b", false);

    let mut seeded = TaskStore::seeded();
    let third = seeded.create("Buy milk".to_string());
    assert_task(&third, 3, "Buy milk", false);
}

#[test]
fn create_appends_at_the_end() {
    let mut store = TaskStore::seeded();
    store.create("third".to_string());
    store.create("fourth".to_string());
    assert_eq!(ids(&store), vec![1, 2, 3, 4]);
    assert_eq!(titles(&store), vec!["Learn Rust", "Build an API", "third", "fourth"]);
}

#[test]
fn created_ids_are_distinct_in_a_run_of_creations() {
    let mut store = TaskStore::new();
    for n in 0..50u64 {
        let before = ids(&store);
        let task = store.create(format!("task {}", n));
        assert!(!before.contains(&task.id));
        assert_eq!(task.id, n + 1);
    }
    let mut all = ids(&store);
    all.sort();
    all.dedup();
    assert_eq!(all.len(), 50);

    let mut seeded = TaskStore::seeded();
    for n in 0..10u64 {
        let before = ids(&seeded);
        let task = seeded.create(format!("task {}", n));
        assert!(!before.contains(&task.id));
    }
    let mut all = ids(&seeded);
    all.sort();
    all.dedup();
    assert_eq!(all.len(), 12);
}

#[test]
fn get_after_create_finds_the_created_task() {
    let mut store = TaskStore::seeded();
    let created = store.create("Buy milk".to_string());
    let found = store.get(created.id).expect("the created task is found");
    assert_task(found, 3, "Buy milk", false);
}

#[test]
fn get_returns_the_matching_task() {
    let store = TaskStore::seeded();
    assert_task(store.get(1).unwrap(), 1, "Learn Rust", false);
    assert_task(store.get(2).unwrap(), 2, "Build an API", false);
    assert!(store.get(0).is_none());
    assert!(store.get(3).is_none());
    assert!(store.get(u64::MAX).is_none());
}

#[test]
fn update_overwrites_title_and_flag_in_place() {
    let mut store = TaskStore::seeded();
    let changed = store.update(1, "Learn Rust well".to_string(), true).unwrap();
    assert_task(&changed, 1, "Learn Rust well", true);
    let tasks = store.list();
    assert_eq!(tasks.len(), 2);
    assert_task(&tasks[0], 1, "Learn Rust well", true);
    assert_task(&tasks[1], 2, "Build an API", false);
    assert_task(store.get(1).unwrap(), 1, "Learn Rust well", true);
}

#[test]
fn update_of_a_missing_id_changes_nothing() {
    let mut store = TaskStore::seeded();
    assert!(store.update(999, "x".to_string(), true).is_none());
    let tasks = store.list();
    assert_eq!(tasks.len(), 2);
    assert_task(&tasks[0], 1, "Learn Rust", false);
    assert_task(&tasks[1], 2, "Build an API", false);

    let mut empty = TaskStore::new();
    assert!(empty.update(1, "x".to_string(), false).is_none());
    assert_eq!(empty.len(), 0);
}

#[test]
fn delete_removes_the_task_and_keeps_the_order() {
    let mut store = TaskStore::seeded();
    store.create("third".to_string());
    assert!(store.delete(2));
    assert_eq!(ids(&store), vec![1, 3]);
    assert_eq!(titles(&store), vec!["Learn Rust", "third"]);
}

#[test]
fn delete_then_get_finds_nothing() {
    let mut store = TaskStore::seeded();
    assert!(store.delete(2));
    assert!(store.get(2).is_none());
    assert!(!store.delete(2));
    assert!(store.get(2).is_none());
}

#[test]
fn delete_of_a_missing_id_changes_nothing() {
    let mut store = TaskStore::seeded();
    assert!(!store.delete(999));
    assert_eq!(ids(&store), vec![1, 2]);
    let mut empty = TaskStore::new();
    assert!(!empty.delete(1));
    assert_eq!(empty.len(), 0);
}

#[test]
fn length_follows_create_and_delete() {
    let mut store = TaskStore::seeded();
    assert_eq!(store.list().len(), 2);
    store.create("third".to_string());
    assert_eq!(store.list().len(), 3);
    assert!(store.delete(1));
    assert_eq!(store.list().len(), 2);
    assert!(!store.delete(1));
    assert_eq!(store.list().len(), 2);
}

#[test]
fn list_is_a_copy() {
    let mut store = TaskStore::seeded();
    let mut snapshot = store.list();
    snapshot[0].title = "changed".to_string();
    snapshot.pop();
    assert_eq!(titles(&store), vec!["Learn Rust", "Build an API"]);
    store.create("third".to_string());
    assert_eq!(snapshot.len(), 1);
}

#[test]
fn create_after_delete_reuses_an_id() {
    let mut store = TaskStore::seeded();
    assert!(store.delete(1));
    let again = store.create("x".to_string());
    assert_task(&again, 2, "x", false);
    assert_eq!(ids(&store), vec![2, 2]);
    // The older task with the id is the one that a lookup and an update reach.
    assert_task(store.get(2).unwrap(), 2, "Build an API", false);
    let changed = store.update(2, "y".to_string(), true).unwrap();
    assert_task(&changed, 2, "y", true);
    assert_eq!(titles(&store), vec!["y", "x"]);
    // A deletion removes every task with the id.
    assert!(store.delete(2));
    assert_eq!(store.len(), 0);
}

#[test]
fn task_clone_keeps_every_field() {
    let task = Task { id: 7, title: "seven".to_string(), completed: true };
    let copy = task.clone();
    assert_task(&copy, 7, "seven", true);
    assert_task(&task, 7, "seven", true);
}
