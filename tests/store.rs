use sqlx_todo::memory::MemoryStore;
use sqlx_todo::statement::StoreError;
use sqlx_todo::todo::{to_flag, Todo, TodoRequest};

fn request(description: &str, done: bool) -> TodoRequest {
    TodoRequest { description: description.to_string(), done }
}

fn fields(t: &Todo) -> (i32, String, i8) {
    (t.id, t.description.clone(), t.done)
}

#[test]
fn buy_milk_lifecycle() {
    let mut store = MemoryStore::new();
    let created = store.create(request("buy milk", false)).unwrap();
    assert_eq!(fields(&created), (1, "buy milk".to_string(), 0));
    assert!(!created.is_done());

    let updated = store.update(1, request("buy milk", true)).unwrap().unwrap();
    assert_eq!(fields(&updated), (1, "buy milk".to_string(), 1));
    assert!(updated.is_done());

    assert_eq!(store.delete(1), Ok(1));
    assert!(store.find_by_id(1).unwrap().is_none());
}

#[test]
fn create_then_find_gives_same_record() {
    let mut store = MemoryStore::new();
    store.create(request("first", true)).unwrap();
    let created = store.create(request("second", false)).unwrap();
    assert_eq!(created.id, 2);
    let found = store.find_by_id(created.id).unwrap().unwrap();
    assert_eq!(fields(&found), fields(&created));
}

#[test]
fn find_all_in_id_order() {
    let mut store = MemoryStore::new();
    for name in ["a", "b", "c", "d"] {
        store.create(request(name, false)).unwrap();
    }
    assert_eq!(store.delete(2), Ok(1));
    store.update(3, request("c2", true)).unwrap();
    let all = store.find_all().unwrap();
    let ids: Vec<i32> = all.iter().map(|t| t.id).collect();
    assert_eq!(ids, vec![1, 3, 4]);
    assert_eq!(all[1].description, "c2");
    assert_eq!(all[1].done, 1);
}

#[test]
fn find_all_on_empty_store() {
    let mut store = MemoryStore::new();
    assert!(store.find_all().unwrap().is_empty());
}

#[test]
fn update_missing_is_absent_and_changes_nothing() {
    let mut store = MemoryStore::new();
    store.create(request("keep", false)).unwrap();
    assert!(store.update(7, request("other", true)).unwrap().is_none());
    let all = store.find_all().unwrap();
    assert_eq!(all.len(), 1);
    assert_eq!(fields(&all[0]), (1, "keep".to_string(), 0));
}

#[test]
fn update_changes_only_that_row() {
    let mut store = MemoryStore::new();
    store.create(request("one", false)).unwrap();
    store.create(request("two", false)).unwrap();
    let updated = store.update(2, request("two!", true)).unwrap().unwrap();
    assert_eq!(fields(&updated), (2, "two!".to_string(), 1));
    let first = store.find_by_id(1).unwrap().unwrap();
    assert_eq!(fields(&first), (1, "one".to_string(), 0));
    assert_eq!(store.find_all().unwrap().len(), 2);
}

#[test]
fn update_to_same_values_still_found() {
    let mut store = MemoryStore::new();
    store.create(request("same", true)).unwrap();
    let updated = store.update(1, request("same", true)).unwrap().unwrap();
    assert_eq!(fields(&updated), (1, "same".to_string(), 1));
}

#[test]
fn delete_missing_returns_zero() {
    let mut store = MemoryStore::new();
    store.create(request("stay", false)).unwrap();
    assert_eq!(store.delete(5), Ok(0));
    assert_eq!(store.find_all().unwrap().len(), 1);
}

#[test]
fn ids_are_not_reused_after_delete() {
    let mut store = MemoryStore::new();
    store.create(request("a", false)).unwrap();
    store.create(request("b", false)).unwrap();
    assert_eq!(store.delete(2), Ok(1));
    let created = store.create(request("c", false)).unwrap();
    assert_eq!(created.id, 3);
}

#[test]
fn successive_creates_get_distinct_ids() {
    let mut store = MemoryStore::new();
    let a = store.create(request("a", false)).unwrap();
    let b = store.create(request("b", true)).unwrap();
    assert_ne!(a.id, b.id);
    assert_eq!(store.find_by_id(a.id).unwrap().unwrap().description, "a");
    assert_eq!(store.find_by_id(b.id).unwrap().unwrap().description, "b");
}

#[test]
fn done_flag_round_trip() {
    assert_eq!(to_flag(true), 1);
    assert_eq!(to_flag(false), 0);
    let t = Todo { id: 1, description: String::new(), done: to_flag(true) };
    assert!(t.is_done());
    let u = Todo { id: 1, description: String::new(), done: to_flag(false) };
    assert!(!u.is_done());
    let odd = Todo { id: 1, description: String::new(), done: 5 };
    assert!(odd.is_done());
}

#[test]
fn store_error_compares_equal() {
    assert_eq!(StoreError, StoreError);
}
