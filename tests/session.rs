use sqlx_todo::session::in_id_order;
use sqlx_todo::statement::{Action, Reply, Statement, StoreError};
use sqlx_todo::todo::{Todo, TodoRequest};

fn todo(id: i32, description: &str, done: i8) -> Todo {
    Todo { id, description: description.to_string(), done }
}

fn request(description: &str, done: bool) -> TodoRequest {
    TodoRequest { description: description.to_string(), done }
}

fn run<T>(a: Action<T>) -> Statement {
    match a {
        Action::Run(s) => s,
        Action::Finish(_) => panic!("expected a statement"),
    }
}

fn finish<T>(a: Action<T>) -> Result<T, StoreError> {
    match a {
        Action::Finish(r) => r,
        Action::Run(_) => panic!("expected the end"),
    }
}

#[test]
fn create_runs_insert_then_id_then_read() {
    let (mut s, first) = Todo::create(request("buy milk", true));
    assert!(matches!(first, Statement::Begin));
    match run(s.next(Reply::Began)) {
        Statement::Insert { description, done } => {
            assert_eq!(description, "buy milk");
            assert_eq!(done, 1);
        }
        _ => panic!("expected an insert"),
    }
    assert!(matches!(run(s.next(Reply::Affected { count: 1 })), Statement::LastInsertId));
    assert!(matches!(run(s.next(Reply::InsertId { id: 9 })), Statement::SelectById { id: 9 }));
    let row = todo(9, "buy milk", 1);
    assert!(matches!(run(s.next(Reply::Row { row: Some(row) })), Statement::Commit));
    let t = finish(s.next(Reply::Committed)).unwrap();
    assert_eq!((t.id, t.description.as_str(), t.done), (9, "buy milk", 1));
}

#[test]
fn create_rolls_back_on_failed_insert() {
    let (mut s, _) = Todo::create(request("x", false));
    run(s.next(Reply::Began));
    assert!(matches!(run(s.next(Reply::Failed)), Statement::Rollback));
    assert_eq!(finish(s.next(Reply::RolledBack)).err(), Some(StoreError));
}

#[test]
fn create_fails_without_transaction() {
    let (mut s, _) = Todo::create(request("x", false));
    assert_eq!(finish(s.next(Reply::Failed)).err(), Some(StoreError));
}

#[test]
fn create_rejects_id_out_of_range() {
    let (mut s, _) = Todo::create(request("x", false));
    run(s.next(Reply::Began));
    run(s.next(Reply::Affected { count: 1 }));
    let too_big = i32::MAX as u64 + 1;
    assert!(matches!(run(s.next(Reply::InsertId { id: too_big })), Statement::Rollback));
    assert_eq!(finish(s.next(Reply::RolledBack)).err(), Some(StoreError));
}

#[test]
fn create_rejects_row_with_other_id() {
    let (mut s, _) = Todo::create(request("x", false));
    run(s.next(Reply::Began));
    run(s.next(Reply::Affected { count: 1 }));
    run(s.next(Reply::InsertId { id: 4 }));
    let other = todo(5, "x", 0);
    assert!(matches!(run(s.next(Reply::Row { row: Some(other) })), Statement::Rollback));
    assert_eq!(finish(s.next(Reply::RolledBack)).err(), Some(StoreError));
}

#[test]
fn create_rolls_back_on_failed_commit() {
    let (mut s, _) = Todo::create(request("x", false));
    run(s.next(Reply::Began));
    run(s.next(Reply::Affected { count: 1 }));
    run(s.next(Reply::InsertId { id: 1 }));
    run(s.next(Reply::Row { row: Some(todo(1, "x", 0)) }));
    assert!(matches!(run(s.next(Reply::Failed)), Statement::Rollback));
    assert_eq!(finish(s.next(Reply::Failed)).err(), Some(StoreError));
}

#[test]
fn update_with_no_row_is_absent() {
    let (mut s, first) = Todo::update(3, request("y", true));
    assert!(matches!(first, Statement::Begin));
    match run(s.next(Reply::Began)) {
        Statement::Update { id, description, done } => {
            assert_eq!((id, description.as_str(), done), (3, "y", 1));
        }
        _ => panic!("expected an update"),
    }
    assert!(matches!(run(s.next(Reply::Affected { count: 0 })), Statement::Rollback));
    assert!(finish(s.next(Reply::RolledBack)).unwrap().is_none());
}

#[test]
fn update_reads_back_and_commits() {
    let (mut s, _) = Todo::update(3, request("y", false));
    run(s.next(Reply::Began));
    assert!(matches!(run(s.next(Reply::Affected { count: 1 })), Statement::SelectById { id: 3 }));
    assert!(matches!(run(s.next(Reply::Row { row: Some(todo(3, "y", 0)) })), Statement::Commit));
    let t = finish(s.next(Reply::Committed)).unwrap().unwrap();
    assert_eq!((t.id, t.description.as_str(), t.done), (3, "y", 0));
}

#[test]
fn update_fails_when_row_vanishes() {
    let (mut s, _) = Todo::update(3, request("y", false));
    run(s.next(Reply::Began));
    run(s.next(Reply::Affected { count: 1 }));
    assert!(matches!(run(s.next(Reply::Row { row: None })), Statement::Rollback));
    assert_eq!(finish(s.next(Reply::RolledBack)).err(), Some(StoreError));
}

#[test]
fn delete_reports_count_after_commit() {
    let (mut s, first) = Todo::delete(8);
    assert!(matches!(first, Statement::Begin));
    assert!(matches!(run(s.next(Reply::Began)), Statement::Delete { id: 8 }));
    assert!(matches!(run(s.next(Reply::Affected { count: 0 })), Statement::Commit));
    assert_eq!(finish(s.next(Reply::Committed)), Ok(0));
}

#[test]
fn delete_rolls_back_on_failure() {
    let (mut s, _) = Todo::delete(8);
    run(s.next(Reply::Began));
    assert!(matches!(run(s.next(Reply::Failed)), Statement::Rollback));
    assert_eq!(finish(s.next(Reply::RolledBack)), Err(StoreError));
}

#[test]
fn find_all_accepts_ordered_rows() {
    let (mut s, first) = Todo::find_all();
    assert!(matches!(first, Statement::SelectAll));
    let rows = vec![todo(1, "a", 0), todo(2, "b", 1)];
    let got = finish(s.next(Reply::Rows { rows })).unwrap();
    assert_eq!(got.len(), 2);
}

#[test]
fn find_all_rejects_unordered_rows() {
    let (mut s, _) = Todo::find_all();
    let rows = vec![todo(2, "b", 0), todo(1, "a", 1)];
    assert_eq!(finish(s.next(Reply::Rows { rows })).err(), Some(StoreError));
}

#[test]
fn find_by_id_absent_and_present() {
    let (mut s, first) = Todo::find_by_id(4);
    assert!(matches!(first, Statement::SelectById { id: 4 }));
    assert!(finish(s.next(Reply::Row { row: None })).unwrap().is_none());
    let (mut s, _) = Todo::find_by_id(4);
    let t = finish(s.next(Reply::Row { row: Some(todo(4, "d", 0)) })).unwrap().unwrap();
    assert_eq!(t.id, 4);
    let (mut s, _) = Todo::find_by_id(4);
    assert_eq!(finish(s.next(Reply::Row { row: Some(todo(5, "e", 0)) })).err(), Some(StoreError));
    let (mut s, _) = Todo::find_by_id(4);
    assert_eq!(finish(s.next(Reply::Failed)).err(), Some(StoreError));
}

#[test]
fn id_order_check() {
    assert!(in_id_order(&vec![]));
    assert!(in_id_order(&vec![todo(1, "a", 0), todo(1, "b", 0), todo(3, "c", 0)]));
    assert!(!in_id_order(&vec![todo(1, "a", 0), todo(3, "b", 0), todo(2, "c", 0)]));
}
