use todo_core::app::AppImpl;
use todo_core::entities::Todo;
use todo_core::errors::{Error, StoreFailure};
use todo_core::mem_repository::MemRepo;
use todo_core::traits::{App, Repo};

const ABSENT_ID: &str = "00000000-0000-0000-0000-000000000000";

#[test]
fn create_starts_incomplete_with_fresh_id() {
    let mut app = AppImpl::new(MemRepo::new());
    let a = app.create_todo(String::from("buy milk")).unwrap();
    assert_eq!(a.completed(), false);
    assert_eq!(a.title().as_str(), "buy milk");
    assert!(!a.id().is_empty());
    assert_eq!(a.id().len(), 36);
    let b = app.create_todo(String::from("buy milk")).unwrap();
    assert_ne!(a.id(), b.id());
}

#[test]
fn get_after_create_returns_equal_entity() {
    let mut app = AppImpl::new(MemRepo::new());
    let created = app.create_todo(String::from("water plants")).unwrap();
    let fetched = app.get_todo_by_id(created.id().clone()).unwrap();
    assert_eq!(fetched.id(), created.id());
    assert_eq!(fetched.title(), created.title());
    assert_eq!(fetched.completed(), created.completed());
}

#[test]
fn complete_marks_done_and_is_idempotent() {
    let mut app = AppImpl::new(MemRepo::new());
    let created = app.create_todo(String::from("call home")).unwrap();
    assert!(!created.completed());

    let done = app.complete_todo_by_id(created.id().clone()).unwrap();
    assert_eq!(done.completed(), true);
    assert_eq!(done.id(), created.id());
    assert_eq!(done.title(), created.title());

    let again = app.complete_todo_by_id(created.id().clone()).unwrap();
    assert_eq!(again.completed(), true);
    assert_eq!(again.id(), created.id());
    assert_eq!(again.title(), created.title());
}

#[test]
fn missing_id_is_not_found_never_internal() {
    let mut app = AppImpl::new(MemRepo::new());
    assert_eq!(app.get_todo_by_id(String::from(ABSENT_ID)), Err(Error::NotFound));
    assert_eq!(app.complete_todo_by_id(String::from(ABSENT_ID)), Err(Error::NotFound));
}

#[test]
fn malformed_id_is_internal_not_not_found() {
    let mut app = AppImpl::new(MemRepo::new());
    assert_eq!(app.get_todo_by_id(String::from("not-a-uuid")), Err(Error::Internal));
    assert_eq!(app.get_todo_by_id(String::new()), Err(Error::Internal));
    assert_eq!(app.complete_todo_by_id(String::from("not-a-uuid")), Err(Error::Internal));
}

#[test]
fn listing_empty_store_is_ok_and_empty() {
    let app = AppImpl::new(MemRepo::new());
    let todos = app.get_todos().unwrap();
    assert!(todos.is_empty());
}

#[test]
fn listing_is_reverse_creation_order() {
    let mut app = AppImpl::new(MemRepo::new());
    let a = app.create_todo(String::from("first")).unwrap();
    let b = app.create_todo(String::from("second")).unwrap();
    let c = app.create_todo(String::from("third")).unwrap();
    let todos = app.get_todos().unwrap();
    assert_eq!(todos.len(), 3);
    assert_eq!(todos[0].id(), c.id());
    assert_eq!(todos[1].id(), b.id());
    assert_eq!(todos[2].id(), a.id());
    assert_eq!(todos[0].title().as_str(), "third");
}

#[test]
fn buy_milk_scenario() {
    let mut app = AppImpl::new(MemRepo::new());
    let created = app.create_todo(String::from("buy milk")).unwrap();
    assert_eq!(created.completed(), false);

    let done = app.complete_todo_by_id(created.id().clone()).unwrap();
    assert_eq!(done.completed(), true);

    let fetched = app.get_todo_by_id(created.id().clone()).unwrap();
    assert_eq!(fetched.completed(), true);

    // a well-formed identifier that resolves no row
    assert_eq!(app.get_todo_by_id(String::from(ABSENT_ID)), Err(Error::NotFound));
    // a malformed identifier fails the parse and is Internal, not NotFound
    assert_eq!(app.get_todo_by_id(String::from("does-not-exist")), Err(Error::Internal));
}

#[test]
fn interleaved_updates_last_writer_wins() {
    let mut repo = MemRepo::new();
    let seed = Todo::new(String::from("shared"));
    let stored = repo.insert_todo(seed).unwrap();
    let id = stored.id().clone();

    // two sessions both perform step one (the read) before either writes
    let first_read = repo.get_todo_by_id(id.clone()).unwrap();
    let second_read = repo.get_todo_by_id(id.clone()).unwrap();

    // their step-three writes land in some order; no lock stops either
    let w1 = repo.write_back(id.clone(), String::from("left"), first_read.completed());
    let w2 = repo.write_back(id.clone(), String::from("right"), second_read.completed());
    assert!(w1.is_ok());
    assert!(w2.is_ok());

    // the persisted state is whichever write executed last
    let end = repo.get_todo_by_id(id).unwrap();
    assert_eq!(end.title().as_str(), "right");
}

#[test]
fn write_back_on_missing_or_malformed_id() {
    let mut repo = MemRepo::new();
    assert_eq!(
        repo.write_back(String::from(ABSENT_ID), String::from("x"), true),
        Err(Error::NotFound)
    );
    assert_eq!(
        repo.write_back(String::from("garbled"), String::from("x"), true),
        Err(Error::Internal)
    );
}

#[test]
fn insert_persists_incomplete_and_rejects_duplicates() {
    let mut repo = MemRepo::new();
    let todo = Todo::new(String::from("draft"));
    let id = todo.id().clone();

    // the store persists completed = false whatever the input flag says
    let flagged = Todo::from_data_storage(id.clone(), String::from("draft"), true);
    let stored = repo.insert_todo(flagged).unwrap();
    assert_eq!(stored.completed(), false);
    assert_eq!(stored.id(), &id);

    // a second row under the same identifier violates the unique key
    let dup = Todo::from_data_storage(id, String::from("other"), false);
    assert_eq!(repo.insert_todo(dup), Err(Error::Internal));

    // an identifier the store cannot parse never reaches a query
    let bad = Todo::from_data_storage(String::from("not-an-id"), String::from("x"), false);
    assert_eq!(repo.insert_todo(bad), Err(Error::Internal));
}

#[test]
fn store_failures_translate_exactly() {
    assert_eq!(Error::from_store_failure(StoreFailure::RowNotFound), Error::NotFound);
    assert_eq!(Error::from_store_failure(StoreFailure::Other), Error::Internal);
}

#[test]
fn entity_accessors_and_complete() {
    let mut t = Todo::from_data_storage(
        String::from("0192aaaa-bbbb-7ccc-8ddd-eeeeffff0000"),
        String::from("read"),
        false,
    );
    assert_eq!(t.id().as_str(), "0192aaaa-bbbb-7ccc-8ddd-eeeeffff0000");
    assert_eq!(t.title().as_str(), "read");
    assert!(!t.completed());
    t.complete();
    assert!(t.completed());
    t.complete();
    assert!(t.completed());
    assert_eq!(t.title().as_str(), "read");
}
