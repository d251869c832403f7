use todo_api::error::Error;
use todo_api::model::{Todo, TodoInput, TodoState};
use todo_api::todo_store::inmemory::InMemoryTodoStore;
use todo_api::use_cases::TodoOutputPort;

fn input(text: &str, state: TodoState) -> TodoInput {
    TodoInput { text: text.to_owned(), state }
}

fn is_todo_not_found(e: &Error, want: u32) -> bool {
    matches!(e, Error::ResourceNotFound { name, id } if name == "todo" && *id == want)
}

#[test]
fn first_id_on_empty_store_is_two() {
    let mut store = InMemoryTodoStore::new();
    let t = store.create_todo(input("a", TodoState::Opened)).unwrap();
    assert_eq!(t, Todo { id: 2, text: "a".to_owned(), state: TodoState::Opened });
    let u = store.create_todo(input("b", TodoState::Closed)).unwrap();
    assert_eq!(u.id, 3);
}

#[test]
fn ids_are_unique_and_follow_the_largest() {
    let mut store = InMemoryTodoStore::new();
    let a = store.create_todo(input("a", TodoState::Opened)).unwrap();
    let b = store.create_todo(input("b", TodoState::Opened)).unwrap();
    let c = store.create_todo(input("c", TodoState::Opened)).unwrap();
    assert!(a.id != b.id && b.id != c.id && a.id != c.id);
    store.delete_todo(b.id).unwrap();
    let d = store.create_todo(input("d", TodoState::Opened)).unwrap();
    assert_eq!(d.id, c.id + 1);
    store.delete_todo(d.id).unwrap();
    let e = store.create_todo(input("e", TodoState::Opened)).unwrap();
    assert_eq!(e.id, c.id + 1);
}

#[test]
fn get_after_create_returns_created() {
    let mut store = InMemoryTodoStore::new();
    let t = store.create_todo(input("Buy milk", TodoState::Opened)).unwrap();
    assert_eq!(store.get_todo(t.id).unwrap(), t);
}

#[test]
fn update_existing_replaces_text_and_state() {
    let mut store = InMemoryTodoStore::new();
    let t = store.create_todo(input("old", TodoState::Opened)).unwrap();
    let u = store.update_todo(t.id, input("new", TodoState::Closed)).unwrap();
    assert_eq!(u, Todo { id: t.id, text: "new".to_owned(), state: TodoState::Closed });
    assert_eq!(store.get_todo(t.id).unwrap(), u);
    assert_eq!(store.list_todos().unwrap().len(), 1);
}

#[test]
fn update_missing_is_not_found() {
    let mut store = InMemoryTodoStore::new();
    store.create_todo(input("a", TodoState::Opened)).unwrap();
    let e = store.update_todo(77, input("x", TodoState::Closed)).unwrap_err();
    assert!(is_todo_not_found(&e, 77));
    assert_eq!(store.list_todos().unwrap()[0].text, "a");
}

#[test]
fn delete_existing_then_get_is_not_found() {
    let mut store = InMemoryTodoStore::new();
    let a = store.create_todo(input("a", TodoState::Opened)).unwrap();
    let b = store.create_todo(input("b", TodoState::Opened)).unwrap();
    assert_eq!(store.list_todos().unwrap().len(), 2);
    store.delete_todo(a.id).unwrap();
    assert_eq!(store.list_todos().unwrap(), vec![b]);
    assert!(is_todo_not_found(&store.get_todo(a.id).unwrap_err(), a.id));
}

#[test]
fn delete_missing_is_not_found() {
    let mut store = InMemoryTodoStore::new();
    let e = store.delete_todo(5).unwrap_err();
    assert!(is_todo_not_found(&e, 5));
}

#[test]
fn list_length_is_created_minus_deleted() {
    let mut store = InMemoryTodoStore::new();
    assert!(store.list_todos().unwrap().is_empty());
    let mut ids = Vec::new();
    for i in 0..5 {
        ids.push(store.create_todo(input(&format!("item {}", i), TodoState::Opened)).unwrap().id);
    }
    store.delete_todo(ids[1]).unwrap();
    store.delete_todo(ids[3]).unwrap();
    assert!(store.delete_todo(ids[3]).is_err());
    store.update_todo(ids[0], input("changed", TodoState::Closed)).unwrap();
    assert_eq!(store.list_todos().unwrap().len(), 3);
}

#[test]
fn list_keeps_creation_order() {
    let mut store = InMemoryTodoStore::new();
    let a = store.create_todo(input("a", TodoState::Opened)).unwrap();
    let b = store.create_todo(input("b", TodoState::Closed)).unwrap();
    assert_eq!(store.list_todos().unwrap(), vec![a, b]);
}
