use todolist::error::ServiceError;
use todolist::record::{SqliteTodo, Todo, TodoList};
use todolist::task_id::TaskId;
use todolist::timestamp::Timestamp;

fn row(id: &str, description: &str, done: i64, datetime: &str) -> SqliteTodo {
    SqliteTodo {
        id: id.to_string(),
        description: description.to_string(),
        done,
        datetime: datetime.to_string(),
    }
}

const ID: &str = "550e8400-e29b-41d4-a716-446655440000";
const WHEN: &str = "2024-01-01T00:00:00";

#[test]
fn new_row_holds_the_encoded_fields() {
    let id = TaskId(0x550e8400_e29b_41d4_a716_446655440000);
    let when = Timestamp::new(2024, 1, 1, 0, 0, 0).unwrap();
    let written = SqliteTodo::new(&id, "buy milk".to_string(), &when);
    assert_eq!(written.id, ID);
    assert_eq!(written.description, "buy milk");
    assert_eq!(written.done, 0);
    assert_eq!(written.datetime, WHEN);
}

#[test]
fn from_reads_a_row() {
    let todo = Todo::from(row(ID, "buy milk", 0, WHEN)).unwrap();
    assert_eq!(todo.id, TaskId(0x550e8400_e29b_41d4_a716_446655440000));
    assert_eq!(todo.description, "buy milk");
    assert!(!todo.done);
    assert_eq!(todo.datetime, Timestamp::new(2024, 1, 1, 0, 0, 0).unwrap());
}

#[test]
fn from_reads_one_as_done() {
    assert!(Todo::from(row(ID, "x", 1, WHEN)).unwrap().done);
}

#[test]
fn from_reads_zero_as_not_done() {
    assert!(!Todo::from(row(ID, "x", 0, WHEN)).unwrap().done);
}

#[test]
fn from_reads_two_as_not_done() {
    let todo = Todo::from(row(ID, "x", 2, WHEN));
    assert!(todo.is_ok());
    assert!(!todo.unwrap().done);
}

#[test]
fn from_reads_every_other_integer_as_not_done() {
    for done in [-1i64, -2, 3, 255, 256, 257, i64::MAX, i64::MIN] {
        let todo = Todo::from(row(ID, "x", done, WHEN));
        assert!(todo.is_ok());
        assert!(!todo.unwrap().done);
    }
}

#[test]
fn from_keeps_the_description_as_it_is() {
    for text in ["", " ", "  padded  ", "line\nbreak", "caf\u{e9} \u{1f600}", "\"quoted\""] {
        assert_eq!(Todo::from(row(ID, text, 0, WHEN)).unwrap().description, text);
    }
}

#[test]
fn from_refuses_a_malformed_identifier() {
    for id in ["", "not-an-id", "550e8400e29b41d4a716446655440000", "550e8400-e29b-41d4-a716-44665544000g"] {
        let read = Todo::from(row(id, "x", 0, WHEN));
        assert!(matches!(read, Err(ServiceError::MalformedRecord)));
    }
}

#[test]
fn from_refuses_a_malformed_datetime() {
    for when in ["", "2024-01-01", "2024-01-01T00:00:00Z", "2024-01-01 00:00:00", "2024-02-30T00:00:00"] {
        let read = Todo::from(row(ID, "x", 0, when));
        assert!(matches!(read, Err(ServiceError::MalformedRecord)));
    }
}

#[test]
fn from_refuses_a_row_in_which_both_are_malformed() {
    let read = Todo::from(row("?", "x", 1, "?"));
    assert!(matches!(read, Err(ServiceError::MalformedRecord)));
}

#[test]
fn new_row_reads_back_as_written() {
    let id = TaskId(0x0123456789abcdef_fedcba9876543210);
    let when = Timestamp::new(1999, 12, 31, 23, 59, 59).unwrap();
    let todo = Todo::from(SqliteTodo::new(&id, "".to_string(), &when)).unwrap();
    assert_eq!(todo.id, id);
    assert_eq!(todo.description, "");
    assert!(!todo.done);
    assert_eq!(todo.datetime, when);
}

#[test]
fn from_rows_of_nothing_is_an_empty_list() {
    let list = TodoList::from_rows(Vec::new()).unwrap();
    assert!(list.0.is_empty());
}

#[test]
fn from_rows_keeps_the_order() {
    let rows = vec![
        row("00000000-0000-0000-0000-000000000003", "third", 1, "2024-03-03T03:03:03"),
        row("00000000-0000-0000-0000-000000000001", "first", 0, "2024-01-01T01:01:01"),
        row("00000000-0000-0000-0000-000000000002", "second", 7, "2024-02-02T02:02:02"),
    ];
    let list = TodoList::from_rows(rows).unwrap();
    assert_eq!(list.0.len(), 3);
    assert_eq!(list.0[0].id, TaskId(3));
    assert_eq!(list.0[0].description, "third");
    assert!(list.0[0].done);
    assert_eq!(list.0[1].id, TaskId(1));
    assert_eq!(list.0[1].description, "first");
    assert!(!list.0[1].done);
    assert_eq!(list.0[2].id, TaskId(2));
    assert_eq!(list.0[2].datetime, Timestamp::new(2024, 2, 2, 2, 2, 2).unwrap());
    assert!(!list.0[2].done);
}

#[test]
fn from_rows_is_spoilt_by_one_malformed_row() {
    let rows = vec![
        row("00000000-0000-0000-0000-000000000001", "first", 0, WHEN),
        row("00000000-0000-0000-0000-000000000002", "second", 0, "2024-01-01T00:00:00+09:00"),
        row("00000000-0000-0000-0000-000000000003", "third", 0, WHEN),
    ];
    assert!(matches!(TodoList::from_rows(rows), Err(ServiceError::MalformedRecord)));
}

#[test]
fn duplicate_copies_every_column() {
    let first = row(ID, "buy milk", 5, WHEN);
    let copy = first.duplicate();
    assert_eq!(copy.id, first.id);
    assert_eq!(copy.description, first.description);
    assert_eq!(copy.done, first.done);
    assert_eq!(copy.datetime, first.datetime);
}
