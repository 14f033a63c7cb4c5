use todolist::error::ServiceError;
use todolist::record::SqliteTodo;
use todolist::table::{Answer, Statement, TodoTable};

fn stored(id: &str, description: &str) -> SqliteTodo {
    SqliteTodo {
        id: id.to_string(),
        description: description.to_string(),
        done: 0,
        datetime: "2024-01-01T00:00:00".to_string(),
    }
}

#[test]
fn a_new_table_is_empty() {
    let table = TodoTable::new();
    assert_eq!(table.len(), 0);
    assert!(table.select_all().is_empty());
}

#[test]
fn insert_appends_one_row() {
    let mut table = TodoTable::new();
    assert_eq!(table.insert(stored("a", "first")), Ok(()));
    assert_eq!(table.len(), 1);
    assert_eq!(table.insert(stored("b", "second")), Ok(()));
    assert_eq!(table.len(), 2);
    let rows = table.select_all();
    assert_eq!(rows.len(), 2);
    assert_eq!(rows[0].id, "a");
    assert_eq!(rows[0].description, "first");
    assert_eq!(rows[1].id, "b");
    assert_eq!(rows[1].description, "second");
}

#[test]
fn insert_refuses_an_identifier_that_is_taken() {
    let mut table = TodoTable::new();
    assert_eq!(table.insert(stored("a", "first")), Ok(()));
    assert_eq!(table.insert(stored("a", "again")), Err(ServiceError::StorageFailure));
    assert_eq!(table.len(), 1);
    let rows = table.select_all();
    assert_eq!(rows[0].description, "first");
}

#[test]
fn identifiers_are_compared_as_text() {
    let mut table = TodoTable::new();
    assert_eq!(table.insert(stored("ab", "lower")), Ok(()));
    assert_eq!(table.insert(stored("AB", "upper")), Ok(()));
    assert_eq!(table.insert(stored("ab ", "padded")), Ok(()));
    assert_eq!(table.len(), 3);
}

#[test]
fn the_table_takes_rows_that_do_not_decode() {
    let mut table = TodoTable::new();
    let odd = SqliteTodo {
        id: "not an id".to_string(),
        description: String::new(),
        done: -7,
        datetime: "not a time".to_string(),
    };
    assert_eq!(table.insert(odd), Ok(()));
    let rows = table.select_all();
    assert_eq!(rows[0].id, "not an id");
    assert_eq!(rows[0].done, -7);
    assert_eq!(rows[0].datetime, "not a time");
}

#[test]
fn contains_id_finds_what_was_inserted() {
    let mut table = TodoTable::new();
    assert!(!table.contains_id(&"a".to_string()));
    table.insert(stored("a", "first")).unwrap();
    table.insert(stored("b", "second")).unwrap();
    assert!(table.contains_id(&"a".to_string()));
    assert!(table.contains_id(&"b".to_string()));
    assert!(!table.contains_id(&"c".to_string()));
    assert!(!table.contains_id(&"".to_string()));
}

#[test]
fn select_by_id_finds_the_one_row() {
    let mut table = TodoTable::new();
    table.insert(stored("a", "first")).unwrap();
    table.insert(stored("b", "second")).unwrap();
    table.insert(stored("c", "third")).unwrap();
    let rows = table.select_by_id(&"b".to_string());
    assert_eq!(rows.len(), 1);
    assert_eq!(rows[0].id, "b");
    assert_eq!(rows[0].description, "second");
    let rows = table.select_by_id(&"c".to_string());
    assert_eq!(rows.len(), 1);
    assert_eq!(rows[0].description, "third");
}

#[test]
fn select_by_id_of_an_absent_identifier_is_empty() {
    let mut table = TodoTable::new();
    assert!(table.select_by_id(&"a".to_string()).is_empty());
    table.insert(stored("a", "first")).unwrap();
    assert!(table.select_by_id(&"b".to_string()).is_empty());
}

#[test]
fn selecting_does_not_change_the_table() {
    let mut table = TodoTable::new();
    table.insert(stored("a", "first")).unwrap();
    let _ = table.select_all();
    let _ = table.select_by_id(&"a".to_string());
    assert_eq!(table.len(), 1);
    assert_eq!(table.select_all()[0].description, "first");
}

#[test]
fn execute_runs_an_insert() {
    let mut table = TodoTable::new();
    assert!(matches!(table.execute(Statement::Insert(stored("a", "first"))), Answer::Inserted));
    assert!(matches!(table.execute(Statement::Insert(stored("a", "again"))), Answer::Failed));
    assert!(matches!(table.execute(Statement::Insert(stored("b", "second"))), Answer::Inserted));
    assert_eq!(table.len(), 2);
}

#[test]
fn execute_runs_the_selects() {
    let mut table = TodoTable::new();
    table.insert(stored("a", "first")).unwrap();
    table.insert(stored("b", "second")).unwrap();
    match table.execute(Statement::SelectAll) {
        Answer::Rows(rows) => {
            assert_eq!(rows.len(), 2);
            assert_eq!(rows[0].description, "first");
            assert_eq!(rows[1].description, "second");
        }
        other => panic!("unexpected answer {:?}", other),
    }
    match table.execute(Statement::SelectById("b".to_string())) {
        Answer::Rows(rows) => {
            assert_eq!(rows.len(), 1);
            assert_eq!(rows[0].description, "second");
        }
        other => panic!("unexpected answer {:?}", other),
    }
    match table.execute(Statement::SelectById("c".to_string())) {
        Answer::Rows(rows) => assert!(rows.is_empty()),
        other => panic!("unexpected answer {:?}", other),
    }
    assert_eq!(table.len(), 2);
}
