use todos::http::{error_body, error_status, parse_id, status_of, success_status, Operation};
use todos::repo::{create, delete, list, read, update, StoreFailure};
use todos::todo::{NewTodo, Todo, TodoError, TodoUpdate};

/// A stand-in for the `todos` table that answers each statement as the
/// schema does: ids start at 1 and are never reused.
struct MemoryTable {
    rows: Vec<Todo>,
    next_id: i64,
}

impl MemoryTable {
    fn new() -> MemoryTable {
        MemoryTable { rows: Vec::new(), next_id: 1 }
    }

    fn insert(&mut self, t: &NewTodo) -> Result<i64, StoreFailure> {
        let id = self.next_id;
        self.next_id += 1;
        self.rows.push(Todo { id, description: t.description.clone(), done: t.done });
        Ok(id)
    }

    fn select(&self, id: i64) -> Result<Option<Todo>, StoreFailure> {
        Ok(self.rows.iter().find(|t| t.id == id).cloned())
    }

    fn select_all(&self) -> Result<Vec<Todo>, StoreFailure> {
        Ok(self.rows.clone())
    }

    fn update(&mut self, id: i64, description: &str, done: bool) -> Result<u64, StoreFailure> {
        let mut n = 0;
        for t in self.rows.iter_mut().filter(|t| t.id == id) {
            t.description = description.to_string();
            t.done = done;
            n += 1;
        }
        Ok(n)
    }

    fn delete(&mut self, id: i64) -> Result<u64, StoreFailure> {
        let before = self.rows.len();
        self.rows.retain(|t| t.id != id);
        Ok((before - self.rows.len()) as u64)
    }
}

fn new_todo(description: &str, done: Option<bool>) -> NewTodo {
    NewTodo::from_fields(Some(description.to_string()), done).unwrap()
}

#[test]
fn missing_description_is_rejected() {
    assert_eq!(NewTodo::from_fields(None, Some(true)), Err(TodoError::Validation));
    assert_eq!(error_status(TodoError::Validation), 400);
}

#[test]
fn done_defaults_to_false() {
    let t = new_todo("buy milk", None);
    assert_eq!(t.description, "buy milk");
    assert!(!t.done);
    assert!(new_todo("x", Some(true)).done);
    assert!(!new_todo("x", Some(false)).done);
}

#[test]
fn create_returns_assigned_id() {
    assert_eq!(create(Ok(7)), Ok(7));
    assert_eq!(create(Err(StoreFailure)), Err(TodoError::Persistence));
}

#[test]
fn read_maps_replies() {
    let row = Todo { id: 3, description: "a".to_string(), done: true };
    assert_eq!(read(Ok(Some(row.clone()))), Ok(row));
    assert_eq!(read(Ok(None)), Err(TodoError::NotFound));
    assert_eq!(read(Err(StoreFailure)), Err(TodoError::Persistence));
}

#[test]
fn update_and_delete_report_missing_rows() {
    assert_eq!(update(Ok(0)), Err(TodoError::NotFound));
    assert_eq!(update(Ok(1)), Ok(()));
    assert_eq!(update(Err(StoreFailure)), Err(TodoError::Persistence));
    assert_eq!(delete(Ok(0)), Err(TodoError::NotFound));
    assert_eq!(delete(Ok(1)), Ok(()));
    assert_eq!(delete(Err(StoreFailure)), Err(TodoError::Persistence));
}

#[test]
fn list_of_empty_table_is_empty() {
    assert_eq!(list(Ok(Vec::new())), Ok(Vec::new()));
    assert_eq!(list(Err(StoreFailure)), Err(TodoError::Persistence));
}

#[test]
fn statuses() {
    assert_eq!(success_status(Operation::List), 200);
    assert_eq!(success_status(Operation::Create), 201);
    assert_eq!(success_status(Operation::Read), 200);
    assert_eq!(success_status(Operation::Update), 200);
    assert_eq!(success_status(Operation::Delete), 204);
    assert_eq!(error_status(TodoError::NotFound), 404);
    assert_eq!(error_status(TodoError::Persistence), 500);
    assert_eq!(status_of(Operation::Create, &Ok::<i64, TodoError>(1)), 201);
    assert_eq!(status_of(Operation::Read, &Err::<Todo, TodoError>(TodoError::NotFound)), 404);
}

#[test]
fn error_bodies() {
    assert_eq!(error_body(TodoError::NotFound), "{\"error\":\"not found\"}");
    assert_eq!(error_body(TodoError::Validation), "{\"error\":\"invalid request\"}");
    assert_eq!(error_body(TodoError::Persistence), "{\"error\":\"storage failure\"}");
}

#[test]
fn path_ids() {
    assert_eq!(parse_id("1"), Ok(1));
    assert_eq!(parse_id("0042"), Ok(42));
    assert_eq!(parse_id("9223372036854775807"), Ok(i64::MAX));
    assert_eq!(parse_id("9223372036854775808"), Err(TodoError::Validation));
    assert_eq!(parse_id("99999999999999999999x"), Err(TodoError::Validation));
    assert_eq!(parse_id(""), Err(TodoError::Validation));
    assert_eq!(parse_id("abc"), Err(TodoError::Validation));
    assert_eq!(parse_id("1a"), Err(TodoError::Validation));
    assert_eq!(parse_id("-1"), Err(TodoError::Validation));
}

#[test]
fn create_then_read_gives_description() {
    let mut table = MemoryTable::new();
    let id = create(table.insert(&new_todo("write report", None))).unwrap();
    let t = read(table.select(id)).unwrap();
    assert_eq!(t, Todo { id, description: "write report".to_string(), done: false });
}

#[test]
fn list_counts_creates_less_deletes() {
    let mut table = MemoryTable::new();
    for d in ["a", "b", "c", "d"] {
        create(table.insert(&new_todo(d, None))).unwrap();
    }
    assert_eq!(delete(table.delete(2)), Ok(()));
    create(table.insert(&new_todo("e", None))).unwrap();
    assert_eq!(delete(table.delete(4)), Ok(()));
    assert_eq!(delete(table.delete(4)), Err(TodoError::NotFound));
    let rows = list(table.select_all()).unwrap();
    let ids: Vec<i64> = rows.iter().map(|t| t.id).collect();
    assert_eq!(ids, vec![1, 3, 5]);
}

#[test]
fn update_then_read_and_idempotence() {
    let mut table = MemoryTable::new();
    let id = create(table.insert(&new_todo("a", None))).unwrap();
    assert_eq!(update(table.update(id, "b", true)), Ok(()));
    let once = table.select_all().unwrap();
    assert_eq!(read(table.select(id)), Ok(Todo { id, description: "b".to_string(), done: true }));
    assert_eq!(update(table.update(id, "b", true)), Ok(()));
    assert_eq!(table.select_all().unwrap(), once);
}

#[test]
fn delete_then_read_not_found() {
    let mut table = MemoryTable::new();
    let id = create(table.insert(&new_todo("a", None))).unwrap();
    assert_eq!(delete(table.delete(id)), Ok(()));
    assert_eq!(read(table.select(id)), Err(TodoError::NotFound));
}

#[test]
fn missing_id_not_found() {
    let mut table = MemoryTable::new();
    create(table.insert(&new_todo("a", None))).unwrap();
    assert_eq!(read(table.select(9)), Err(TodoError::NotFound));
    assert_eq!(update(table.update(9, "x", true)), Err(TodoError::NotFound));
    assert_eq!(delete(table.delete(9)), Err(TodoError::NotFound));
    assert_eq!(table.rows.len(), 1);
}

#[test]
fn buy_milk_scenario() {
    let mut table = MemoryTable::new();
    let created = create(table.insert(&new_todo("buy milk", None)));
    assert_eq!(created, Ok(1));
    assert_eq!(status_of(Operation::Create, &created), 201);
    let id = parse_id("1").unwrap();
    let r = read(table.select(id));
    assert_eq!(r, Ok(Todo { id: 1, description: "buy milk".to_string(), done: false }));
    assert_eq!(status_of(Operation::Read, &r), 200);
    let u = update(table.update(id, "buy milk", true));
    assert_eq!(status_of(Operation::Update, &u), 200);
    assert!(read(table.select(id)).unwrap().done);
    let d = delete(table.delete(id));
    assert_eq!(status_of(Operation::Delete, &d), 204);
    let gone = read(table.select(id));
    assert_eq!(status_of(Operation::Read, &gone), 404);
    assert_eq!(error_body(gone.unwrap_err()), "{\"error\":\"not found\"}");
}

#[test]
fn update_needs_both_fields() {
    assert_eq!(TodoUpdate::from_fields(Some("a".to_string()), None), Err(TodoError::Validation));
    assert_eq!(TodoUpdate::from_fields(None, Some(true)), Err(TodoError::Validation));
    assert_eq!(TodoUpdate::from_fields(None, None), Err(TodoError::Validation));
    assert_eq!(
        TodoUpdate::from_fields(Some("a".to_string()), Some(false)),
        Ok(TodoUpdate { description: "a".to_string(), done: false })
    );
}
