use sandbox::error::{ApiError, DbError};
use sandbox::handlers::{
    create_todo, create_todo_statement, delete_todo, delete_todo_statement, get_todo,
    get_todo_statement, list_todos, list_todos_statement, update_todo, update_todo_statement,
};
use sandbox::statements::{
    Param, Statement, DELETE_TODO, INSERT_TODO, SELECT_TODO, SELECT_TODOS, UPDATE_TODO,
};
use sandbox::status::Status;
use sandbox::todo::{CreateTodoBody, Json, Todo, TodoRow, UpdateTodoBody};

const NO_ROW: &str = "no rows returned by a query that expected to return at least one row";

/// A stand-in for the `todos` table that runs the service's statements,
/// reading the SQL text and the bound parameters the library gives.
struct Table {
    rows: Vec<(i32, String, bool)>,
    next_id: i32,
}

impl Table {
    /// The rows of the original's `todos` fixture.
    fn fixture() -> Table {
        Table {
            rows: vec![(1, "Buy groceries".to_string(), false), (2, "Do homework".to_string(), true)],
            next_id: 3,
        }
    }

    fn position(&self, id: i32) -> Option<usize> {
        self.rows.iter().position(|r| r.0 == id)
    }

    fn row(&self, i: usize) -> TodoRow {
        let (id, title, completed) = self.rows[i].clone();
        TodoRow { id, title, completed }
    }

    fn fetch_one(&mut self, statement: Statement) -> Result<TodoRow, DbError> {
        let sql = statement.sql();
        let params = statement.params();
        let missing = Err(DbError::RowNotFound(NO_ROW.to_string()));
        if sql == INSERT_TODO {
            let title = match &params[..] {
                [Param::Text(t)] => t.clone(),
                _ => panic!("bad parameters"),
            };
            self.rows.push((self.next_id, title, false));
            self.next_id += 1;
            Ok(self.row(self.rows.len() - 1))
        } else if sql == SELECT_TODO {
            let id = match &params[..] {
                [Param::Int(id)] => *id,
                _ => panic!("bad parameters"),
            };
            match self.position(id) {
                Some(i) => Ok(self.row(i)),
                None => missing,
            }
        } else if sql == UPDATE_TODO {
            let (id, title, completed) = match &params[..] {
                [Param::Int(id), Param::MaybeText(t), Param::MaybeBool(c)] => (*id, t.clone(), *c),
                _ => panic!("bad parameters"),
            };
            match self.position(id) {
                Some(i) => {
                    if let Some(t) = title {
                        self.rows[i].1 = t;
                    }
                    if let Some(c) = completed {
                        self.rows[i].2 = c;
                    }
                    Ok(self.row(i))
                }
                None => missing,
            }
        } else {
            panic!("not a one-row statement: {}", sql)
        }
    }

    fn fetch_all(&mut self, statement: Statement) -> Result<Vec<TodoRow>, DbError> {
        assert_eq!(statement.sql(), SELECT_TODOS);
        assert!(statement.params().is_empty());
        let mut rows: Vec<TodoRow> = (0..self.rows.len()).map(|i| self.row(i)).collect();
        rows.sort_by_key(|r| r.id);
        Ok(rows)
    }

    fn execute(&mut self, statement: Statement) -> Result<u64, DbError> {
        assert_eq!(statement.sql(), DELETE_TODO);
        let id = match &statement.params()[..] {
            [Param::Int(id)] => *id,
            _ => panic!("bad parameters"),
        };
        match self.position(id) {
            Some(i) => {
                self.rows.remove(i);
                Ok(1)
            }
            None => Ok(0),
        }
    }
}

fn assert_error_response(error: &ApiError) {
    assert!(!error.message().is_empty());
}

fn get(table: &mut Table, id: i32) -> Result<(Status, Json<Todo>), ApiError> {
    let out = table.fetch_one(get_todo_statement(id));
    get_todo(id, out)
}

#[test]
fn create_todo_success() {
    let mut table = Table::fixture();
    let body = CreateTodoBody { title: "Some Task".to_string() };
    let out = table.fetch_one(create_todo_statement(body));
    let (status, Json(todo)) = match create_todo(out) {
        Ok(v) => v,
        Err(_) => panic!("expected success"),
    };
    assert_eq!(status.code(), 201);
    assert_eq!(todo.title(), "Some Task");
    assert_eq!(todo.completed(), false);
}

#[test]
fn list_todos_success() {
    let mut table = Table::fixture();
    let out = table.fetch_all(list_todos_statement());
    let (status, Json(todos)) = match list_todos(out) {
        Ok(v) => v,
        Err(_) => panic!("expected success"),
    };
    assert_eq!(status.code(), 200);
    assert_eq!(todos.len(), 2);
    assert_eq!(todos[0].id(), 1);
    assert_eq!(todos[0].title(), "Buy groceries");
    assert_eq!(todos[0].completed(), false);
    assert_eq!(todos[1].id(), 2);
    assert_eq!(todos[1].title(), "Do homework");
    assert_eq!(todos[1].completed(), true);
}

#[test]
fn get_todo_success() {
    let mut table = Table::fixture();
    let (status, Json(todo)) = match get(&mut table, 1) {
        Ok(v) => v,
        Err(_) => panic!("expected success"),
    };
    assert_eq!(status.code(), 200);
    assert_eq!(todo.id(), 1);
    assert_eq!(todo.title(), "Buy groceries");
    assert_eq!(todo.completed(), false);
}

#[test]
fn get_todo_rejects_unknwon_id() {
    let mut table = Table::fixture();
    let error = match get(&mut table, 42) {
        Ok(_) => panic!("expected an error"),
        Err(e) => e,
    };
    assert_eq!(error.status().code(), 404);
    assert_error_response(&error);
}

#[test]
fn update_todo_success() {
    let mut table = Table::fixture();
    let body = UpdateTodoBody { title: Some("Some Task".to_string()), completed: Some(true) };
    let out = table.fetch_one(update_todo_statement(1, body));
    let (status, Json(todo)) = match update_todo(1, out) {
        Ok(v) => v,
        Err(_) => panic!("expected success"),
    };
    assert_eq!(status.code(), 200);
    assert_eq!(todo.id(), 1);
    assert_eq!(todo.title(), "Some Task");
    assert_eq!(todo.completed(), true);
}

#[test]
fn update_todo_rejects_unknown_id() {
    let mut table = Table::fixture();
    let body = UpdateTodoBody { title: Some("Some Task".to_string()), completed: Some(true) };
    let out = table.fetch_one(update_todo_statement(42, body));
    let error = match update_todo(42, out) {
        Ok(_) => panic!("expected an error"),
        Err(e) => e,
    };
    assert_eq!(error.status().code(), 404);
    assert_error_response(&error);
}

#[test]
fn delete_todo_success() {
    let mut table = Table::fixture();
    let out = table.execute(delete_todo_statement(1));
    let status = match delete_todo(1, out) {
        Ok(s) => s,
        Err(_) => panic!("expected success"),
    };
    assert_eq!(status.code(), 204);
    let error = match get(&mut table, 1) {
        Ok(_) => panic!("expected an error"),
        Err(e) => e,
    };
    assert_eq!(error.status().code(), 404);
}

#[test]
fn delete_todo_rejects_unknown_id() {
    let mut table = Table::fixture();
    let out = table.execute(delete_todo_statement(42));
    let error = match delete_todo(42, out) {
        Ok(_) => panic!("expected an error"),
        Err(e) => e,
    };
    assert_eq!(error.status().code(), 404);
    assert_error_response(&error);
}

#[test]
fn update_keeps_fields_not_given() {
    let mut table = Table::fixture();
    let body = UpdateTodoBody { title: None, completed: Some(true) };
    let out = table.fetch_one(update_todo_statement(1, body));
    let (_, Json(todo)) = match update_todo(1, out) {
        Ok(v) => v,
        Err(_) => panic!("expected success"),
    };
    assert_eq!(todo.title(), "Buy groceries");
    assert!(todo.completed());
    let (_, Json(again)) = match get(&mut table, 1) {
        Ok(v) => v,
        Err(_) => panic!("expected success"),
    };
    assert_eq!(again.title(), "Buy groceries");
    assert!(again.completed());
}

#[test]
fn list_after_create_adds_the_new_todo() {
    let mut table = Table::fixture();
    let body = CreateTodoBody { title: "Water plants".to_string() };
    let created = match create_todo(table.fetch_one(create_todo_statement(body))) {
        Ok((_, Json(t))) => t,
        Err(_) => panic!("expected success"),
    };
    let (_, Json(todos)) = match list_todos(table.fetch_all(list_todos_statement())) {
        Ok(v) => v,
        Err(_) => panic!("expected success"),
    };
    assert_eq!(todos.len(), 3);
    assert_eq!(todos[2].id(), created.id());
    assert_eq!(todos[2].title(), "Water plants");
    assert!(!todos[2].completed());
}

#[test]
fn statements_bind_their_parameters_in_order() {
    let s = update_todo_statement(
        5,
        UpdateTodoBody { title: Some("x".to_string()), completed: None },
    );
    assert_eq!(s.sql(), UPDATE_TODO);
    match &s.params()[..] {
        [Param::Int(5), Param::MaybeText(Some(t)), Param::MaybeBool(None)] => assert_eq!(t, "x"),
        _ => panic!("parameters out of order"),
    }
    assert_eq!(create_todo_statement(CreateTodoBody { title: "y".to_string() }).sql(), INSERT_TODO);
    assert_eq!(get_todo_statement(3).sql(), SELECT_TODO);
    assert_eq!(list_todos_statement().sql(), SELECT_TODOS);
    assert!(SELECT_TODOS.ends_with("ORDER BY id"));
}

#[test]
fn not_found_message_names_the_id() {
    let mut table = Table::fixture();
    let error = match get(&mut table, 42) {
        Ok(_) => panic!("expected an error"),
        Err(e) => e,
    };
    assert_eq!(error.message(), "Todo with id \"42\" not found");
    let error = match delete_todo(-7, table.execute(delete_todo_statement(-7))) {
        Ok(_) => panic!("expected an error"),
        Err(e) => e,
    };
    assert_eq!(error.message(), "Todo with id \"-7\" not found");
}

#[test]
fn database_failures_are_internal_errors() {
    let text = "pool timed out while waiting for an open connection";
    for error in [
        match create_todo(Err(DbError::Other(text.to_string()))) {
            Ok(_) => panic!("expected an error"),
            Err(e) => e,
        },
        match get_todo(1, Err(DbError::Other(text.to_string()))) {
            Ok(_) => panic!("expected an error"),
            Err(e) => e,
        },
        match update_todo(1, Err(DbError::Other(text.to_string()))) {
            Ok(_) => panic!("expected an error"),
            Err(e) => e,
        },
        match list_todos(Err(DbError::Other(text.to_string()))) {
            Ok(_) => panic!("expected an error"),
            Err(e) => e,
        },
    ] {
        assert_eq!(error.status().code(), 500);
        assert_eq!(error.message(), text);
    }
    let error = match delete_todo(1, Err(DbError::Other(text.to_string()))) {
        Ok(_) => panic!("expected an error"),
        Err(e) => e,
    };
    assert_eq!(error.status(), Status::InternalServerError);
}

#[test]
fn create_failure_with_no_row_is_internal() {
    let error = match create_todo(Err(DbError::RowNotFound(NO_ROW.to_string()))) {
        Ok(_) => panic!("expected an error"),
        Err(e) => e,
    };
    assert_eq!(error.status().code(), 500);
    assert_eq!(error.message(), NO_ROW);
}

#[test]
fn todo_new_keeps_its_fields() {
    let todo = Todo::new(9, "Water plants".to_string(), true);
    assert_eq!(todo.id(), 9);
    assert_eq!(todo.title(), "Water plants");
    assert!(todo.completed());
}

#[test]
fn list_of_no_rows_is_empty() {
    let (status, Json(todos)) = match list_todos(Ok(Vec::new())) {
        Ok(v) => v,
        Err(_) => panic!("expected success"),
    };
    assert_eq!(status, Status::Okay);
    assert!(todos.is_empty());
}
