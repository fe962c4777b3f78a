use vstd::prelude::*;

use crate::error::{todo_not_found_message, todo_not_found_text, ApiError, ApiErrorView, DbError};
use crate::statements::{rows_view, Statement};
use crate::status::Status;
use crate::todo::{CreateTodoBody, Json, Todo, TodoRow, TodoView, UpdateTodoBody};

verus! {

/// What a handler answers, as a mathematical value.
pub enum Reply {
    /// A status with one todo as the body.
    One(Status, TodoView),
    /// A status with a list of todos as the body.
    Many(Status, Seq<TodoView>),
    /// A status with no body.
    Bare(Status),
    /// An error.
    Failure(ApiErrorView),
}

impl Reply {
    pub open spec fn status(self) -> Status {
        match self {
            Reply::One(s, _) => s,
            Reply::Many(s, _) => s,
            Reply::Bare(s) => s,
            Reply::Failure(e) => e.status(),
        }
    }
}

pub open spec fn one_reply(r: Result<(Status, Json<Todo>), ApiError>) -> Reply {
    match r {
        Ok((s, Json(t))) => Reply::One(s, t@),
        Err(e) => Reply::Failure(e@),
    }
}

pub open spec fn many_reply(r: Result<(Status, Json<Vec<Todo>>), ApiError>) -> Reply {
    match r {
        Ok((s, Json(ts))) => Reply::Many(s, ts@.map_values(|t: Todo| t@)),
        Err(e) => Reply::Failure(e@),
    }
}

pub open spec fn bare_reply(r: Result<Status, ApiError>) -> Reply {
    match r {
        Ok(s) => Reply::Bare(s),
        Err(e) => Reply::Failure(e@),
    }
}

/// The error for a failed statement that looked up the todo `id`: no
/// such row is "not found", any other failure is internal.
pub open spec fn lookup_failure(id: i32, e: DbError) -> ApiErrorView {
    match e {
        DbError::RowNotFound(_) => ApiErrorView::NotFound(todo_not_found_text(id)),
        DbError::Other(m) => ApiErrorView::InternalError(m@),
    }
}

/// The answer to creating a todo: the inserted row, or an internal error.
pub open spec fn create_reply(out: Result<TodoRow, DbError>) -> Reply {
    match out {
        Ok(row) => Reply::One(Status::Created, row@),
        Err(e) => Reply::Failure(ApiErrorView::InternalError(e.text())),
    }
}

/// The answer to listing the todos: every row read, in order.
pub open spec fn list_reply(out: Result<Vec<TodoRow>, DbError>) -> Reply {
    match out {
        Ok(rows) => Reply::Many(Status::Okay, rows_view(rows@)),
        Err(e) => Reply::Failure(ApiErrorView::InternalError(e.text())),
    }
}

/// The answer to reading the todo `id`.
pub open spec fn get_reply(id: i32, out: Result<TodoRow, DbError>) -> Reply {
    match out {
        Ok(row) => Reply::One(Status::Okay, row@),
        Err(e) => Reply::Failure(lookup_failure(id, e)),
    }
}

/// The answer to updating the todo `id`.
pub open spec fn update_reply(id: i32, out: Result<TodoRow, DbError>) -> Reply {
    get_reply(id, out)
}

/// The answer to deleting the todo `id`, given how many rows went.
pub open spec fn delete_reply(id: i32, out: Result<u64, DbError>) -> Reply {
    match out {
        Ok(n) => if n == 0 {
            Reply::Failure(ApiErrorView::NotFound(todo_not_found_text(id)))
        } else {
            Reply::Bare(Status::NoContent)
        },
        Err(e) => Reply::Failure(lookup_failure(id, e)),
    }
}

fn lookup_error(id: i32, e: DbError) -> (err: ApiError)
    ensures
        err@ == lookup_failure(id, e),
{
    match e {
        DbError::RowNotFound(_) => ApiError::NotFound(todo_not_found_message(id)),
        DbError::Other(m) => ApiError::InternalError(m),
    }
}

/// `POST /todos`: answers the row that the insert returned.
pub fn create_todo(out: Result<TodoRow, DbError>) -> (r: Result<(Status, Json<Todo>), ApiError>)
    ensures
        one_reply(r) == create_reply(out),
{
    match out {
        Ok(row) => Ok((Status::Created, Json(Todo::new(row.id, row.title, row.completed)))),
        Err(e) => Err(ApiError::InternalError(e.into_text())),
    }
}

/// `GET /todos`: answers every row read, in the order read.
pub fn list_todos(out: Result<Vec<TodoRow>, DbError>) -> (r: Result<
    (Status, Json<Vec<Todo>>),
    ApiError,
>)
    ensures
        many_reply(r) == list_reply(out),
{
    match out {
        Ok(rows) => {
            let mut todos: Vec<Todo> = Vec::new();
            let n = rows.len();
            let mut i: usize = 0;
            while i < n
                invariant
                    n == rows@.len(),
                    i <= n,
                    todos@.len() == i,
                    forall|k: int| 0 <= k < i ==> #[trigger] todos@[k]@ == rows@[k]@,
                decreases n - i,
            {
                let row = &rows[i];
                todos.push(Todo::new(row.id, row.title.clone(), row.completed));
                i = i + 1;
            }
            assert(todos@.map_values(|t: Todo| t@) =~= rows_view(rows@));
            Ok((Status::Okay, Json(todos)))
        },
        Err(e) => Err(ApiError::InternalError(e.into_text())),
    }
}

/// `GET /todos/:id`: answers the row read, or why there is none.
pub fn get_todo(id: i32, out: Result<TodoRow, DbError>) -> (r: Result<(Status, Json<Todo>), ApiError>)
    ensures
        one_reply(r) == get_reply(id, out),
{
    match out {
        Ok(row) => Ok((Status::Okay, Json(Todo::new(row.id, row.title, row.completed)))),
        Err(e) => Err(lookup_error(id, e)),
    }
}

/// `PUT /todos/:id`: answers the row as the update left it, or why there
/// is none.
pub fn update_todo(id: i32, out: Result<TodoRow, DbError>) -> (r: Result<
    (Status, Json<Todo>),
    ApiError,
>)
    ensures
        one_reply(r) == update_reply(id, out),
{
    match out {
        Ok(row) => Ok((Status::Okay, Json(Todo::new(row.id, row.title, row.completed)))),
        Err(e) => Err(lookup_error(id, e)),
    }
}

/// `DELETE /todos/:id`: no content once a row went, "not found" when
/// none had the id.
pub fn delete_todo(id: i32, out: Result<u64, DbError>) -> (r: Result<Status, ApiError>)
    ensures
        bare_reply(r) == delete_reply(id, out),
{
    match out {
        Ok(n) => if n == 0 {
            Err(ApiError::NotFound(todo_not_found_message(id)))
        } else {
            Ok(Status::NoContent)
        },
        Err(e) => Err(lookup_error(id, e)),
    }
}

/// The statement `POST /todos` sends: insert the body's title.
pub fn create_todo_statement(body: CreateTodoBody) -> (s: Statement)
    ensures
        s == (Statement::InsertTodo { title: body.title }),
{
    Statement::InsertTodo { title: body.title }
}

/// The statement `GET /todos` sends.
pub fn list_todos_statement() -> (s: Statement)
    ensures
        s == Statement::SelectTodos,
{
    Statement::SelectTodos
}

/// The statement `GET /todos/:id` sends.
pub fn get_todo_statement(id: i32) -> (s: Statement)
    ensures
        s == (Statement::SelectTodo { id }),
{
    Statement::SelectTodo { id }
}

/// The statement `PUT /todos/:id` sends: the id, then the body's fields.
pub fn update_todo_statement(id: i32, body: UpdateTodoBody) -> (s: Statement)
    ensures
        s == (Statement::UpdateTodo { id, title: body.title, completed: body.completed }),
{
    Statement::UpdateTodo { id, title: body.title, completed: body.completed }
}

/// The statement `DELETE /todos/:id` sends.
pub fn delete_todo_statement(id: i32) -> (s: Statement)
    ensures
        s == (Statement::DeleteTodo { id }),
{
    Statement::DeleteTodo { id }
}

} // verus!
