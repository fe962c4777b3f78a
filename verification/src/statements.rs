use vstd::prelude::*;

use crate::error::DbError;
use crate::todo::{TodoRow, TodoView};

verus! {

/// Adds a todo; the database assigns its id and leaves it not completed.
pub const INSERT_TODO: &'static str = "INSERT INTO todos (title) VALUES ($1) RETURNING id, title, completed";

/// Reads every todo, in increasing order of id.
pub const SELECT_TODOS: &'static str = "SELECT * FROM todos ORDER BY id";

/// Reads the todo with id `$1`.
pub const SELECT_TODO: &'static str = "SELECT * FROM todos WHERE id = $1";

/// Changes the title and the completion of the todo with id `$1`, each
/// only where a new value is given.
pub const UPDATE_TODO: &'static str = "UPDATE todos SET title = COALESCE($2, title), completed = COALESCE($3, completed) WHERE id = $1 RETURNING id, title, completed";

/// Removes the todo with id `$1`.
pub const DELETE_TODO: &'static str = "DELETE FROM todos WHERE id = $1";

/// The `todos` table: each todo under its own id.
pub open spec fn keyed(table: Map<i32, TodoView>) -> bool {
    forall|k: i32| #[trigger] table.contains_key(k) ==> table[k].id == k
}

/// What `INSERT_TODO` with title `title` may answer (`out`) and leave
/// behind (`after`), starting from `before`.
pub open spec fn insert_allows(
    before: Map<i32, TodoView>,
    title: Seq<char>,
    out: Result<TodoRow, DbError>,
    after: Map<i32, TodoView>,
) -> bool {
    match out {
        Ok(row) => {
            &&& !before.contains_key(row.id)
            &&& row@.title == title
            &&& !row@.completed
            &&& after == before.insert(row.id, row@)
        },
        Err(_) => after == before,
    }
}

/// `rows` holds each todo of `table` exactly once, in increasing order of id.
pub open spec fn lists_table(rows: Seq<TodoView>, table: Map<i32, TodoView>) -> bool {
    &&& forall|i: int|
        0 <= i < rows.len() ==> #[trigger] table.contains_key(rows[i].id) && table[rows[i].id]
            == rows[i]
    &&& forall|k: i32| #[trigger]
        table.contains_key(k) ==> exists|i: int| 0 <= i < rows.len() && #[trigger] rows[i].id == k
    &&& forall|i: int, j: int|
        0 <= i < j < rows.len() ==> #[trigger] rows[i].id < #[trigger] rows[j].id
}

/// The todos of a list of rows.
pub open spec fn rows_view(rows: Seq<TodoRow>) -> Seq<TodoView> {
    rows.map_values(|r: TodoRow| r@)
}

/// What `SELECT_TODOS` may answer; it changes nothing.
pub open spec fn select_all_allows(
    before: Map<i32, TodoView>,
    out: Result<Vec<TodoRow>, DbError>,
    after: Map<i32, TodoView>,
) -> bool {
    &&& after == before
    &&& out matches Ok(rows) ==> lists_table(rows_view(rows@), before)
}

/// What `SELECT_TODO` for `id` may answer; it changes nothing.
pub open spec fn select_one_allows(
    before: Map<i32, TodoView>,
    id: i32,
    out: Result<TodoRow, DbError>,
    after: Map<i32, TodoView>,
) -> bool {
    &&& after == before
    &&& match out {
        Ok(row) => before.contains_key(id) && row@ == before[id],
        Err(DbError::RowNotFound(_)) => !before.contains_key(id),
        Err(DbError::Other(_)) => true,
    }
}

/// A todo after an update: each field replaced where a new value is given.
pub open spec fn coalesced(
    current: TodoView,
    title: Option<Seq<char>>,
    completed: Option<bool>,
) -> TodoView {
    TodoView {
        id: current.id,
        title: match title {
            Some(t) => t,
            None => current.title,
        },
        completed: match completed {
            Some(c) => c,
            None => current.completed,
        },
    }
}

/// What `UPDATE_TODO` for `id` may answer and leave behind.
pub open spec fn update_allows(
    before: Map<i32, TodoView>,
    id: i32,
    title: Option<Seq<char>>,
    completed: Option<bool>,
    out: Result<TodoRow, DbError>,
    after: Map<i32, TodoView>,
) -> bool {
    match out {
        Ok(row) => {
            &&& before.contains_key(id)
            &&& row@ == coalesced(before[id], title, completed)
            &&& after == before.insert(id, row@)
        },
        Err(DbError::RowNotFound(_)) => !before.contains_key(id) && after == before,
        Err(DbError::Other(_)) => true,
    }
}

/// What `DELETE_TODO` for `id` may answer (the number of rows removed)
/// and leave behind.
pub open spec fn delete_allows(
    before: Map<i32, TodoView>,
    id: i32,
    out: Result<u64, DbError>,
    after: Map<i32, TodoView>,
) -> bool {
    match out {
        Ok(n) => if before.contains_key(id) {
            n == 1 && after == before.remove(id)
        } else {
            n == 0 && after == before
        },
        Err(DbError::RowNotFound(_)) => !before.contains_key(id) && after == before,
        Err(DbError::Other(_)) => true,
    }
}

/// A statement the service sends, with the values bound to its parameters.
pub enum Statement {
    InsertTodo { title: String },
    SelectTodos,
    SelectTodo { id: i32 },
    UpdateTodo { id: i32, title: Option<String>, completed: Option<bool> },
    DeleteTodo { id: i32 },
}

/// A value bound to a statement parameter.
pub enum Param {
    Int(i32),
    Text(String),
    MaybeText(Option<String>),
    MaybeBool(Option<bool>),
}

/// The view of an optional text.
pub open spec fn opt_view(text: Option<String>) -> Option<Seq<char>> {
    match text {
        Some(t) => Some(t@),
        None => None,
    }
}

/// What `UPDATE_TODO` may answer and leave behind when bound to `params`:
/// `$1` is the id, `$2` the new title (if any), `$3` the new completion (if
/// any). Parameters of any other shape allow nothing.
pub open spec fn update_params_allow(
    before: Map<i32, TodoView>,
    params: Seq<Param>,
    out: Result<TodoRow, DbError>,
    after: Map<i32, TodoView>,
) -> bool {
    params.len() == 3 && match (params[0], params[1], params[2]) {
        (Param::Int(id), Param::MaybeText(title), Param::MaybeBool(completed)) => update_allows(
            before,
            id,
            opt_view(title),
            completed,
            out,
            after,
        ),
        _ => false,
    }
}

impl Statement {
    /// The SQL text of the statement.
    pub open spec fn sql_text(self) -> Seq<char> {
        match self {
            Statement::InsertTodo { .. } => INSERT_TODO@,
            Statement::SelectTodos => SELECT_TODOS@,
            Statement::SelectTodo { .. } => SELECT_TODO@,
            Statement::UpdateTodo { .. } => UPDATE_TODO@,
            Statement::DeleteTodo { .. } => DELETE_TODO@,
        }
    }

    /// The values bound to `$1`, `$2`, ... in that order.
    pub open spec fn param_list(self) -> Seq<Param> {
        match self {
            Statement::InsertTodo { title } => seq![Param::Text(title)],
            Statement::SelectTodos => seq![],
            Statement::SelectTodo { id } => seq![Param::Int(id)],
            Statement::UpdateTodo { id, title, completed } => seq![
                Param::Int(id),
                Param::MaybeText(title),
                Param::MaybeBool(completed),
            ],
            Statement::DeleteTodo { id } => seq![Param::Int(id)],
        }
    }

    /// What the statement may answer as one row, and leave behind.
    pub open spec fn allows_row(
        self,
        before: Map<i32, TodoView>,
        out: Result<TodoRow, DbError>,
        after: Map<i32, TodoView>,
    ) -> bool {
        match self {
            Statement::InsertTodo { title } => insert_allows(before, title@, out, after),
            Statement::SelectTodo { id } => select_one_allows(before, id, out, after),
            Statement::UpdateTodo { id, title, completed } => update_allows(
                before,
                id,
                opt_view(title),
                completed,
                out,
                after,
            ),
            _ => false,
        }
    }

    /// What the statement may answer as a list of rows, and leave behind.
    pub open spec fn allows_rows(
        self,
        before: Map<i32, TodoView>,
        out: Result<Vec<TodoRow>, DbError>,
        after: Map<i32, TodoView>,
    ) -> bool {
        match self {
            Statement::SelectTodos => select_all_allows(before, out, after),
            _ => false,
        }
    }

    /// What the statement may answer as a count of rows, and leave behind.
    pub open spec fn allows_count(
        self,
        before: Map<i32, TodoView>,
        out: Result<u64, DbError>,
        after: Map<i32, TodoView>,
    ) -> bool {
        match self {
            Statement::DeleteTodo { id } => delete_allows(before, id, out, after),
            _ => false,
        }
    }

    pub fn sql(&self) -> (sql: &'static str)
        ensures
            sql@ == self.sql_text(),
    {
        match self {
            Statement::InsertTodo { .. } => INSERT_TODO,
            Statement::SelectTodos => SELECT_TODOS,
            Statement::SelectTodo { .. } => SELECT_TODO,
            Statement::UpdateTodo { .. } => UPDATE_TODO,
            Statement::DeleteTodo { .. } => DELETE_TODO,
        }
    }

    /// The values to bind, in parameter order.
    pub fn params(self) -> (params: Vec<Param>)
        ensures
            params@ == self.param_list(),
    {
        let ghost this = self;
        let mut params: Vec<Param> = Vec::new();
        match self {
            Statement::InsertTodo { title } => {
                params.push(Param::Text(title));
            },
            Statement::SelectTodos => {},
            Statement::SelectTodo { id } => {
                params.push(Param::Int(id));
            },
            Statement::UpdateTodo { id, title, completed } => {
                params.push(Param::Int(id));
                params.push(Param::MaybeText(title));
                params.push(Param::MaybeBool(completed));
            },
            Statement::DeleteTodo { id } => {
                params.push(Param::Int(id));
            },
        }
        assert(params@ =~= this.param_list());
        params
    }
}

} // verus!
