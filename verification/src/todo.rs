use vstd::prelude::*;

verus! {

/// What a todo is, as a mathematical value.
pub struct TodoView {
    pub id: i32,
    pub title: Seq<char>,
    pub completed: bool,
}

/// A todo as it is sent to clients.
pub struct Todo {
    id: i32,
    title: String,
    completed: bool,
}

impl View for Todo {
    type V = TodoView;

    closed spec fn view(&self) -> TodoView {
        TodoView { id: self.id, title: self.title@, completed: self.completed }
    }
}

impl Todo {
    /// Builds a todo from its three fields.
    pub fn new(id: i32, title: String, completed: bool) -> (todo: Self)
        ensures
            todo@ == (TodoView { id, title: title@, completed }),
    {
        Self { id, title, completed }
    }
}

} // verus!

verus! {

impl Todo {
    pub fn id(&self) -> (id: i32)
        ensures
            id == self@.id,
    {
        self.id
    }

    pub fn title(&self) -> (title: &String)
        ensures
            title@ == self@.title,
    {
        &self.title
    }

    pub fn completed(&self) -> (completed: bool)
        ensures
            completed == self@.completed,
    {
        self.completed
    }
}

/// A row of the `todos` table as the database returns it.
pub struct TodoRow {
    pub id: i32,
    pub title: String,
    pub completed: bool,
}

impl View for TodoRow {
    type V = TodoView;

    open spec fn view(&self) -> TodoView {
        TodoView { id: self.id, title: self.title@, completed: self.completed }
    }
}

/// The body of a request that creates a todo.
pub struct CreateTodoBody {
    pub title: String,
}

/// The body of a request that updates a todo: the fields to change.
pub struct UpdateTodoBody {
    pub title: Option<String>,
    pub completed: Option<bool>,
}

/// A body that is read from, or written as, JSON.
pub struct Json<T>(pub T);

} // verus!
