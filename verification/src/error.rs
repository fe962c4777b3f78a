use vstd::prelude::*;

use crate::decimal::{decimal, i32_to_decimal};
use crate::status::Status;

verus! {

/// An error answered to a client, with the message of its JSON body.
pub enum ApiError {
    BadRequest(String),
    NotFound(String),
    InternalError(String),
}

/// The mathematical value of an `ApiError`.
pub enum ApiErrorView {
    BadRequest(Seq<char>),
    NotFound(Seq<char>),
    InternalError(Seq<char>),
}

impl View for ApiError {
    type V = ApiErrorView;

    open spec fn view(&self) -> ApiErrorView {
        match self {
            ApiError::BadRequest(m) => ApiErrorView::BadRequest(m@),
            ApiError::NotFound(m) => ApiErrorView::NotFound(m@),
            ApiError::InternalError(m) => ApiErrorView::InternalError(m@),
        }
    }
}

impl ApiErrorView {
    /// The status an error is answered with.
    pub open spec fn status(self) -> Status {
        match self {
            ApiErrorView::BadRequest(_) => Status::BadRequest,
            ApiErrorView::NotFound(_) => Status::NotFound,
            ApiErrorView::InternalError(_) => Status::InternalServerError,
        }
    }

    /// The message carried in the body.
    pub open spec fn message(self) -> Seq<char> {
        match self {
            ApiErrorView::BadRequest(m) => m,
            ApiErrorView::NotFound(m) => m,
            ApiErrorView::InternalError(m) => m,
        }
    }
}

impl ApiError {
    pub fn status(&self) -> (s: Status)
        ensures
            s == self@.status(),
    {
        match self {
            ApiError::BadRequest(_) => Status::BadRequest,
            ApiError::NotFound(_) => Status::NotFound,
            ApiError::InternalError(_) => Status::InternalServerError,
        }
    }

    pub fn message(&self) -> (m: &String)
        ensures
            m@ == self@.message(),
    {
        match self {
            ApiError::BadRequest(m) => m,
            ApiError::NotFound(m) => m,
            ApiError::InternalError(m) => m,
        }
    }
}

/// A failed database statement: whether it found no row where one was
/// expected, and the text the database driver renders for the failure.
pub enum DbError {
    RowNotFound(String),
    Other(String),
}

impl DbError {
    /// The driver's text for the failure.
    pub open spec fn text(self) -> Seq<char> {
        match self {
            DbError::RowNotFound(m) => m@,
            DbError::Other(m) => m@,
        }
    }

    pub fn into_text(self) -> (m: String)
        ensures
            m@ == self.text(),
    {
        match self {
            DbError::RowNotFound(m) => m,
            DbError::Other(m) => m,
        }
    }
}

/// The message answered when no todo has the id `id`.
pub open spec fn todo_not_found_text(id: i32) -> Seq<char> {
    "Todo with id \""@ + decimal(id as int) + "\" not found"@
}

/// Renders `Todo with id "<id>" not found`.
pub fn todo_not_found_message(id: i32) -> (m: String)
    ensures
        m@ == todo_not_found_text(id),
{
    let mut m = String::from_str("Todo with id \"");
    let digits = i32_to_decimal(id);
    m.append(digits.as_str());
    m.append("\" not found");
    m
}

} // verus!
