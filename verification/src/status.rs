use vstd::prelude::*;

verus! {

/// The HTTP statuses the service answers with.
#[derive(PartialEq, Eq, Structural, Clone, Copy, Debug)]
pub enum Status {
    Okay,
    Created,
    NoContent,
    BadRequest,
    NotFound,
    InternalServerError,
}

impl Status {
    /// The numeric HTTP status code.
    pub open spec fn code_of(self) -> u16 {
        match self {
            Status::Okay => 200,
            Status::Created => 201,
            Status::NoContent => 204,
            Status::BadRequest => 400,
            Status::NotFound => 404,
            Status::InternalServerError => 500,
        }
    }

    /// Whether the status reports success (a 2xx code).
    pub open spec fn is_success(self) -> bool {
        200 <= self.code_of() < 300
    }

    pub fn code(&self) -> (c: u16)
        ensures
            c == self.code_of(),
    {
        match self {
            Status::Okay => 200,
            Status::Created => 201,
            Status::NoContent => 204,
            Status::BadRequest => 400,
            Status::NotFound => 404,
            Status::InternalServerError => 500,
        }
    }
}

/// Answer of the liveness probe: the process is up.
pub fn liveness() -> (s: Status)
    ensures
        s == Status::Okay,
{
    Status::Okay
}

/// Answer of the readiness probe: the service takes requests.
pub fn readiness() -> (s: Status)
    ensures
        s == Status::Okay,
{
    Status::Okay
}

/// Answer for a path that no route matches.
pub fn not_found() -> (s: Status)
    ensures
        s == Status::NotFound,
{
    Status::NotFound
}

} // verus!
