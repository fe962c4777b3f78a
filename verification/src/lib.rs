//! Verified core of a small todo web service: the todo model, the
//! decisions each HTTP handler makes from what the database answered,
//! the model of the SQL statements the service sends, settings
//! resolution, and request-id generation.
pub mod decimal;
pub mod error;
pub mod handlers;
pub mod laws;
pub mod request_id;
pub mod settings;
pub mod statements;
pub mod status;
pub mod todo;
