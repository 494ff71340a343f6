//! Consumer-supplied scalar SQL functions for every connection of a SQLite connection
//! manager.
//!
//! A function belongs to a *connection*, not to a database file: SQLite keeps user-defined
//! functions in per-connection state, so every connection that runs a query naming one must
//! have it. This library holds the rules by which functions are registered, checked against
//! the linked SQLite library, captured by a database, installed on its connections, and
//! called.
//!
//! - [`function`]: what a caller registers, the rules for names and arities, and the flags.
//! - [`registry`]: the registered functions, in order, and how a function joins them.
//! - [`probe`]: asking the linked library whether it accepts a function.
//! - [`install`]: putting a database's functions on a connection.
//! - [`handler`]: answering a call.
//! - [`value`]: the values that cross between SQLite and a handler.
//! - [`error`] and [`text`]: errors, their messages, and the text they are made of.
//! - [`sqlite`]: the numbers of SQLite's C interface.
//! - [`promises`]: what all of this comes to, spelled out in bytes, numbers and calls.
//!
//! The calls into SQLite itself are the caller's: the library says which call comes next and
//! takes its result code.

pub mod error;
pub mod function;
pub mod handler;
pub mod install;
pub mod probe;
pub mod promises;
pub mod registry;
pub mod sqlite;
pub mod text;
pub mod value;

pub use error::Error;
pub use function::{InvocationScope, Registration, ScalarFunction};
pub use handler::FunctionError;
pub use registry::{register_function, register_or_replace_function, FunctionSet, Registry};
pub use value::{SqlValue, SqlValueRef};
