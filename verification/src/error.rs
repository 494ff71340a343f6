//! Errors of the connection manager, and the text each one reports.

use sqlx::Error as SqlxError;
use vstd::prelude::*;

use crate::text;

verus! {

/// The error type of the standard library's I/O, carried and never looked into.
#[verifier::external_type_specification]
#[verifier::external_body]
pub struct ExIoError(std::io::Error);

/// The error type of the `sqlx` crate, carried and never looked into.
#[verifier::external_type_specification]
#[verifier::external_body]
pub struct ExSqlxError(SqlxError);

/// The error type of `sqlx`'s migrations, carried and never looked into.
#[verifier::external_type_specification]
#[verifier::external_body]
pub struct ExMigrateError(sqlx::migrate::MigrateError);

/// Everything that can go wrong in the connection manager.
#[derive(Debug)]
pub enum Error {
    /// I/O error when accessing database files.
    Io(std::io::Error),

    /// Error from the sqlx library.
    Sqlx(SqlxError),

    /// Migration error from the sqlx migrate framework.
    Migration(sqlx::migrate::MigrateError),

    /// Database has been closed and cannot be used.
    DatabaseClosed,

    /// Cannot attach a database as read-write to a read-only connection.
    CannotAttachReadWriteToReader,

    /// Invalid schema name provided for an attached database.
    InvalidSchemaName(String),

    /// Attempted to attach the same database multiple times.
    DuplicateAttachedDatabase(String),

    /// Invalid name for a scalar function: empty, too long, or holding a NUL byte.
    InvalidFunctionName(String),

    /// Invalid argument count for a scalar function. In SQLite, a negative arity means a
    /// variadic function, which this library does not offer.
    InvalidFunctionArity(i32),

    /// A scalar function with this name and argument count is already registered. Names
    /// compare without regard to ASCII case, as SQLite resolves them.
    DuplicateFunction { name: String, arity: i32 },

    /// The linked SQLite library already defines this name as a built-in with the same
    /// argument count, or as a variadic built-in.
    ShadowsBuiltinFunction { name: String, arity: i32 },

    /// The in-memory connection that checks a registration failed to open or query. The
    /// failure belongs to the probe, not to the function.
    ProbeConnectionFailed { name: String, reason: String },

    /// The linked SQLite library refused the registration, for instance for an arity above
    /// its own limit.
    FunctionRefused { name: String, arity: i32, reason: String },

    /// Two attached-database specs used the same schema alias.
    DuplicateSchemaName(String),
}

/// What an [`Error`] says, with texts as character sequences.
pub enum ErrorView {
    Io(std::io::Error),
    Sqlx(SqlxError),
    Migration(sqlx::migrate::MigrateError),
    DatabaseClosed,
    CannotAttachReadWriteToReader,
    InvalidSchemaName(Seq<char>),
    DuplicateAttachedDatabase(Seq<char>),
    InvalidFunctionName(Seq<char>),
    InvalidFunctionArity(int),
    DuplicateFunction { name: Seq<char>, arity: int },
    ShadowsBuiltinFunction { name: Seq<char>, arity: int },
    ProbeConnectionFailed { name: Seq<char>, reason: Seq<char> },
    FunctionRefused { name: Seq<char>, arity: int, reason: Seq<char> },
    DuplicateSchemaName(Seq<char>),
}

impl View for Error {
    type V = ErrorView;

    open spec fn view(&self) -> ErrorView {
        match *self {
            Error::Io(error) => ErrorView::Io(error),
            Error::Sqlx(error) => ErrorView::Sqlx(error),
            Error::Migration(error) => ErrorView::Migration(error),
            Error::DatabaseClosed => ErrorView::DatabaseClosed,
            Error::CannotAttachReadWriteToReader => ErrorView::CannotAttachReadWriteToReader,
            Error::InvalidSchemaName(name) => ErrorView::InvalidSchemaName(name@),
            Error::DuplicateAttachedDatabase(name) => ErrorView::DuplicateAttachedDatabase(name@),
            Error::InvalidFunctionName(name) => ErrorView::InvalidFunctionName(name@),
            Error::InvalidFunctionArity(arity) => ErrorView::InvalidFunctionArity(arity as int),
            Error::DuplicateFunction { name, arity } => ErrorView::DuplicateFunction {
                name: name@,
                arity: arity as int,
            },
            Error::ShadowsBuiltinFunction { name, arity } => ErrorView::ShadowsBuiltinFunction {
                name: name@,
                arity: arity as int,
            },
            Error::ProbeConnectionFailed { name, reason } => ErrorView::ProbeConnectionFailed {
                name: name@,
                reason: reason@,
            },
            Error::FunctionRefused { name, arity, reason } => ErrorView::FunctionRefused {
                name: name@,
                arity: arity as int,
                reason: reason@,
            },
            Error::DuplicateSchemaName(name) => ErrorView::DuplicateSchemaName(name@),
        }
    }
}

/// The text an error reports. `detail` is the text of the outside error that an
/// `Io`, `Sqlx` or `Migration` error carries, and plays no part in the others.
pub open spec fn error_text(error: ErrorView, detail: Seq<char>) -> Seq<char> {
    match error {
        ErrorView::Io(_) => "IO error: "@ + detail,
        ErrorView::Sqlx(_) => "Sqlx error: "@ + detail,
        ErrorView::Migration(_) => "Migration error: "@ + detail,
        ErrorView::DatabaseClosed => "Database has been closed"@,
        ErrorView::CannotAttachReadWriteToReader =>
            "Cannot attach database as read-write to a read-only connection"@,
        ErrorView::InvalidSchemaName(name) => "Invalid schema name '"@ + name
            + "': must be non-empty, contain only alphanumeric characters and underscores, not start with a digit, be at most 64 bytes long, and not be the reserved name 'main' or 'temp' (case-insensitive)"@,
        ErrorView::DuplicateAttachedDatabase(name) => "Database '"@ + name
            + "' appears multiple times in attached database list (would cause deadlock)"@,
        ErrorView::InvalidFunctionName(name) => "Invalid function name '"@ + name
            + "': must be non-empty, at most 255 bytes long, and contain no interior NUL byte"@,
        ErrorView::InvalidFunctionArity(arity) => "Invalid function arity "@ + text::decimal(arity)
            + ": must not be negative"@,
        ErrorView::DuplicateFunction { name, arity } => signature_text(
            "A function named '"@,
            name,
            arity,
        ) + " is already registered"@,
        ErrorView::ShadowsBuiltinFunction { name, arity } => signature_text(
            "A function named '"@,
            name,
            arity,
        ) + " replaces a SQLite built-in function. Choose a name no built-in uses."@,
        ErrorView::ProbeConnectionFailed { name, reason } =>
            "Cannot check whether SQLite accepts a function named '"@ + name
                + "': the probe failed: "@ + reason,
        ErrorView::FunctionRefused { name, arity, reason } => signature_text(
            "SQLite refused a function named '"@,
            name,
            arity,
        ) + ": "@ + reason,
        ErrorView::DuplicateSchemaName(name) => "Schema name '"@ + name
            + "' is used by more than one attached database"@,
    }
}

/// `head`, then a quoted function name and its argument count.
pub open spec fn signature_text(head: Seq<char>, name: Seq<char>, arity: int) -> Seq<char> {
    head + name + "' taking "@ + text::decimal(arity) + " argument(s)"@
}

/// Text that starts with `head` and then names a function and its argument count.
pub(crate) fn signature(head: &str, name: &str, arity: i32) -> (line: String)
    ensures
        line@ == signature_text(head@, name@, arity as int),
{
    let mut line = head.to_owned();
    line.append(name);
    line.append("' taking ");
    text::append_decimal(&mut line, arity);
    line.append(" argument(s)");
    line
}

fn prefixed(head: &str, tail: &str) -> (line: String)
    ensures
        line@ == head@ + tail@,
{
    let mut line = head.to_owned();
    line.append(tail);
    line
}

fn joined(head: &str, middle: &str, tail: &str) -> (line: String)
    ensures
        line@ == head@ + middle@ + tail@,
{
    let mut line = head.to_owned();
    line.append(middle);
    line.append(tail);
    line
}

/// Whether `detail` is the text of the outside error that `error` carries, if it carries one:
/// what that error's own `to_string` returns.
pub open spec fn own_detail(error: Error, detail: String) -> bool {
    match error {
        Error::Io(outside) => vstd::string::to_string_from_display_ensures(&outside, detail),
        Error::Sqlx(outside) => vstd::string::to_string_from_display_ensures(&outside, detail),
        Error::Migration(outside) => vstd::string::to_string_from_display_ensures(
            &outside,
            detail,
        ),
        _ => true,
    }
}

impl Error {
    /// The text this error reports, given the text of the outside error it carries, if it
    /// carries one.
    pub fn message_with(&self, detail: &str) -> (line: String)
        ensures
            line@ == error_text(self@, detail@),
    {
        match self {
            Error::Io(_) => prefixed("IO error: ", detail),
            Error::Sqlx(_) => prefixed("Sqlx error: ", detail),
            Error::Migration(_) => prefixed("Migration error: ", detail),
            Error::DatabaseClosed => "Database has been closed".to_owned(),
            Error::CannotAttachReadWriteToReader =>
                "Cannot attach database as read-write to a read-only connection".to_owned(),
            Error::InvalidSchemaName(name) => joined(
                "Invalid schema name '",
                name.as_str(),
                "': must be non-empty, contain only alphanumeric characters and underscores, not start with a digit, be at most 64 bytes long, and not be the reserved name 'main' or 'temp' (case-insensitive)",
            ),
            Error::DuplicateAttachedDatabase(name) => joined(
                "Database '",
                name.as_str(),
                "' appears multiple times in attached database list (would cause deadlock)",
            ),
            Error::InvalidFunctionName(name) => joined(
                "Invalid function name '",
                name.as_str(),
                "': must be non-empty, at most 255 bytes long, and contain no interior NUL byte",
            ),
            Error::InvalidFunctionArity(arity) => {
                let mut line = "Invalid function arity ".to_owned();
                text::append_decimal(&mut line, *arity);
                line.append(": must not be negative");
                line
            },
            Error::DuplicateFunction { name, arity } => {
                let mut line = signature("A function named '", name.as_str(), *arity);
                line.append(" is already registered");
                line
            },
            Error::ShadowsBuiltinFunction { name, arity } => {
                let mut line = signature("A function named '", name.as_str(), *arity);
                line.append(
                    " replaces a SQLite built-in function. Choose a name no built-in uses.",
                );
                line
            },
            Error::ProbeConnectionFailed { name, reason } => {
                let mut line = joined(
                    "Cannot check whether SQLite accepts a function named '",
                    name.as_str(),
                    "': the probe failed: ",
                );
                line.append(reason.as_str());
                line
            },
            Error::FunctionRefused { name, arity, reason } => {
                let mut line = signature("SQLite refused a function named '", name.as_str(), *arity);
                line.append(": ");
                line.append(reason.as_str());
                line
            },
            Error::DuplicateSchemaName(name) => joined(
                "Schema name '",
                name.as_str(),
                "' is used by more than one attached database",
            ),
        }
    }

    /// The text this error reports. An error from outside the library is shown by its own
    /// text, behind a label that names its origin.
    pub fn message(&self) -> (line: String)
        ensures
            exists|detail: String| #[trigger]
                own_detail(*self, detail) && line@ == error_text(self@, detail@),
    {
        let detail = match self {
            Error::Io(error) => error.to_string(),
            Error::Sqlx(error) => error.to_string(),
            Error::Migration(error) => error.to_string(),
            _ => String::new(),
        };
        assert(own_detail(*self, detail));
        self.message_with(detail.as_str())
    }
}

impl From<std::io::Error> for Error {
    fn from(error: std::io::Error) -> (converted: Error) {
        Error::Io(error)
    }
}

impl vstd::std_specs::convert::FromSpecImpl<std::io::Error> for Error {
    open spec fn obeys_from_spec() -> bool {
        true
    }

    open spec fn from_spec(error: std::io::Error) -> Error {
        Error::Io(error)
    }
}

impl From<SqlxError> for Error {
    fn from(error: SqlxError) -> (converted: Error) {
        Error::Sqlx(error)
    }
}

impl vstd::std_specs::convert::FromSpecImpl<SqlxError> for Error {
    open spec fn obeys_from_spec() -> bool {
        true
    }

    open spec fn from_spec(error: SqlxError) -> Error {
        Error::Sqlx(error)
    }
}

impl From<sqlx::migrate::MigrateError> for Error {
    fn from(error: sqlx::migrate::MigrateError) -> (converted: Error) {
        Error::Migration(error)
    }
}

impl vstd::std_specs::convert::FromSpecImpl<sqlx::migrate::MigrateError> for Error {
    open spec fn obeys_from_spec() -> bool {
        true
    }

    open spec fn from_spec(error: sqlx::migrate::MigrateError) -> Error {
        Error::Migration(error)
    }
}

} // verus!
