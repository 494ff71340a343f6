//! Values, calls, installations, and errors.

use std::borrow::Cow;
use std::sync::Arc;

use libsqlite3_sys as ffi;
use sqlite_functions::handler::{arguments, arguments_to_read, invoke, HandlerOutcome};
use sqlite_functions::install::{apply_all, failure_message, InstallState};
use sqlite_functions::value::{
    accessor, readable_length, result_error, Accessor, RawValue, ResultCall,
};
use sqlite_functions::{
    Error, FunctionError, InvocationScope, Registration, ScalarFunction, SqlValue, SqlValueRef,
};

type Handler = fn(&[SqlValueRef<'_, f64>]) -> Result<SqlValue<f64>, FunctionError>;

fn registration(name: &str, arity: i32, handler: Handler) -> Registration<Handler> {
    Registration::new(ScalarFunction {
        name: name.to_string(),
        arity,
        deterministic: true,
        invocation_scope: InvocationScope::DirectOnly,
        handler,
    })
    .expect("registration")
}

fn echo(args: &[SqlValueRef<'_, f64>]) -> Result<SqlValue<f64>, FunctionError> {
    Ok(args[0].to_owned())
}

fn pair(args: &[SqlValueRef<'_, f64>]) -> Result<SqlValue<f64>, FunctionError> {
    match (&args[0], &args[1]) {
        (SqlValueRef::Text(first), SqlValueRef::Text(second)) => {
            Ok(SqlValue::Text(format!("{first}|{second}")))
        }
        _ => Err(FunctionError::new("expected two text arguments")),
    }
}

fn no_args(args: &[SqlValueRef<'_, f64>]) -> Result<SqlValue<f64>, FunctionError> {
    assert!(args.is_empty());
    Ok(SqlValue::Text("no arguments".into()))
}

/// What SQLite would hand out again for a result it was given.
fn kept(call: &ResultCall<f64>) -> RawValue<'_, f64> {
    match call {
        ResultCall::Null => RawValue::Nothing,
        ResultCall::Int64(value) => RawValue::Int64(*value),
        ResultCall::Double(value) => RawValue::Double(*value),
        ResultCall::Text { text, length } => RawValue::Text(&text.as_bytes()[..*length as usize]),
        ResultCall::Blob { bytes, length } => RawValue::Blob(&bytes[..*length as usize]),
        _ => panic!("not a value"),
    }
}

#[test]
fn every_storage_class_survives_a_call() {
    let echo = registration("fn_round_trip", 1, echo);
    for value in [
        SqlValue::Null,
        SqlValue::Integer(42),
        SqlValue::Integer(i64::MIN),
        SqlValue::Real(1.5),
        SqlValue::Text("abc".to_string()),
        SqlValue::Text("a\0é😀".to_string()),
        SqlValue::Text(String::new()),
        SqlValue::Blob(vec![1, 2, 255]),
        SqlValue::Blob(vec![]),
    ] {
        let given = value.clone().write_to();
        let answer = invoke(echo.handler(), &[kept(&given)]).expect("echo");
        assert!(answer == value);
        let call = echo.finish(HandlerOutcome::Returned(Ok(answer)));
        assert!(SqlValueRef::from_raw(kept(&call)).to_owned() == value);
    }
}

#[test]
fn arguments_keep_their_order() {
    let pair = registration("fn_pair", 2, pair);
    let forward = invoke(pair.handler(), &[RawValue::Text(b"a"), RawValue::Text(b"b")]);
    assert!(forward == Ok(SqlValue::Text("a|b".to_string())));
    let reversed = invoke(pair.handler(), &[RawValue::Text(b"b"), RawValue::Text(b"a")]);
    assert!(reversed == Ok(SqlValue::Text("b|a".to_string())));
    let wrong = invoke(pair.handler(), &[RawValue::Text(b"b"), RawValue::Int64(1)]);
    assert!(wrong == Err(FunctionError::new("expected two text arguments")));
}

#[test]
fn a_call_without_arguments_reaches_the_handler() {
    let no_args = registration("fn_no_args", 0, no_args);
    assert!(invoke(no_args.handler(), &[]) == Ok(SqlValue::Text("no arguments".to_string())));
    assert_eq!(arguments::<f64>(&[]).len(), 0);
}

#[test]
fn a_handler_runs_once_for_each_call() {
    let mut runs = 0;
    let result = invoke(
        |args: &[SqlValueRef<'_, f64>]| {
            runs += 1;
            echo(args)
        },
        &[RawValue::Int64(5)],
    );
    assert!(result == Ok(SqlValue::Integer(5)));
    assert_eq!(runs, 1);
}

#[test]
fn argument_counts() {
    assert_eq!(arguments_to_read(false, false, 3), Some(3));
    assert_eq!(arguments_to_read(false, false, 0), Some(0));
    assert_eq!(arguments_to_read(false, false, -1), Some(0));
    assert_eq!(arguments_to_read(true, false, 3), None);
    assert_eq!(arguments_to_read(false, true, 3), None);
}

#[test]
fn a_handler_failure_and_a_panic_become_messages() {
    let failing = registration("fn_panics", 1, echo);
    match failing.finish::<f64>(HandlerOutcome::Returned(Err(FunctionError::new(
        "payload is not decodable".to_string(),
    )))) {
        ResultCall::Error { message, length } => {
            assert_eq!(message, "payload is not decodable");
            assert_eq!(length, 24);
        }
        _ => panic!("a failure must be an error"),
    }
    match failing.finish::<f64>(HandlerOutcome::Panicked) {
        ResultCall::Error { message, length } => {
            assert_eq!(message, "fn_panics: handler panicked");
            assert_eq!(length, 27);
        }
        _ => panic!("a panic must be an error"),
    }
    match result_error::<f64>("é".to_string()) {
        ResultCall::Error { message, length } => {
            assert_eq!(message, "é");
            assert_eq!(length, 2);
        }
        _ => panic!("an error must be an error"),
    }
}

#[test]
fn a_value_longer_than_a_c_int_counts_is_too_big() {
    let longest = i32::MAX as usize;
    match SqlValue::<f64>::Blob(vec![0; longest]).write_to() {
        ResultCall::Blob { bytes, length } => {
            assert_eq!(bytes.len(), longest);
            assert_eq!(length, i32::MAX);
        }
        _ => panic!("a blob that fits must be handed over"),
    }
    assert!(matches!(
        SqlValue::<f64>::Blob(vec![0; longest + 1]).write_to(),
        ResultCall::TooBig
    ));
}

#[test]
fn function_errors_hold_their_message() {
    let error = FunctionError::new("expected text");
    assert_eq!(error.message(), "expected text");
    assert_eq!(error.clone(), error);
    assert_ne!(error, FunctionError::new(String::from("other")));
}

#[test]
fn accessors_read_the_value_they_match() {
    assert!(SqlValue::<f64>::Null.is_null());
    assert!(!SqlValue::<f64>::Integer(0).is_null());
    assert_eq!(SqlValue::<f64>::Integer(7).as_integer(), Some(7));
    assert_eq!(SqlValue::Real(7.0).as_integer(), None);
    assert_eq!(SqlValue::Real(0.25).as_real(), Some(0.25));
    assert_eq!(SqlValue::<f64>::Null.as_real(), None);
    assert_eq!(SqlValue::<f64>::Text("t".to_string()).as_text(), Some("t"));
    assert_eq!(SqlValue::<f64>::Blob(vec![116]).as_text(), None);
    assert_eq!(
        SqlValue::<f64>::Blob(vec![116]).as_blob(),
        Some(&[116u8][..])
    );
    assert_eq!(SqlValue::<f64>::Text("t".to_string()).as_blob(), None);
}

#[test]
fn values_compare_by_class_and_floats_as_floats() {
    assert!(SqlValue::Real(0.0) == SqlValue::Real(-0.0));
    assert!(SqlValue::Real(1.5) == SqlValue::Real(1.5));
    assert!(SqlValue::Real(1.5) != SqlValue::Real(-1.5));
    assert!(SqlValue::Real(f64::NAN) != SqlValue::Real(f64::NAN));
    assert!(SqlValue::Integer(0) != SqlValue::Real(0.0));
    assert!(SqlValue::<f64>::Null == SqlValue::Null);
    assert!(SqlValueRef::Real(0.0) == SqlValueRef::Real(-0.0));
    let owned: SqlValueRef<'_, f64> = SqlValueRef::Text(Cow::Owned("x".to_string()));
    assert!(owned == SqlValueRef::Text(Cow::Borrowed("x")));
    assert!(owned.clone() == owned);
    assert!(SqlValueRef::Blob(b"x") != owned);
    assert!(SqlValueRef::<f64>::Blob(b"xy") != SqlValueRef::Blob(b"xz"));
}

#[test]
fn storage_classes_choose_the_accessor() {
    assert_eq!(accessor(false, ffi::SQLITE_INTEGER), Accessor::Int64);
    assert_eq!(accessor(false, ffi::SQLITE_FLOAT), Accessor::Double);
    assert_eq!(accessor(false, ffi::SQLITE_TEXT), Accessor::Text);
    assert_eq!(accessor(false, ffi::SQLITE_BLOB), Accessor::Blob);
    assert_eq!(accessor(false, ffi::SQLITE_NULL), Accessor::Nothing);
    assert_eq!(accessor(false, 99), Accessor::Nothing);
    assert_eq!(accessor(true, ffi::SQLITE_TEXT), Accessor::Nothing);

    assert_eq!(readable_length(false, 3), 3);
    assert_eq!(readable_length(false, 0), 0);
    assert_eq!(readable_length(false, -3), 0);
    assert_eq!(readable_length(true, 3), 0);
}

#[test]
fn text_borrows_when_it_is_utf8_and_is_repaired_when_it_is_not() {
    match SqlValueRef::<f64>::from_raw(RawValue::Text("größe".as_bytes())) {
        SqlValueRef::Text(Cow::Borrowed(text)) => assert_eq!(text, "größe"),
        _ => panic!("UTF-8 must borrow"),
    }
    match SqlValueRef::<f64>::from_raw(RawValue::Text(b"a\xffb")) {
        SqlValueRef::Text(Cow::Owned(text)) => assert_eq!(text, "a\u{FFFD}b"),
        _ => panic!("invalid UTF-8 must be repaired"),
    }
    match SqlValueRef::<f64>::from_raw(RawValue::Text(b"")) {
        SqlValueRef::Text(text) => assert_eq!(text, ""),
        _ => panic!("an empty buffer is empty text"),
    }
}

fn functions() -> Vec<Arc<Registration<Handler>>> {
    vec![
        Arc::new(registration("one", 1, echo)),
        Arc::new(registration("two", 2, pair)),
        Arc::new(registration("three", 3, echo)),
    ]
}

#[test]
fn installs_every_function_in_order() {
    let none: Vec<String> = Vec::new();
    let (created, state) = apply_all(&functions(), none, |mut created, function| {
        created.push(function.name().to_string());
        (created, ffi::SQLITE_OK)
    });
    assert_eq!(state, InstallState::Installed);
    assert_eq!(created, vec!["one", "two", "three"]);
}

#[test]
fn stops_installing_at_the_first_failure() {
    let none: Vec<String> = Vec::new();
    let set = functions();
    let (created, state) = apply_all(&set, none, |mut created, function| {
        created.push(function.name().to_string());
        let code = if function.arity() == 2 {
            ffi::SQLITE_NOMEM
        } else {
            ffi::SQLITE_OK
        };
        (created, code)
    });
    assert_eq!(state, InstallState::Failed { index: 1, code: 7 });
    assert_eq!(created, vec!["one", "two"]);
    assert_eq!(
        failure_message(&set[1], "out of memory", 7),
        "failed to register SQL function 'two' taking 2 argument(s): out of memory (code 7)"
    );
}

#[test]
fn an_empty_set_needs_no_lock() {
    let empty: Vec<Arc<Registration<Handler>>> = Vec::new();
    assert_eq!(InstallState::start(&empty), InstallState::Installed);
    assert_eq!(
        apply_all(&empty, (), |_, _| unreachable!()),
        ((), InstallState::Installed)
    );
    let set = functions();
    assert_eq!(InstallState::start(&set), InstallState::Locking);
    let first = InstallState::Locking.advance(&set, 0);
    assert_eq!(first, InstallState::Creating { index: 0 });
    assert_eq!(
        first.function(&set).map(|function| function.name().to_string()),
        Some("one".to_string())
    );
}

#[test]
fn outside_errors_are_shown_behind_a_label() {
    let io = Error::from(std::io::Error::new(
        std::io::ErrorKind::NotFound,
        "no such file",
    ));
    assert!(matches!(io, Error::Io(_)));
    assert_eq!(io.message(), "IO error: no such file");

    let sqlx = Error::from(sqlx::Error::RowNotFound);
    assert!(matches!(sqlx, Error::Sqlx(_)));
    assert_eq!(
        sqlx.message(),
        format!("Sqlx error: {}", sqlx::Error::RowNotFound)
    );

    let migration = Error::from(sqlx::migrate::MigrateError::VersionMissing(3));
    assert!(matches!(migration, Error::Migration(_)));
    assert_eq!(
        migration.message(),
        format!(
            "Migration error: {}",
            sqlx::migrate::MigrateError::VersionMissing(3)
        )
    );
    assert_eq!(migration.message_with("why"), "Migration error: why");
}

#[test]
fn the_other_errors_have_fixed_texts() {
    assert_eq!(Error::DatabaseClosed.message(), "Database has been closed");
    assert_eq!(
        Error::CannotAttachReadWriteToReader.message(),
        "Cannot attach database as read-write to a read-only connection"
    );
    assert_eq!(
        Error::InvalidSchemaName("1x".to_string()).message(),
        "Invalid schema name '1x': must be non-empty, contain only alphanumeric characters and underscores, not start with a digit, be at most 64 bytes long, and not be the reserved name 'main' or 'temp' (case-insensitive)"
    );
    assert_eq!(
        Error::DuplicateAttachedDatabase("a.db".to_string()).message(),
        "Database 'a.db' appears multiple times in attached database list (would cause deadlock)"
    );
    assert_eq!(
        Error::DuplicateSchemaName("x".to_string()).message(),
        "Schema name 'x' is used by more than one attached database"
    );
}
