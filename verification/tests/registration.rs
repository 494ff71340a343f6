//! Registering functions: what is refused, what is stored, and what a probe decides.

use std::sync::Arc;

use libsqlite3_sys as ffi;
use sqlite_functions::function::{function_flags, validate_name};
use sqlite_functions::probe::{
    probe, ProbeCall, ProbeOutcome, ProbeReport, ProbeState, BUILTIN_QUERY,
};
use sqlite_functions::registry::OnDuplicate;
use sqlite_functions::text::{describe, eq_ignore_ascii_case};
use sqlite_functions::{
    register_function, register_or_replace_function, Error, FunctionError, InvocationScope,
    Registration, Registry, ScalarFunction, SqlValue, SqlValueRef,
};

type Handler = fn(&[SqlValueRef<'_, f64>]) -> Result<SqlValue<f64>, FunctionError>;

fn null_handler(_args: &[SqlValueRef<'_, f64>]) -> Result<SqlValue<f64>, FunctionError> {
    Ok(SqlValue::Null)
}

fn function(name: &str, arity: i32) -> ScalarFunction<Handler> {
    ScalarFunction {
        name: name.to_string(),
        arity,
        deterministic: true,
        invocation_scope: InvocationScope::DirectOnly,
        handler: null_handler,
    }
}

/// What a SQLite library answers when every call goes well: `lower` and `upper` are built-ins
/// with one argument, `max` is variadic, and no function takes more than 1000 arguments. The
/// session counts the probes.
fn library(asked: usize, registration: &Arc<Registration<Handler>>) -> (usize, ProbeReport) {
    let unbound = (String::new(), 0);
    let (_, outcome) = probe(registration, unbound, |mut bound, call| {
        let code = match call {
            ProbeCall::Open { database, flags } => {
                assert_eq!(database, ":memory:");
                assert_eq!(flags, ffi::SQLITE_OPEN_READWRITE | ffi::SQLITE_OPEN_CREATE);
                ffi::SQLITE_OK
            }
            ProbeCall::Prepare { sql } => {
                assert_eq!(sql, BUILTIN_QUERY);
                ffi::SQLITE_OK
            }
            ProbeCall::BindText {
                index,
                name,
                length,
            } => {
                assert_eq!(index, 1);
                bound.0 = String::from_utf8(name[..length as usize].to_vec()).unwrap();
                ffi::SQLITE_OK
            }
            ProbeCall::BindInt { index, value } => {
                assert_eq!(index, 2);
                bound.1 = value;
                ffi::SQLITE_OK
            }
            ProbeCall::Step => match (bound.0.to_ascii_lowercase().as_str(), bound.1) {
                ("lower", 1) | ("upper", 1) | ("max", _) => ffi::SQLITE_ROW,
                _ => ffi::SQLITE_DONE,
            },
            ProbeCall::Finalize => ffi::SQLITE_OK,
            ProbeCall::CreateFunction { function } => {
                assert_eq!(function.c_name.last(), Some(&0));
                if function.arity > 1000 {
                    ffi::SQLITE_MISUSE
                } else {
                    ffi::SQLITE_OK
                }
            }
            ProbeCall::Close => ffi::SQLITE_OK,
            ProbeCall::Nothing { .. } => unreachable!(),
        };
        (bound, code)
    });
    let report = ProbeReport {
        outcome,
        text: "bad parameter or other API misuse".to_string(),
    };
    (asked + 1, report)
}

fn register(
    registry: &mut Registry<Handler>,
    function: ScalarFunction<Handler>,
) -> Result<(), Error> {
    register_function(registry, function, 0, library).1
}

fn register_or_replace(
    registry: &mut Registry<Handler>,
    function: ScalarFunction<Handler>,
) -> Result<(), Error> {
    register_or_replace_function(registry, function, 0, library).1
}

fn names(registry: &Registry<Handler>) -> Vec<(String, i32)> {
    registry
        .snapshot()
        .iter()
        .map(|entry| (entry.name().to_string(), entry.arity()))
        .collect()
}

#[test]
fn rejects_an_empty_name() {
    let mut registry = Registry::new();
    assert!(matches!(
        register(&mut registry, function("", 1)),
        Err(Error::InvalidFunctionName(_))
    ));
}

#[test]
fn rejects_a_name_over_255_bytes() {
    let mut registry = Registry::new();
    assert!(matches!(
        register(&mut registry, function(&"x".repeat(256), 1)),
        Err(Error::InvalidFunctionName(_))
    ));
}

#[test]
fn rejects_a_name_holding_a_nul_byte() {
    let mut registry = Registry::new();
    assert!(matches!(
        register(&mut registry, function("unit_n\0ul", 1)),
        Err(Error::InvalidFunctionName(_))
    ));
}

#[test]
fn rejects_a_negative_arity() {
    let mut registry = Registry::new();
    assert!(matches!(
        register(&mut registry, function("unit_variadic", -1)),
        Err(Error::InvalidFunctionArity(-1))
    ));
}

#[test]
fn refuses_an_arity_above_what_the_library_accepts() {
    let mut registry = Registry::new();
    assert!(matches!(
        register(&mut registry, function("unit_too_many_args", 1001)),
        Err(Error::FunctionRefused { arity: 1001, .. })
    ));
}

#[test]
fn refuses_a_name_that_replaces_a_builtin() {
    let mut registry = Registry::new();

    // Exact-arity match against a built-in: lower() takes one argument.
    assert!(matches!(
        register(&mut registry, function("lower", 1)),
        Err(Error::ShadowsBuiltinFunction { arity: 1, .. })
    ));

    // Case-insensitive, matching how SQLite resolves names.
    assert!(matches!(
        register(&mut registry, function("LOWER", 1)),
        Err(Error::ShadowsBuiltinFunction { arity: 1, .. })
    ));

    // A variadic built-in matches every arity: max() accepts any argument count.
    assert!(matches!(
        register(&mut registry, function("max", 3)),
        Err(Error::ShadowsBuiltinFunction { arity: 3, .. })
    ));
}

#[test]
fn accepts_a_name_built_at_runtime() {
    let mut registry = Registry::new();
    let name = format!("unit_runtime_{}", 3 + 4);

    register(&mut registry, function(&name, 1)).expect("registration");
    assert_eq!(names(&registry), vec![("unit_runtime_7".to_string(), 1)]);
}

#[test]
fn rejects_a_duplicate_name_and_arity_whatever_the_case() {
    let mut registry = Registry::new();
    register(&mut registry, function("unit_dup", 1))
        .expect("first registration");

    assert!(matches!(
        register(&mut registry, function("unit_dup", 1)),
        Err(Error::DuplicateFunction { .. })
    ));

    assert!(matches!(
        register(&mut registry, function("UNIT_DUP", 1)),
        Err(Error::DuplicateFunction { .. })
    ));

    // A different arity is an overload. SQLite supports overloading a name this way, so this
    // registers.
    register(&mut registry, function("unit_dup", 2)).expect("overload by arity");
}

#[test]
fn replaces_a_name_and_arity_the_plain_registration_rejects() {
    let mut registry = Registry::new();
    register(&mut registry, function("unit_replace", 1))
        .expect("first registration");

    assert!(matches!(
        register(&mut registry, function("unit_replace", 1)),
        Err(Error::DuplicateFunction { .. })
    ));

    register_or_replace(&mut registry, function("unit_replace", 1))
        .expect("replacement");

    // Case-insensitively, matching how SQLite resolves names and how the rejection above
    // compares them.
    register_or_replace(&mut registry, function("UNIT_REPLACE", 1))
        .expect("replacement");
}

#[test]
fn a_replacement_keeps_its_place_and_leaves_an_earlier_snapshot_alone() {
    let mut registry = Registry::new();
    for name in ["first", "second", "third"] {
        register(&mut registry, function(name, 1)).expect("registration");
    }
    let earlier = registry.snapshot();

    let mut replacement = function("SECOND", 1);
    replacement.deterministic = false;
    register_or_replace(&mut registry, replacement).expect("replacement");

    assert_eq!(
        names(&registry),
        vec![
            ("first".to_string(), 1),
            ("SECOND".to_string(), 1),
            ("third".to_string(), 1)
        ]
    );
    assert_eq!(earlier[1].name(), "second");
    assert_eq!(earlier[1].flags(), 0x80801);
    assert_eq!(registry.snapshot()[1].flags(), 0x80001);
    assert_eq!(registry.snapshot()[1].c_name(), b"SECOND\0");
}

#[test]
fn a_later_registration_is_not_in_an_earlier_snapshot() {
    let mut registry = Registry::new();
    let earlier = registry.snapshot();
    register(&mut registry, function("later", 0)).expect("registration");

    assert_eq!(earlier.len(), 0);
    assert_eq!(registry.snapshot().len(), 1);
}

#[test]
fn a_failed_registration_changes_nothing() {
    let mut registry = Registry::new();
    register(&mut registry, function("kept", 2)).expect("registration");
    let before = names(&registry);

    for bad in [
        function("", 1),
        function("bad", -7),
        function("KEPT", 2),
        function("lower", 1),
        function("wide", 5000),
    ] {
        assert!(register(&mut registry, bad).is_err());
        assert_eq!(names(&registry), before);
    }
}

#[test]
fn a_duplicate_is_reported_before_the_library_is_asked() {
    let mut registry = Registry::new();
    register(&mut registry, function("once", 1)).expect("registration");

    let (asked, result) = register_function(&mut registry, function("once", 1), 0, library);
    assert_eq!(asked, 0);
    assert_eq!(
        result.unwrap_err().message(),
        "A function named 'once' taking 1 argument(s) is already registered"
    );
}

#[test]
fn a_bad_name_is_reported_before_a_bad_arity() {
    let mut registry: Registry<Handler> = Registry::new();
    let (asked, result) = register_function(&mut registry, function("", -1), 0, library);
    assert_eq!(asked, 0);
    assert_eq!(
        result.unwrap_err().message(),
        "Invalid function name '': must be non-empty, at most 255 bytes long, and contain no interior NUL byte"
    );
    let (asked, result) = register_function(&mut registry, function("f", i32::MIN), 0, library);
    assert_eq!(asked, 0);
    assert_eq!(
        result.unwrap_err().message(),
        "Invalid function arity -2147483648: must not be negative"
    );
}

#[test]
fn a_function_that_is_not_refused_is_probed_once() {
    let mut registry = Registry::new();
    let (asked, result) = register_function(&mut registry, function("asked", 1), 0, library);
    assert_eq!(asked, 1);
    assert!(result.is_ok());
    let (asked, result) = register_function(&mut registry, function("lower", 1), 0, library);
    assert_eq!(asked, 1);
    assert!(result.is_err());
    let (asked, result) =
        register_or_replace_function(&mut registry, function("ASKED", 1), 0, library);
    assert_eq!(asked, 1);
    assert!(result.is_ok());
    let (asked, result) =
        register_or_replace_function(&mut registry, function("asked", -1), 0, library);
    assert_eq!(asked, 0);
    assert!(result.is_err());
}

#[test]
fn considering_and_settling_are_the_two_halves_of_registering() {
    let mut registry = Registry::new();
    let admission = registry
        .consider(function("halves", 1), OnDuplicate::Reject)
        .ok()
        .expect("admission");
    assert_eq!(admission.registration().name(), "halves");
    registry
        .settle(
            admission,
            ProbeReport {
                outcome: ProbeOutcome::Accepted,
                text: String::new(),
            },
        )
        .expect("acceptance");
    assert!(matches!(
        registry.consider(function("Halves", 1), OnDuplicate::Reject),
        Err(Error::DuplicateFunction { .. })
    ));
    assert!(registry
        .consider(function("Halves", 1), OnDuplicate::Replace)
        .is_ok());
}

#[test]
fn probe_reports_become_errors_that_name_the_function_and_the_reason() {
    let registration = Registration::new(function("wide", 1001)).expect("registration");
    let judge = |outcome, text: &str| {
        ProbeReport {
            outcome,
            text: text.to_string(),
        }
        .judge(&registration)
    };

    assert!(judge(ProbeOutcome::Accepted, "").is_ok());
    assert_eq!(
        judge(ProbeOutcome::ShadowsBuiltin, "").unwrap_err().message(),
        "A function named 'wide' taking 1001 argument(s) replaces a SQLite built-in function. Choose a name no built-in uses."
    );
    assert_eq!(
        judge(ProbeOutcome::Unavailable { code: 14 }, "unable to open database file")
            .unwrap_err()
            .message(),
        "Cannot check whether SQLite accepts a function named 'wide': the probe failed: unable to open database file (code 14)"
    );
    assert_eq!(
        judge(ProbeOutcome::Refused { code: 21 }, "bad parameter or other API misuse")
            .unwrap_err()
            .message(),
        "SQLite refused a function named 'wide' taking 1001 argument(s): bad parameter or other API misuse (code 21)"
    );
}

/// Runs a probe whose calls of the named kind return `code`, and lists the calls made.
fn failing_at(kind: &'static str, code: i32) -> (Vec<&'static str>, ProbeOutcome) {
    let registration = Registration::new(function("probed", 3)).expect("registration");
    let none: Vec<&'static str> = Vec::new();
    probe(&registration, none, |mut calls, call| {
        let (name, usual) = match call {
            ProbeCall::Open { .. } => ("open", ffi::SQLITE_OK),
            ProbeCall::Prepare { .. } => ("prepare", ffi::SQLITE_OK),
            ProbeCall::BindText { length, .. } => {
                assert_eq!(length, 6);
                ("bind name", ffi::SQLITE_OK)
            }
            ProbeCall::BindInt { value, .. } => {
                assert_eq!(value, 3);
                ("bind arity", ffi::SQLITE_OK)
            }
            ProbeCall::Step => ("step", ffi::SQLITE_DONE),
            ProbeCall::Finalize => ("finalize", ffi::SQLITE_OK),
            ProbeCall::CreateFunction { .. } => ("create", ffi::SQLITE_OK),
            ProbeCall::Close => ("close", ffi::SQLITE_OK),
            ProbeCall::Nothing { .. } => unreachable!(),
        };
        calls.push(name);
        (calls, if name == kind { code } else { usual })
    })
}

#[test]
fn a_probe_releases_what_it_opened_wherever_it_fails() {
    let all = [
        "open",
        "prepare",
        "bind name",
        "bind arity",
        "step",
        "finalize",
        "create",
        "close",
    ];

    assert_eq!(
        failing_at("none", 0),
        (all.to_vec(), ProbeOutcome::Accepted)
    );
    assert_eq!(
        failing_at("open", 14),
        (vec!["open", "close"], ProbeOutcome::Unavailable { code: 14 })
    );
    assert_eq!(
        failing_at("prepare", 1),
        (
            vec!["open", "prepare", "close"],
            ProbeOutcome::Unavailable { code: 1 }
        )
    );
    assert_eq!(
        failing_at("bind name", 7),
        (
            vec!["open", "prepare", "bind name", "finalize", "close"],
            ProbeOutcome::Unavailable { code: 7 }
        )
    );
    assert_eq!(
        failing_at("bind arity", 25),
        (
            vec!["open", "prepare", "bind name", "bind arity", "finalize", "close"],
            ProbeOutcome::Unavailable { code: 25 }
        )
    );
    assert_eq!(
        failing_at("step", 5),
        (
            vec!["open", "prepare", "bind name", "bind arity", "step", "finalize", "close"],
            ProbeOutcome::Unavailable { code: 5 }
        )
    );
    assert_eq!(
        failing_at("step", ffi::SQLITE_ROW),
        (
            vec!["open", "prepare", "bind name", "bind arity", "step", "finalize", "close"],
            ProbeOutcome::ShadowsBuiltin
        )
    );
    assert_eq!(
        failing_at("create", 21),
        (all.to_vec(), ProbeOutcome::Refused { code: 21 })
    );
    // What finalizing and closing return plays no part.
    assert_eq!(
        failing_at("finalize", 5),
        (all.to_vec(), ProbeOutcome::Accepted)
    );
    assert_eq!(
        failing_at("close", 5),
        (all.to_vec(), ProbeOutcome::Accepted)
    );
}

#[test]
fn a_finished_probe_stays_finished() {
    let finished = ProbeState::Finished {
        outcome: ProbeOutcome::Accepted,
    };
    assert_eq!(finished.advance(21), finished);
    assert_eq!(ProbeOutcome::Accepted.failure_code(), None);
    assert_eq!(ProbeOutcome::ShadowsBuiltin.failure_code(), None);
    assert_eq!(ProbeOutcome::Refused { code: 21 }.failure_code(), Some(21));
    assert_eq!(
        ProbeOutcome::Unavailable { code: 14 }.failure_code(),
        Some(14)
    );
}

#[test]
fn names_are_counted_in_bytes_and_end_in_a_nul() {
    assert_eq!(validate_name("abc").expect("valid"), b"abc\0");
    assert!(validate_name(&"x".repeat(255)).is_ok());
    // Two bytes a letter.
    assert!(validate_name(&"é".repeat(127)).is_ok());
    assert!(validate_name(&"é".repeat(128)).is_err());
    assert_eq!(validate_name("é").expect("valid"), vec![0xc3, 0xa9, 0]);
    assert!(validate_name("\0").is_err());
}

#[test]
fn flags_follow_scope_and_determinism() {
    assert_eq!(InvocationScope::default(), InvocationScope::DirectOnly);
    assert_eq!(
        function_flags(InvocationScope::DirectOnly, true),
        ffi::SQLITE_UTF8 | ffi::SQLITE_DIRECTONLY | ffi::SQLITE_DETERMINISTIC
    );
    assert_eq!(
        function_flags(InvocationScope::DirectOnly, false),
        ffi::SQLITE_UTF8 | ffi::SQLITE_DIRECTONLY
    );
    assert_eq!(
        function_flags(InvocationScope::Schema, true),
        ffi::SQLITE_UTF8 | ffi::SQLITE_DETERMINISTIC
    );
    assert_eq!(function_flags(InvocationScope::Schema, false), 1);
    assert_eq!(
        function_flags(InvocationScope::InnocuousSchema, false),
        ffi::SQLITE_UTF8 | ffi::SQLITE_INNOCUOUS
    );
    assert_eq!(
        function_flags(InvocationScope::InnocuousSchema, true),
        0x200801
    );
}

#[test]
fn names_compare_without_ascii_case_only() {
    assert!(eq_ignore_ascii_case("Fn_1", "fN_1"));
    assert!(eq_ignore_ascii_case("", ""));
    assert!(!eq_ignore_ascii_case("fn", "fn_"));
    assert!(!eq_ignore_ascii_case("[", "{"));
    assert!(!eq_ignore_ascii_case("É", "é"));
    assert!(eq_ignore_ascii_case("Éa", "ÉA"));
}

#[test]
fn codes_are_described_by_text_and_number() {
    assert_eq!(describe("not an error", 0), "not an error (code 0)");
    assert_eq!(describe("", -1), " (code -1)");
    assert_eq!(
        describe("unknown error", i32::MIN),
        "unknown error (code -2147483648)"
    );
    assert_eq!(describe("x", i32::MAX), "x (code 2147483647)");
    assert_eq!(describe("x", 1090), "x (code 1090)");
}
