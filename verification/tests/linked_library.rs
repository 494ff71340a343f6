//! The query for built-ins, run on the linked SQLite library.

use std::future::Future;
use std::sync::Arc;
use std::task::{Context, Poll, Wake, Waker};

use sqlite_functions::probe::{BUILTIN_QUERY, PROBE_DATABASE};
use sqlx::sqlite::SqliteConnection;
use sqlx::Connection;

struct Idle;

impl Wake for Idle {
    fn wake(self: Arc<Self>) {}
}

/// Polls a future until it is ready. The connection works on a thread of its own.
fn wait<F: Future>(future: F) -> F::Output {
    let waker = Waker::from(Arc::new(Idle));
    let mut context = Context::from_waker(&waker);
    let mut future = Box::pin(future);
    loop {
        if let Poll::Ready(output) = future.as_mut().poll(&mut context) {
            return output;
        }
        std::hint::spin_loop();
    }
}

fn shadows(name: &str, arity: i32) -> bool {
    let url = format!("sqlite:{PROBE_DATABASE}");
    let mut connection = wait(SqliteConnection::connect(&url)).expect("connect");
    let found: Option<i64> = wait(
        sqlx::query_scalar(BUILTIN_QUERY)
            .bind(name.to_string())
            .bind(arity)
            .fetch_optional(&mut connection),
    )
    .expect("query");
    found.is_some()
}

#[test]
fn the_query_finds_the_builtins_a_function_would_replace() {
    // Exact arity, in any ASCII case.
    assert!(shadows("lower", 1));
    assert!(shadows("LOWER", 1));
    // A variadic built-in answers every arity.
    assert!(shadows("max", 3));
}

#[test]
fn the_query_passes_a_name_no_builtin_uses() {
    assert!(!shadows("unit_runtime_7", 1));
    // The same name with an argument count the built-in does not take.
    assert!(!shadows("lower", 4));
}
