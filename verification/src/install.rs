//! Installing a database's functions on a connection it has just opened.
//!
//! The installation is a state machine. While it is [`InstallState::Locking`] the caller
//! locks the connection; while it is [`InstallState::Creating`] the caller creates the
//! function that [`InstallState::function`] names and hands the result code to
//! [`InstallState::advance`]. A connection is used only once it is
//! [`InstallState::Installed`], so nobody ever gets one with only some functions on it.
//! [`apply_all`] runs the machine on a connection that is locked.

use std::sync::Arc;
use vstd::prelude::*;

use crate::function::{FunctionEntry, Registration};
use crate::sqlite;
use crate::text;

verus! {

/// Where an installation stands.
#[derive(Debug, Clone, Copy, PartialEq, Eq, Structural)]
pub enum InstallState {
    /// The connection has to be locked before its handle is used.
    Locking,
    /// The function at `index` has to be created.
    Creating { index: usize },
    /// Every function is on the connection.
    Installed,
    /// Creating the function at `index` failed with `code`. The connection has to be closed.
    Failed { index: usize, code: i32 },
}

impl InstallState {
    /// Where the installation of `count` functions starts. With no function there is nothing
    /// to lock for.
    pub open spec fn first(count: nat) -> InstallState {
        if count == 0 {
            InstallState::Installed
        } else {
            InstallState::Locking
        }
    }

    /// The state after the step of this state returned `code`. Locking returns no code that
    /// matters.
    pub open spec fn next(self, count: nat, code: i32) -> InstallState {
        match self {
            InstallState::Locking => InstallState::Creating { index: 0 },
            InstallState::Creating { index } => if code != sqlite::code_ok() {
                InstallState::Failed { index, code }
            } else if index + 1 < count {
                InstallState::Creating { index: (index + 1) as usize }
            } else {
                InstallState::Installed
            },
            InstallState::Installed => InstallState::Installed,
            InstallState::Failed { index, code } => InstallState::Failed { index, code },
        }
    }

    /// Whether this state names only functions of a set of `count`.
    pub open spec fn fits(self, count: nat) -> bool {
        match self {
            InstallState::Locking => count > 0,
            InstallState::Creating { index } => index < count,
            InstallState::Installed => true,
            InstallState::Failed { index, .. } => index < count,
        }
    }

    /// Start installing `functions`.
    pub fn start<H>(functions: &Vec<Arc<Registration<H>>>) -> (state: InstallState)
        ensures
            state == InstallState::first(functions@.len()),
            state.fits(functions@.len()),
    {
        if functions.len() == 0 {
            InstallState::Installed
        } else {
            InstallState::Locking
        }
    }

    /// The function to create, if this state asks for one.
    pub fn function<H>(self, functions: &Vec<Arc<Registration<H>>>) -> (function: Option<
        &Arc<Registration<H>>,
    >)
        requires
            self.fits(functions@.len()),
        ensures
            match self {
                InstallState::Creating { index } => function == Some(&functions@[index as int]),
                _ => function is None,
            },
    {
        match self {
            InstallState::Creating { index } => Some(&functions[index]),
            _ => None,
        }
    }

    /// Take the result of this state's step.
    pub fn advance<H>(self, functions: &Vec<Arc<Registration<H>>>, code: i32) -> (state:
        InstallState)
        requires
            self.fits(functions@.len()),
        ensures
            state == self.next(functions@.len(), code),
            state.fits(functions@.len()),
    {
        match self {
            InstallState::Locking => InstallState::Creating { index: 0 },
            InstallState::Creating { index } => if code != sqlite::sqlite_ok() {
                InstallState::Failed { index, code }
            } else if index < functions.len() - 1 {
                InstallState::Creating { index: index + 1 }
            } else {
                InstallState::Installed
            },
            InstallState::Installed => InstallState::Installed,
            InstallState::Failed { index, code } => InstallState::Failed { index, code },
        }
    }
}

/// Whether `sessions` passed through the creation of the first functions of a set, one after
/// the other and with no other creation between, and `create` returned `codes`.
pub open spec fn created_in_turn<H, S, C: Fn(S, &Arc<Registration<H>>) -> (S, i32)>(
    functions: Seq<Arc<Registration<H>>>,
    create: C,
    sessions: Seq<S>,
    codes: Seq<i32>,
) -> bool {
    &&& codes.len() <= functions.len()
    &&& sessions.len() == codes.len() + 1
    &&& forall|i: int|
        0 <= i < codes.len() ==> call_ensures(
            create,
            (sessions[i], &functions[i]),
            (sessions[i + 1], #[trigger] codes[i]),
        )
}

/// Whether `state` is what the creations of `count` functions come to, when those that were
/// tried returned `codes`: every function was tried and went well, or the last one tried
/// failed and every one before it went well.
pub open spec fn comes_to(count: nat, codes: Seq<i32>, state: InstallState) -> bool {
    match state {
        InstallState::Installed => {
            &&& codes.len() == count
            &&& forall|i: int| 0 <= i < codes.len() ==> #[trigger] codes[i] == sqlite::code_ok()
        },
        InstallState::Failed { index, code } => {
            &&& codes.len() == index + 1 <= count
            &&& codes[index as int] == code
            &&& code != sqlite::code_ok()
            &&& forall|i: int| 0 <= i < index ==> #[trigger] codes[i] == sqlite::code_ok()
        },
        _ => false,
    }
}

/// Install `functions` on a connection. `create` creates one function on the connection and
/// returns the result code; the caller holds the connection's lock, unless there is no
/// function to create.
///
/// `session` is what the creations work on. Each takes it and hands it on to the next, so
/// they are made in turn: each function once, in order, and none after the first failure.
pub fn apply_all<H, S, C: Fn(S, &Arc<Registration<H>>) -> (S, i32)>(
    functions: &Vec<Arc<Registration<H>>>,
    session: S,
    create: C,
) -> (done: (S, InstallState))
    requires
        crate::registry::all_wf(functions@),
        forall|s: S, function: &Arc<Registration<H>>|
            function.wf() ==> #[trigger] call_requires(create, (s, function)),
    ensures
        exists|sessions: Seq<S>, codes: Seq<i32>|
            {
                &&& #[trigger] created_in_turn(functions@, create, sessions, codes)
                &&& sessions[0] == session
                &&& sessions.last() == done.0
                &&& comes_to(functions@.len(), codes, done.1)
                &&& done.1 == after_steps(functions@.len(), codes, codes.len())
            },
{
    let ghost mut sessions: Seq<S> = seq![session];
    let ghost mut codes: Seq<i32> = Seq::empty();
    let ghost count: usize = functions.len();
    let mut current = session;
    let mut state = InstallState::start(functions);
    if let InstallState::Locking = state {
        state = state.advance(functions, 0);
    }
    loop
        invariant
            count == functions@.len(),
            state.fits(functions@.len()),
            crate::registry::all_wf(functions@),
            forall|s: S, function: &Arc<Registration<H>>|
                function.wf() ==> #[trigger] call_requires(create, (s, function)),
            created_in_turn(functions@, create, sessions, codes),
            sessions[0] == session,
            sessions.last() == current,
            state == after_steps(functions@.len(), codes, codes.len()),
            match state {
                InstallState::Creating { index } => {
                    &&& codes.len() == index
                    &&& forall|i: int|
                        0 <= i < codes.len() ==> #[trigger] codes[i] == sqlite::code_ok()
                },
                _ => comes_to(functions@.len(), codes, state),
            },
        decreases
                count - codes.len() + if state is Creating {
                    1int
                } else {
                    0int
                },
    {
        match state.function(functions) {
            Some(function) => {
                let (next, code) = create(current, function);
                proof {
                    let before = codes;
                    codes = before.push(code);
                    sessions = sessions.push(next);
                    lemma_steps_read_their_codes(count as nat, before, codes, before.len());
                    assert(codes[before.len() as int] == code);
                }
                current = next;
                state = state.advance(functions, code);
            },
            None => {
                return (current, state);
            },
        }
    }
}

/// What is reported when a function cannot be created on a connection, where `text` is
/// SQLite's text for the code.
pub open spec fn failure_text<H>(
    entry: FunctionEntry<H>,
    text: Seq<char>,
    code: int,
) -> Seq<char> {
    crate::error::signature_text(
        "failed to register SQL function '"@,
        entry.name,
        entry.arity,
    ) + ": "@ + text::description(text, code)
}

/// The message for a function that could not be created on a connection.
pub fn failure_message<H>(registration: &Registration<H>, text: &str, code: i32) -> (message:
    String)
    ensures
        message@ == failure_text(registration@, text@, code as int),
{
    let mut message = crate::error::signature(
        "failed to register SQL function '",
        registration.name(),
        registration.arity(),
    );
    message.append(": ");
    let reason = text::describe(text, code);
    message.append(reason.as_str());
    message
}

// ---------------------------------------------------------------------------------------
// Whole installations
// ---------------------------------------------------------------------------------------

/// The state once the connection is locked and `steps` results are in, where creating the
/// function at `i` returns `codes[i]`.
pub open spec fn after_steps(count: nat, codes: Seq<i32>, steps: nat) -> InstallState
    decreases steps,
{
    if steps == 0 {
        InstallState::first(count).next(count, 0)
    } else {
        after_steps(count, codes, (steps - 1) as nat).next(count, codes[steps - 1])
    }
}

proof fn lemma_steps_read_their_codes(count: nat, left: Seq<i32>, right: Seq<i32>, steps: nat)
    requires
        forall|i: int| 0 <= i < steps ==> left[i] == right[i],
    ensures
        after_steps(count, left, steps) == after_steps(count, right, steps),
    decreases steps,
{
    if steps > 0 {
        lemma_steps_read_their_codes(count, left, right, (steps - 1) as nat);
    }
}

/// Functions are created one by one, in registration order: as long as every creation so far
/// went well, the next function to create is the next one of the set.
pub proof fn functions_are_created_in_order(count: nat, codes: Seq<i32>, steps: nat)
    requires
        steps < count <= usize::MAX,
        forall|i: int| 0 <= i < steps ==> #[trigger] codes[i] == sqlite::code_ok(),
    ensures
        after_steps(count, codes, steps) == (InstallState::Creating { index: steps as usize }),
    decreases steps,
{
    if steps > 0 {
        functions_are_created_in_order(count, codes, (steps - 1) as nat);
        assert(codes[steps - 1] == sqlite::code_ok());
    }
}

/// The first creation that fails ends the installation: no later function is tried, and the
/// failure names the function and the code.
pub proof fn the_first_failure_ends_the_installation(
    count: nat,
    codes: Seq<i32>,
    failed: nat,
    steps: nat,
)
    requires
        failed < steps <= count <= usize::MAX,
        forall|i: int| 0 <= i < failed ==> #[trigger] codes[i] == sqlite::code_ok(),
        codes[failed as int] != sqlite::code_ok(),
    ensures
        after_steps(count, codes, steps) == (InstallState::Failed {
            index: failed as usize,
            code: codes[failed as int],
        }),
    decreases steps,
{
    if steps == failed + 1 {
        functions_are_created_in_order(count, codes, failed);
    } else {
        the_first_failure_ends_the_installation(count, codes, failed, (steps - 1) as nat);
    }
}

/// A connection ends up installed exactly when every function of the set was created on it,
/// so no caller gets a connection with only some functions.
pub proof fn installed_means_every_function(count: nat, codes: Seq<i32>)
    requires
        count <= usize::MAX,
    ensures
        after_steps(count, codes, count) is Installed <==> forall|i: int|
            0 <= i < count ==> #[trigger] codes[i] == sqlite::code_ok(),
{
    if count > 0 {
        if forall|i: int| 0 <= i < count ==> #[trigger] codes[i] == sqlite::code_ok() {
            functions_are_created_in_order(count, codes, (count - 1) as nat);
            assert(codes[count - 1] == sqlite::code_ok());
        } else {
            let failed = first_failure(codes, count);
            the_first_failure_ends_the_installation(count, codes, failed, count);
        }
    }
}

proof fn first_failure(codes: Seq<i32>, count: nat) -> (failed: nat)
    requires
        exists|i: int| 0 <= i < count && #[trigger] codes[i] != sqlite::code_ok(),
    ensures
        failed < count,
        codes[failed as int] != sqlite::code_ok(),
        forall|i: int| 0 <= i < failed ==> #[trigger] codes[i] == sqlite::code_ok(),
    decreases count,
{
    if exists|i: int| 0 <= i < count - 1 && #[trigger] codes[i] != sqlite::code_ok() {
        first_failure(codes, (count - 1) as nat)
    } else {
        (count - 1) as nat
    }
}

} // verus!
