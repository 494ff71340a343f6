//! The probe: asking the linked SQLite library whether it accepts a function.
//!
//! A function is tried on a throwaway in-memory connection before it is registered. Its
//! name must not replace a built-in, and the library must take the registration. A
//! rejection at connect time would tell the caller nothing useful, so it is found here.
//!
//! The probe is a state machine. [`ProbeState::call`] says which call of SQLite comes next,
//! the caller makes it, and [`ProbeState::advance`] takes the result code. [`probe`] runs the
//! machine from start to end.

use vstd::prelude::*;
use vstd::utf8;

use crate::error::{Error, ErrorView};
use crate::function::{CreateCall, FunctionEntry, Registration};
use crate::sqlite;
use crate::text;

verus! {

/// The database the probe runs on.
pub const PROBE_DATABASE: &'static str = ":memory:";

/// Finds a built-in the name would replace: one with the same argument count, or a variadic
/// one. A negative `narg` marks a variadic built-in, and an exact-arity function takes
/// precedence over it. `lower()` folds ASCII only, as SQLite does to resolve names.
pub const BUILTIN_QUERY: &'static str =
    "SELECT 1 FROM pragma_function_list WHERE lower(name) = lower(?1) AND (narg = ?2 OR narg < 0) LIMIT 1";

/// What the probe found.
#[derive(Debug, Clone, Copy, PartialEq, Eq, Structural)]
pub enum ProbeOutcome {
    /// The library takes the function.
    Accepted,
    /// A built-in already answers this name with this argument count, or variadically.
    ShadowsBuiltin,
    /// The probe could not run; nothing judged the function.
    Unavailable { code: i32 },
    /// The library refused the function.
    Refused { code: i32 },
}

/// Where a probe stands. Each state but the last waits for the result of one call.
#[derive(Debug, Clone, Copy, PartialEq, Eq, Structural)]
pub enum ProbeState {
    /// Opening the connection.
    Opening,
    /// Preparing the query for built-ins.
    Preparing,
    /// Binding the name.
    BindingName,
    /// Binding the argument count.
    BindingArity,
    /// Running the query.
    Stepping,
    /// Releasing the statement; `code` is what its last call returned.
    Finalizing { code: i32 },
    /// Creating the function.
    Creating,
    /// Closing the connection, with the outcome known.
    Closing { outcome: ProbeOutcome },
    /// Nothing is left to do.
    Finished { outcome: ProbeOutcome },
}

/// A call of SQLite that the probe asks for.
pub enum ProbeCall<'r> {
    /// Open `database` with `flags` and the default VFS.
    Open { database: &'static str, flags: i32 },
    /// Prepare `sql` on the connection.
    Prepare { sql: &'static str },
    /// Bind the first `length` bytes of `name` as text parameter `index`.
    BindText { index: i32, name: &'r [u8], length: i32 },
    /// Bind `value` as integer parameter `index`.
    BindInt { index: i32, value: i32 },
    /// Step the statement.
    Step,
    /// Finalize the statement.
    Finalize,
    /// Create the function on the connection.
    CreateFunction { function: CreateCall<'r> },
    /// Close the connection, or the handle that a failed open leaves.
    Close,
    /// Make no call: the probe is over.
    Nothing { outcome: ProbeOutcome },
}

impl ProbeState {
    /// The state after the call of this state returned `code`. What finalizing and closing
    /// return plays no part.
    pub open spec fn next(self, code: i32) -> ProbeState {
        match self {
            ProbeState::Opening => if code == sqlite::code_ok() {
                ProbeState::Preparing
            } else {
                ProbeState::Closing { outcome: ProbeOutcome::Unavailable { code } }
            },
            ProbeState::Preparing => if code == sqlite::code_ok() {
                ProbeState::BindingName
            } else {
                ProbeState::Closing { outcome: ProbeOutcome::Unavailable { code } }
            },
            ProbeState::BindingName => if code == sqlite::code_ok() {
                ProbeState::BindingArity
            } else {
                ProbeState::Finalizing { code }
            },
            ProbeState::BindingArity => if code == sqlite::code_ok() {
                ProbeState::Stepping
            } else {
                ProbeState::Finalizing { code }
            },
            ProbeState::Stepping => ProbeState::Finalizing { code },
            ProbeState::Finalizing { code: last } => if last == sqlite::code_row() {
                ProbeState::Closing { outcome: ProbeOutcome::ShadowsBuiltin }
            } else if last == sqlite::code_done() {
                ProbeState::Creating
            } else {
                ProbeState::Closing { outcome: ProbeOutcome::Unavailable { code: last } }
            },
            ProbeState::Creating => if code == sqlite::code_ok() {
                ProbeState::Closing { outcome: ProbeOutcome::Accepted }
            } else {
                ProbeState::Closing { outcome: ProbeOutcome::Refused { code } }
            },
            ProbeState::Closing { outcome } => ProbeState::Finished { outcome },
            ProbeState::Finished { outcome } => ProbeState::Finished { outcome },
        }
    }

    /// Whether `call` is the call to make in this state, for the function of `entry`.
    pub open spec fn asks_for<H>(self, entry: FunctionEntry<H>, call: ProbeCall<'_>) -> bool {
        match self {
            ProbeState::Opening => call == (ProbeCall::Open {
                database: PROBE_DATABASE,
                flags: sqlite::open_read_write() | sqlite::open_create(),
            }),
            ProbeState::Preparing => call == (ProbeCall::Prepare { sql: BUILTIN_QUERY }),
            ProbeState::BindingName => {
                &&& call matches ProbeCall::BindText { index, name, length }
                &&& index == 1
                &&& name@ == crate::function::c_string(entry.name)
                &&& name@.take(length as int) == utf8::encode_utf8(entry.name)
                &&& length == utf8::encode_utf8(entry.name).len()
            },
            ProbeState::BindingArity => {
                &&& call matches ProbeCall::BindInt { index, value }
                &&& index == 2
                &&& value == entry.arity
            },
            ProbeState::Stepping => call == ProbeCall::Step,
            ProbeState::Finalizing { .. } => call == ProbeCall::Finalize,
            ProbeState::Creating => {
                &&& call matches ProbeCall::CreateFunction { function }
                &&& function.c_name@ == crate::function::c_string(entry.name)
                &&& function.arity == entry.arity
                &&& function.flags == entry.flags
            },
            ProbeState::Closing { .. } => call == ProbeCall::Close,
            ProbeState::Finished { outcome } => call == (ProbeCall::Nothing { outcome }),
        }
    }

    /// How many calls are left at most.
    pub open spec fn calls_left(self) -> nat {
        match self {
            ProbeState::Opening => 8,
            ProbeState::Preparing => 7,
            ProbeState::BindingName => 6,
            ProbeState::BindingArity => 5,
            ProbeState::Stepping => 4,
            ProbeState::Finalizing { .. } => 3,
            ProbeState::Creating => 2,
            ProbeState::Closing { .. } => 1,
            ProbeState::Finished { .. } => 0,
        }
    }

    /// Where every probe starts.
    pub fn start() -> (state: ProbeState)
        ensures
            state == ProbeState::Opening,
    {
        ProbeState::Opening
    }

    /// The call to make in this state.
    pub fn call<'r, H>(self, registration: &'r Registration<H>) -> (call: ProbeCall<'r>)
        requires
            registration.wf(),
        ensures
            self.asks_for(registration@, call),
            self is BindingName ==> {
                &&& call matches ProbeCall::BindText { index, name, length }
                &&& index == 1
                &&& length == utf8::encode_utf8(registration@.name).len()
                &&& length <= name@.len()
                &&& name@.take(length as int) == utf8::encode_utf8(registration@.name)
            },
            self is BindingArity ==> {
                &&& call matches ProbeCall::BindInt { index, value }
                &&& index == 2
                &&& value == registration@.arity
            },
            self is Creating ==> {
                &&& call matches ProbeCall::CreateFunction { function }
                &&& function.c_name@ == utf8::encode_utf8(registration@.name).push(0u8)
                &&& function.arity == registration@.arity
                &&& function.flags == registration@.flags
            },
    {
        match self {
            ProbeState::Opening => ProbeCall::Open {
                database: PROBE_DATABASE,
                flags: sqlite::sqlite_open_read_write() | sqlite::sqlite_open_create(),
            },
            ProbeState::Preparing => ProbeCall::Prepare { sql: BUILTIN_QUERY },
            ProbeState::BindingName => {
                let name = registration.c_name();
                proof {
                    registration.lemma_wf();
                    assert(name@.take(name@.len() - 1) =~= utf8::encode_utf8(registration@.name));
                }
                let length: i32 = (name.len() - 1) as i32;
                ProbeCall::BindText { index: 1, name, length }
            },
            ProbeState::BindingArity => ProbeCall::BindInt {
                index: 2,
                value: registration.arity(),
            },
            ProbeState::Stepping => ProbeCall::Step,
            ProbeState::Finalizing { .. } => ProbeCall::Finalize,
            ProbeState::Creating => ProbeCall::CreateFunction {
                function: registration.create_call(),
            },
            ProbeState::Closing { .. } => ProbeCall::Close,
            ProbeState::Finished { outcome } => ProbeCall::Nothing { outcome },
        }
    }

    /// Take the result code of this state's call.
    pub fn advance(self, code: i32) -> (state: ProbeState)
        ensures
            state == self.next(code),
    {
        match self {
            ProbeState::Opening => if code == sqlite::sqlite_ok() {
                ProbeState::Preparing
            } else {
                // The platform is out of memory, its default VFS forbids the connection, or
                // the library has no in-memory databases: nothing has judged the function.
                ProbeState::Closing { outcome: ProbeOutcome::Unavailable { code } }
            },
            // A failed prepare leaves no statement to finalize.
            ProbeState::Preparing => if code == sqlite::sqlite_ok() {
                ProbeState::BindingName
            } else {
                ProbeState::Closing { outcome: ProbeOutcome::Unavailable { code } }
            },
            ProbeState::BindingName => if code == sqlite::sqlite_ok() {
                ProbeState::BindingArity
            } else {
                ProbeState::Finalizing { code }
            },
            ProbeState::BindingArity => if code == sqlite::sqlite_ok() {
                ProbeState::Stepping
            } else {
                ProbeState::Finalizing { code }
            },
            ProbeState::Stepping => ProbeState::Finalizing { code },
            ProbeState::Finalizing { code: last } => if last == sqlite::sqlite_row() {
                ProbeState::Closing { outcome: ProbeOutcome::ShadowsBuiltin }
            } else if last == sqlite::sqlite_done() {
                ProbeState::Creating
            } else {
                ProbeState::Closing { outcome: ProbeOutcome::Unavailable { code: last } }
            },
            ProbeState::Creating => if code == sqlite::sqlite_ok() {
                ProbeState::Closing { outcome: ProbeOutcome::Accepted }
            } else {
                ProbeState::Closing { outcome: ProbeOutcome::Refused { code } }
            },
            ProbeState::Closing { outcome } => ProbeState::Finished { outcome },
            ProbeState::Finished { outcome } => ProbeState::Finished { outcome },
        }
    }
}

// ---------------------------------------------------------------------------------------
// Reports
// ---------------------------------------------------------------------------------------

/// What a probe found, with SQLite's own text for the code it failed with, if it failed
/// with one.
pub struct ProbeReport {
    pub outcome: ProbeOutcome,
    pub text: String,
}

impl ProbeOutcome {
    /// The code whose text a report of this outcome carries.
    pub open spec fn failure(self) -> Option<i32> {
        match self {
            ProbeOutcome::Unavailable { code } => Some(code),
            ProbeOutcome::Refused { code } => Some(code),
            _ => None,
        }
    }

    /// The code to ask SQLite's text for, if the probe failed with one.
    pub fn failure_code(self) -> (code: Option<i32>)
        ensures
            code == self.failure(),
    {
        match self {
            ProbeOutcome::Unavailable { code } => Some(code),
            ProbeOutcome::Refused { code } => Some(code),
            _ => None,
        }
    }
}

/// The error a probe's outcome means for the function `name` with `arity` arguments, where
/// `text` is SQLite's text for the code it failed with.
pub open spec fn probe_error(
    outcome: ProbeOutcome,
    text: Seq<char>,
    name: Seq<char>,
    arity: int,
) -> Option<ErrorView> {
    match outcome {
        ProbeOutcome::Accepted => None,
        ProbeOutcome::ShadowsBuiltin => Some(ErrorView::ShadowsBuiltinFunction { name, arity }),
        ProbeOutcome::Unavailable { code } => Some(
            ErrorView::ProbeConnectionFailed {
                name,
                reason: text::description(text, code as int),
            },
        ),
        ProbeOutcome::Refused { code } => Some(
            ErrorView::FunctionRefused {
                name,
                arity,
                reason: text::description(text, code as int),
            },
        ),
    }
}

impl ProbeReport {
    /// Turn a report on `registration` into the error it means, naming the function and the
    /// reason, or into success.
    pub fn judge<H>(&self, registration: &Registration<H>) -> (verdict: Result<(), Error>)
        ensures
            match verdict {
                Ok(_) => probe_error(
                    self.outcome,
                    self.text@,
                    registration@.name,
                    registration@.arity,
                ) is None,
                Err(error) => probe_error(
                    self.outcome,
                    self.text@,
                    registration@.name,
                    registration@.arity,
                ) == Some(error@),
            },
    {
        match self.outcome {
            ProbeOutcome::Accepted => Ok(()),
            ProbeOutcome::ShadowsBuiltin => Err(
                Error::ShadowsBuiltinFunction {
                    name: registration.name().to_owned(),
                    arity: registration.arity(),
                },
            ),
            ProbeOutcome::Unavailable { code } => Err(
                Error::ProbeConnectionFailed {
                    name: registration.name().to_owned(),
                    reason: text::describe(self.text.as_str(), code),
                },
            ),
            ProbeOutcome::Refused { code } => Err(
                Error::FunctionRefused {
                    name: registration.name().to_owned(),
                    arity: registration.arity(),
                    reason: text::describe(self.text.as_str(), code),
                },
            ),
        }
    }
}

// ---------------------------------------------------------------------------------------
// Whole runs
// ---------------------------------------------------------------------------------------

/// What each call of one probe returns, were it made.
pub struct Replies {
    pub open: i32,
    pub prepare: i32,
    pub bind_name: i32,
    pub bind_arity: i32,
    pub step: i32,
    pub finalize: i32,
    pub create: i32,
    pub close: i32,
}

impl Replies {
    /// What the call of `state` returns.
    pub open spec fn to(self, state: ProbeState) -> i32 {
        match state {
            ProbeState::Opening => self.open,
            ProbeState::Preparing => self.prepare,
            ProbeState::BindingName => self.bind_name,
            ProbeState::BindingArity => self.bind_arity,
            ProbeState::Stepping => self.step,
            ProbeState::Finalizing { .. } => self.finalize,
            ProbeState::Creating => self.create,
            ProbeState::Closing { .. } => self.close,
            ProbeState::Finished { .. } => 0,
        }
    }

    /// Whether a statement was prepared, and so has to be finalized.
    pub open spec fn prepared(self) -> bool {
        self.open == sqlite::code_ok() && self.prepare == sqlite::code_ok()
    }

    /// What the query for built-ins returned: the code of the first binding that failed, or
    /// else of the step.
    pub open spec fn query(self) -> i32 {
        if self.bind_name != sqlite::code_ok() {
            self.bind_name
        } else if self.bind_arity != sqlite::code_ok() {
            self.bind_arity
        } else {
            self.step
        }
    }

    /// What these replies mean for the function.
    pub open spec fn outcome(self) -> ProbeOutcome {
        if self.open != sqlite::code_ok() {
            ProbeOutcome::Unavailable { code: self.open }
        } else if self.prepare != sqlite::code_ok() {
            ProbeOutcome::Unavailable { code: self.prepare }
        } else if self.query() == sqlite::code_row() {
            ProbeOutcome::ShadowsBuiltin
        } else if self.query() != sqlite::code_done() {
            ProbeOutcome::Unavailable { code: self.query() }
        } else if self.create != sqlite::code_ok() {
            ProbeOutcome::Refused { code: self.create }
        } else {
            ProbeOutcome::Accepted
        }
    }
}

/// The states a probe passes through from `state` to its end, when its calls return
/// `replies`.
pub open spec fn run(state: ProbeState, replies: Replies) -> Seq<ProbeState>
    decreases state.calls_left(),
{
    if state is Finished {
        seq![state]
    } else {
        seq![state] + run(state.next(replies.to(state)), replies)
    }
}

/// Whether `perform`, given the session `before` and the call that `state` asks for, returned
/// the session `after` and `code`.
pub open spec fn reply_to<H, S, C: for<'c> Fn(S, ProbeCall<'c>) -> (S, i32)>(
    state: ProbeState,
    entry: FunctionEntry<H>,
    perform: C,
    before: S,
    after: S,
    code: i32,
) -> bool {
    exists|call: ProbeCall<'_>|
        {
            &&& state.asks_for(entry, call)
            &&& #[trigger] call_ensures(perform, (before, call), (after, code))
        }
}

/// Whether `sessions` passed through the calls that `states` ask for, one after the other and
/// with no other call between, and `perform` returned `replies` to them. The last of `states`
/// asks for no call.
pub open spec fn replied_in_turn<H, S, C: for<'c> Fn(S, ProbeCall<'c>) -> (S, i32)>(
    states: Seq<ProbeState>,
    entry: FunctionEntry<H>,
    perform: C,
    sessions: Seq<S>,
    replies: Replies,
) -> bool {
    &&& sessions.len() == states.len()
    &&& forall|i: int|
        0 <= i < states.len() - 1 ==> reply_to(
            #[trigger] states[i],
            entry,
            perform,
            sessions[i],
            sessions[i + 1],
            replies.to(states[i]),
        )
}

impl Replies {
    /// These replies, with `code` as the reply to the call of `state`.
    spec fn with(self, state: ProbeState, code: i32) -> Replies {
        match state {
            ProbeState::Opening => Replies { open: code, ..self },
            ProbeState::Preparing => Replies { prepare: code, ..self },
            ProbeState::BindingName => Replies { bind_name: code, ..self },
            ProbeState::BindingArity => Replies { bind_arity: code, ..self },
            ProbeState::Stepping => Replies { step: code, ..self },
            ProbeState::Finalizing { .. } => Replies { finalize: code, ..self },
            ProbeState::Creating => Replies { create: code, ..self },
            ProbeState::Closing { .. } => Replies { close: code, ..self },
            ProbeState::Finished { .. } => self,
        }
    }
}

/// Whether `states` is the start of a run under `replies`.
spec fn begins_a_run(states: Seq<ProbeState>, replies: Replies) -> bool {
    &&& states.len() > 0
    &&& states[0] == ProbeState::Opening
    &&& forall|i: int|
        0 <= i < states.len() - 1 ==> {
            &&& !((#[trigger] states[i]) is Finished)
            &&& states[i + 1] == states[i].next(replies.to(states[i]))
            &&& states.last().calls_left() < states[i].calls_left()
        }
}

proof fn lemma_finished_run(states: Seq<ProbeState>, replies: Replies, from: int)
    requires
        begins_a_run(states, replies),
        states.last() is Finished,
        0 <= from < states.len(),
    ensures
        run(states[from], replies) == states.skip(from),
    decreases states.len() - from,
{
    if from < states.len() - 1 {
        lemma_finished_run(states, replies, from + 1);
        assert(states.skip(from) =~= seq![states[from]] + states.skip(from + 1));
    } else {
        assert(states.skip(from) =~= seq![states[from]]);
    }
}

/// Ask the linked library about `registration`. `perform` makes the calls of SQLite that the
/// probe asks for and returns their result codes.
///
/// `session` is what the calls work on, such as a connection and a statement. Each call takes
/// it and hands it on to the next, so the calls are made in turn: those of [`run`], in its
/// order, each once, and no other.
pub fn probe<H, S, C: for<'c> Fn(S, ProbeCall<'c>) -> (S, i32)>(
    registration: &Registration<H>,
    session: S,
    perform: C,
) -> (done: (S, ProbeOutcome))
    requires
        registration.wf(),
        forall|s: S, call: ProbeCall<'_>| #[trigger] call_requires(perform, (s, call)),
    ensures
        exists|replies: Replies, sessions: Seq<S>|
            {
                &&& done.1 == replies.outcome()
                &&& #[trigger] replied_in_turn(
                    run(ProbeState::Opening, replies),
                    registration@,
                    perform,
                    sessions,
                    replies,
                )
                &&& sessions[0] == session
                &&& sessions.last() == done.0
            },
{
    let ghost mut sessions: Seq<S> = seq![session];
    let mut current = session;
    let mut state = ProbeState::start();
    let ghost mut states: Seq<ProbeState> = seq![state];
    let ghost mut replies = Replies {
        open: 0,
        prepare: 0,
        bind_name: 0,
        bind_arity: 0,
        step: 0,
        finalize: 0,
        create: 0,
        close: 0,
    };
    loop
        invariant
            registration.wf(),
            forall|s: S, call: ProbeCall<'_>| #[trigger] call_requires(perform, (s, call)),
            begins_a_run(states, replies),
            states.last() == state,
            replied_in_turn(states, registration@, perform, sessions, replies),
            sessions[0] == session,
            sessions.last() == current,
        decreases state.calls_left(),
    {
        if let ProbeState::Finished { outcome } = state {
            proof {
                lemma_finished_run(states, replies, 0);
                assert(states.skip(0) =~= states);
                probe_finds_what_its_replies_mean(replies);
                assert(outcome == replies.outcome());
            }
            return (current, outcome);
        }
        let call = state.call(registration);
        let ghost made = call;
        let ghost given = current;
        let (next, code) = perform(current, call);
        proof {
            let before = replies;
            let path = states;
            let passed = sessions;
            replies = before.with(state, code);
            states = path.push(state.next(code));
            sessions = passed.push(next);
            assert forall|i: int| 0 <= i < path.len() - 1 implies replies.to(#[trigger] path[i])
                == before.to(path[i]) by {
                assert(path[i].calls_left() != state.calls_left());
            }
            assert(state.asks_for(registration@, made));
            assert(reply_to(state, registration@, perform, given, next, code));
            assert forall|i: int| 0 <= i < states.len() - 1 implies reply_to(
                #[trigger] states[i],
                registration@,
                perform,
                sessions[i],
                sessions[i + 1],
                replies.to(states[i]),
            ) by {
                assert(states[i] == path[i]);
                assert(sessions[i] == passed[i]);
            }
        }
        current = next;
        state = state.advance(code);
    }
}

proof fn run_starts_and_descends(state: ProbeState, replies: Replies)
    ensures
        run(state, replies).len() > 0,
        run(state, replies)[0] == state,
        forall|i: int, j: int|
            0 <= i < j < run(state, replies).len() ==> (#[trigger] run(state, replies)[j]).calls_left()
                < (#[trigger] run(state, replies)[i]).calls_left(),
    decreases state.calls_left(),
{
    if !(state is Finished) {
        let after = state.next(replies.to(state));
        run_starts_and_descends(after, replies);
        let rest = run(after, replies);
        let whole = run(state, replies);
        assert forall|i: int, j: int| 0 <= i < j < whole.len() implies (
        #[trigger] whole[j]).calls_left() < (#[trigger] whole[i]).calls_left() by {
            assert(whole[j] == rest[j - 1]);
            if i > 0 {
                assert(whole[i] == rest[i - 1]);
            } else if j > 1 {
                assert(rest[j - 1].calls_left() < rest[0].calls_left());
            }
        }
    }
}

/// A probe makes each call at most once, in a fixed order, and so ends after at most eight
/// calls.
pub proof fn probe_makes_each_call_at_most_once(replies: Replies, i: int, j: int)
    requires
        0 <= i < j < run(ProbeState::Opening, replies).len(),
    ensures
        run(ProbeState::Opening, replies)[j].calls_left() < run(
            ProbeState::Opening,
            replies,
        )[i].calls_left(),
        run(ProbeState::Opening, replies).len() <= 9,
{
    run_starts_and_descends(ProbeState::Opening, replies);
    reveal_with_fuel(run, 10);
}

/// A probe ends with the outcome its replies mean: unavailable when the connection or the
/// query fails, a shadowed built-in when the query finds one, a refusal when the library
/// refuses the function, and acceptance only when every call went well.
pub proof fn probe_finds_what_its_replies_mean(replies: Replies)
    ensures
        run(ProbeState::Opening, replies).last() == (ProbeState::Finished {
            outcome: replies.outcome(),
        }),
{
    reveal_with_fuel(run, 10);
}

/// A probe leaves nothing behind: the connection is closed last, whatever happened, and a
/// statement is finalized exactly when one was prepared.
pub proof fn probe_releases_what_it_opened(replies: Replies)
    ensures
        ({
            let states = run(ProbeState::Opening, replies);
            &&& states.len() >= 2
            &&& states[states.len() - 2] == (ProbeState::Closing { outcome: replies.outcome() })
            &&& (exists|i: int| 0 <= i < states.len() && states[i] is Finalizing)
                <==> replies.prepared()
        }),
{
    reveal_with_fuel(run, 10);
    let states = run(ProbeState::Opening, replies);
    if replies.prepared() {
        if replies.bind_name != sqlite::code_ok() {
            assert(states[3] is Finalizing);
        } else if replies.bind_arity != sqlite::code_ok() {
            assert(states[4] is Finalizing);
        } else {
            assert(states[5] is Finalizing);
        }
    }
}

/// A function is created on the probe's connection only once the query has shown that it
/// replaces no built-in, and is then always created.
pub proof fn probe_creates_only_what_shadows_nothing(replies: Replies)
    ensures
        (exists|i: int|
            0 <= i < run(ProbeState::Opening, replies).len() && run(
                ProbeState::Opening,
                replies,
            )[i] is Creating) <==> replies.prepared() && replies.query() == sqlite::code_done(),
{
    reveal_with_fuel(run, 10);
    let states = run(ProbeState::Opening, replies);
    if replies.prepared() && replies.query() == sqlite::code_done() {
        if replies.bind_name != sqlite::code_ok() {
            assert(states[4] is Creating);
        } else if replies.bind_arity != sqlite::code_ok() {
            assert(states[5] is Creating);
        } else {
            assert(states[6] is Creating);
        }
    }
}

} // verus!
