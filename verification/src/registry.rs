//! The registered functions, in registration order, and the rules by which a function joins
//! them.
//!
//! A function belongs to a connection, not to a database file. The registry records the
//! functions of the whole process; a database takes a [snapshot](Registry::snapshot) when it
//! connects and installs that exact set on every connection it ever opens. A later
//! registration applies to the next database to connect, never to part of an open one.

use std::sync::Arc;
use vstd::prelude::*;

use crate::error::{Error, ErrorView};
use crate::function::{FunctionEntry, Registration, ScalarFunction};
use crate::probe::ProbeReport;
use crate::text;

verus! {

/// The set of functions a database captures at connect time. Both of a database's pools
/// install this exact set on every connection they open.
pub type FunctionSet<H> = Arc<Vec<Arc<Registration<H>>>>;

/// What to do with a registration that already holds the name and arity.
#[derive(Debug, Clone, Copy, PartialEq, Eq, Structural)]
pub enum OnDuplicate {
    /// Reject the new function.
    Reject,
    /// Put the new function in the place of the old one.
    Replace,
}

// ---------------------------------------------------------------------------------------
// The model: a sequence of entries
// ---------------------------------------------------------------------------------------

/// What a list of registrations means, in order.
pub open spec fn entries_of<H>(functions: Seq<Arc<Registration<H>>>) -> Seq<FunctionEntry<H>> {
    Seq::new(functions.len(), |i: int| functions[i]@)
}

/// Whether every registration of a list keeps its own invariant.
pub open spec fn all_wf<H>(functions: Seq<Arc<Registration<H>>>) -> bool {
    forall|i: int| 0 <= i < functions.len() ==> (#[trigger] functions[i]).wf()
}

/// Whether no two entries answer the same call.
pub open spec fn distinct<H>(entries: Seq<FunctionEntry<H>>) -> bool {
    forall|i: int, j: int|
        0 <= i < entries.len() && 0 <= j < entries.len() && i != j
            ==> !(#[trigger] entries[i]).answers(
            (#[trigger] entries[j]).name,
            entries[j].arity,
        )
}

/// Whether entry `i` is the first that answers a call of `name` with `arity` arguments.
pub open spec fn is_slot<H>(
    entries: Seq<FunctionEntry<H>>,
    name: Seq<char>,
    arity: int,
    i: int,
) -> bool {
    &&& 0 <= i < entries.len()
    &&& entries[i].answers(name, arity)
    &&& forall|j: int| 0 <= j < i ==> !(#[trigger] entries[j]).answers(name, arity)
}

/// Whether some entry answers a call of `name` with `arity` arguments.
pub open spec fn taken<H>(entries: Seq<FunctionEntry<H>>, name: Seq<char>, arity: int) -> bool {
    exists|i: int| #[trigger] is_slot(entries, name, arity, i)
}

/// The place of the entry that answers a call of `name` with `arity` arguments.
pub open spec fn slot<H>(entries: Seq<FunctionEntry<H>>, name: Seq<char>, arity: int) -> int {
    choose|i: int| #[trigger] is_slot(entries, name, arity, i)
}

/// The entry a call of `name` with `arity` arguments resolves to.
pub open spec fn resolve<H>(
    entries: Seq<FunctionEntry<H>>,
    name: Seq<char>,
    arity: int,
) -> Option<FunctionEntry<H>> {
    if taken(entries, name, arity) {
        Some(entries[slot(entries, name, arity)])
    } else {
        None
    }
}

/// The entries once `entry` is stored: it takes the place of the entry that answers the same
/// call, if there is one, and otherwise joins at the end.
pub open spec fn stored<H>(
    entries: Seq<FunctionEntry<H>>,
    entry: FunctionEntry<H>,
) -> Seq<FunctionEntry<H>> {
    if taken(entries, entry.name, entry.arity) {
        entries.update(slot(entries, entry.name, entry.arity), entry)
    } else {
        entries.push(entry)
    }
}

/// Why a function cannot join `entries`, as far as this library can tell by itself. A
/// malformed function is refused first, then a duplicate.
pub open spec fn refusal<H>(
    entries: Seq<FunctionEntry<H>>,
    function: ScalarFunction<H>,
    on_duplicate: OnDuplicate,
) -> Option<ErrorView> {
    if crate::function::malformation(function) is Some {
        crate::function::malformation(function)
    } else if on_duplicate == OnDuplicate::Reject && taken(
        entries,
        function.name@,
        function.arity as int,
    ) {
        Some(ErrorView::DuplicateFunction { name: function.name@, arity: function.arity as int })
    } else {
        None
    }
}

/// What `result` and `after` are once a probe has reported on `entry`: the entry is stored
/// when the library accepts it, and otherwise nothing changes and the error says why.
pub open spec fn settled<H>(
    before: Seq<FunctionEntry<H>>,
    entry: FunctionEntry<H>,
    report: ProbeReport,
    after: Seq<FunctionEntry<H>>,
    result: Result<(), Error>,
) -> bool {
    match crate::probe::probe_error(report.outcome, report.text@, entry.name, entry.arity) {
        None => result is Ok && after == stored(before, entry),
        Some(error) => result is Err && result->Err_0@ == error && after == before,
    }
}

// ---------------------------------------------------------------------------------------
// The registry
// ---------------------------------------------------------------------------------------

/// A function that may join a registry if the linked library accepts it, and the place that
/// is held for it.
pub struct Admission<H> {
    registration: Arc<Registration<H>>,
    place: Option<usize>,
}

impl<H> Admission<H> {
    /// The entry that was admitted.
    pub closed spec fn entry(&self) -> FunctionEntry<H> {
        self.registration@
    }

    /// Whether this admission was made for a registry that holds `entries`.
    pub closed spec fn fits(&self, entries: Seq<FunctionEntry<H>>) -> bool {
        &&& self.registration.wf()
        &&& match self.place {
            Some(i) => is_slot(entries, self.entry().name, self.entry().arity, i as int),
            None => !taken(entries, self.entry().name, self.entry().arity),
        }
    }

    /// The registration to probe.
    pub fn registration(&self) -> (registration: &Arc<Registration<H>>)
        ensures
            registration@ == self.entry(),
            forall|entries: Seq<FunctionEntry<H>>| #[trigger]
                self.fits(entries) ==> registration.wf(),
    {
        &self.registration
    }
}

/// The registered functions, in registration order.
pub struct Registry<H> {
    functions: Vec<Arc<Registration<H>>>,
}

impl<H> View for Registry<H> {
    type V = Seq<FunctionEntry<H>>;

    closed spec fn view(&self) -> Seq<FunctionEntry<H>> {
        entries_of(self.functions@)
    }
}

impl<H> Registry<H> {
    /// The invariant of a registry: every registration is well formed, and no two of them
    /// answer the same call.
    pub closed spec fn wf(&self) -> bool {
        &&& all_wf(self.functions@)
        &&& distinct(self@)
    }

    /// What the invariant says: every entry is valid, and no two of them answer the same
    /// call.
    pub proof fn lemma_wf(&self)
        requires
            self.wf(),
        ensures
            distinct(self@),
            forall|i: int| 0 <= i < self@.len() ==> (#[trigger] self@[i]).valid(),
    {
        assert forall|i: int| 0 <= i < self@.len() implies (#[trigger] self@[i]).valid() by {
            self.functions@[i].lemma_wf();
        }
    }

    /// A registry with no function.
    pub fn new() -> (registry: Registry<H>)
        ensures
            registry.wf(),
            registry@ == Seq::<FunctionEntry<H>>::empty(),
    {
        let registry = Registry { functions: Vec::new() };
        assert(registry@ =~= Seq::<FunctionEntry<H>>::empty());
        registry
    }

    fn position(&self, registration: &Registration<H>) -> (place: Option<usize>)
        ensures
            match place {
                Some(i) => is_slot(self@, registration@.name, registration@.arity, i as int),
                None => !taken(self@, registration@.name, registration@.arity),
            },
    {
        let mut i: usize = 0;
        while i < self.functions.len()
            invariant
                i <= self.functions@.len(),
                forall|j: int|
                    0 <= j < i ==> !(#[trigger] self@[j]).answers(
                        registration@.name,
                        registration@.arity,
                    ),
            decreases self.functions@.len() - i,
        {
            let existing = &self.functions[i];
            assert(self@[i as int] == existing@);
            if existing.arity() == registration.arity() && text::eq_ignore_ascii_case(
                existing.name(),
                registration.name(),
            ) {
                return Some(i);
            }
            i = i + 1;
        }
        None
    }

    /// Check everything about a function that needs no word from the linked library.
    pub fn consider(&self, function: ScalarFunction<H>, on_duplicate: OnDuplicate) -> (admitted:
        Result<Admission<H>, Error>)
        ensures
            match admitted {
                Ok(admission) => {
                    &&& refusal(self@, function, on_duplicate) is None
                    &&& admission.entry() == crate::function::entry_of(function)
                    &&& admission.fits(self@)
                },
                Err(error) => refusal(self@, function, on_duplicate) == Some(error@),
            },
    {
        let registration = match Registration::new(function) {
            Ok(registration) => registration,
            Err(error) => {
                return Err(error);
            },
        };
        let place = self.position(&registration);

        if place.is_some() && on_duplicate == OnDuplicate::Reject {
            return Err(
                Error::DuplicateFunction {
                    name: registration.name().to_owned(),
                    arity: registration.arity(),
                },
            );
        }
        Ok(Admission { registration: Arc::new(registration), place })
    }

    /// Store an admitted function, or report why the linked library does not take it. A
    /// replacement takes the position it replaces, so the registry stays in registration
    /// order.
    pub fn settle(&mut self, admission: Admission<H>, report: ProbeReport) -> (result: Result<
        (),
        Error,
    >)
        requires
            old(self).wf(),
            admission.fits(old(self)@),
        ensures
            final(self).wf(),
            settled(old(self)@, admission.entry(), report, final(self)@, result),
    {
        let Admission { registration, place } = admission;
        let ghost before = self@;
        let ghost entry = registration@;

        match report.judge(&registration) {
            Ok(_) => {},
            Err(error) => {
                return Err(error);
            },
        }
        match place {
            Some(index) => {
                self.functions.set(index, registration);
                proof {
                    lemma_one_slot(before, entry.name, entry.arity, index as int);
                    assert(self@ =~= before.update(index as int, entry));
                }
            },
            None => {
                self.functions.push(registration);
                assert(self@ =~= before.push(entry));
            },
        }
        proof {
            storing_keeps_calls_unambiguous(before, entry);
        }
        Ok(())
    }

    /// The registered set at this moment, for one database to keep.
    pub fn snapshot(&self) -> (set: FunctionSet<H>)
        ensures
            entries_of(set@) == self@,
            set@.len() == self@.len(),
            forall|i: int| 0 <= i < set@.len() ==> (#[trigger] set@[i])@ == self@[i],
            self.wf() ==> all_wf(set@),
    {
        let mut functions: Vec<Arc<Registration<H>>> = Vec::new();
        let mut i: usize = 0;
        while i < self.functions.len()
            invariant
                i <= self.functions@.len(),
                functions@ == self.functions@.take(i as int),
            decreases self.functions@.len() - i,
        {
            functions.push(Arc::clone(&self.functions[i]));
            assert(functions@ =~= self.functions@.take(i + 1));
            i = i + 1;
        }
        assert(functions@ =~= self.functions@);
        Arc::new(functions)
    }
}

// ---------------------------------------------------------------------------------------
// Registering
// ---------------------------------------------------------------------------------------

/// Whether `probe` can be called with any session on every well-formed registration.
pub open spec fn probes_anything<H, S, P: FnOnce(S, &Arc<Registration<H>>) -> (S, ProbeReport)>(
    probe: P,
) -> bool {
    forall|session: S, registration: &Arc<Registration<H>>|
        registration.wf() ==> #[trigger] call_requires(probe, (session, registration))
}

/// What registering a function does: a refused function changes nothing, gets the error that
/// refuses it, and leaves the session as it was, so it was not probed; any other is handed to
/// the probe, and what the probe reports settles it.
pub open spec fn registered<H, S, P: FnOnce(S, &Arc<Registration<H>>) -> (S, ProbeReport)>(
    before: Seq<FunctionEntry<H>>,
    function: ScalarFunction<H>,
    on_duplicate: OnDuplicate,
    session: S,
    probe: P,
    after: Seq<FunctionEntry<H>>,
    done: (S, Result<(), Error>),
) -> bool {
    match refusal(before, function, on_duplicate) {
        Some(error) => {
            &&& done.1 is Err
            &&& done.1->Err_0@ == error
            &&& after == before
            &&& done.0 == session
        },
        None => exists|registration: &Arc<Registration<H>>, report: ProbeReport|
            {
                &&& registration.wf()
                &&& registration@ == crate::function::entry_of(function)
                &&& #[trigger] call_ensures(probe, (session, registration), (done.0, report))
                &&& settled(before, registration@, report, after, done.1)
            },
    }
}

/// Validate, probe, and store a function. The two public entry points differ only in what
/// they do about a name and arity already registered.
fn store<H, S, P: FnOnce(S, &Arc<Registration<H>>) -> (S, ProbeReport)>(
    registry: &mut Registry<H>,
    function: ScalarFunction<H>,
    on_duplicate: OnDuplicate,
    session: S,
    probe: P,
) -> (done: (S, Result<(), Error>))
    requires
        old(registry).wf(),
        probes_anything(probe),
    ensures
        final(registry).wf(),
        registered(old(registry)@, function, on_duplicate, session, probe, final(registry)@, done),
{
    // A duplicate is found before the probe: it is the caller's own doing, and probing first
    // would hide it whenever the linked library also rejects the function.
    let admission = match registry.consider(function, on_duplicate) {
        Ok(admission) => admission,
        Err(error) => {
            return (session, Err(error));
        },
    };
    let registration = admission.registration();
    assert(admission.fits(registry@));
    let ghost probed = registration;
    let (handed_back, report) = probe(session, registration);
    let done = (handed_back, registry.settle(admission, report));
    assert(call_ensures(probe, (session, probed), (done.0, report)));
    done
}

/// Register a scalar function on every connection of the databases that connect from now on.
///
/// `probe` asks the linked SQLite library about the function, and `session` is what it works
/// on. It runs once, on a function that is well formed and not yet registered; any other
/// function is refused with the session handed back as it was.
///
/// Errors: [`Error::InvalidFunctionName`] for an empty name, a name over 255 bytes, or a name
/// holding a NUL byte; [`Error::InvalidFunctionArity`] for a negative arity;
/// [`Error::DuplicateFunction`] when a registration already has the same name and arity;
/// and, as the probe reports, [`Error::ShadowsBuiltinFunction`], [`Error::FunctionRefused`]
/// or [`Error::ProbeConnectionFailed`]. A failed registration changes nothing.
pub fn register_function<H, S, P: FnOnce(S, &Arc<Registration<H>>) -> (S, ProbeReport)>(
    registry: &mut Registry<H>,
    function: ScalarFunction<H>,
    session: S,
    probe: P,
) -> (done: (S, Result<(), Error>))
    requires
        old(registry).wf(),
        probes_anything(probe),
    ensures
        final(registry).wf(),
        registered(
            old(registry)@,
            function,
            OnDuplicate::Reject,
            session,
            probe,
            final(registry)@,
            done,
        ),
{
    store(registry, function, OnDuplicate::Reject, session, probe)
}

/// Register a scalar function, replacing the one already registered under the same name and
/// arity.
///
/// The replacement reaches the databases that connect after this call; a database that
/// already connected holds the set it captured. `probe` runs once, on a function that is well
/// formed; any other is refused with the session handed back as it was. The errors are those
/// of [`register_function`], without [`Error::DuplicateFunction`].
pub fn register_or_replace_function<H, S, P: FnOnce(S, &Arc<Registration<H>>) -> (S, ProbeReport)>(
    registry: &mut Registry<H>,
    function: ScalarFunction<H>,
    session: S,
    probe: P,
) -> (done: (S, Result<(), Error>))
    requires
        old(registry).wf(),
        probes_anything(probe),
    ensures
        final(registry).wf(),
        registered(
            old(registry)@,
            function,
            OnDuplicate::Replace,
            session,
            probe,
            final(registry)@,
            done,
        ),
{
    store(registry, function, OnDuplicate::Replace, session, probe)
}

// ---------------------------------------------------------------------------------------
// Laws
// ---------------------------------------------------------------------------------------

proof fn lemma_one_slot<H>(
    entries: Seq<FunctionEntry<H>>,
    name: Seq<char>,
    arity: int,
    i: int,
)
    requires
        is_slot(entries, name, arity, i),
    ensures
        taken(entries, name, arity),
        slot(entries, name, arity) == i,
{
    let other = slot(entries, name, arity);
    assert(is_slot(entries, name, arity, other));
    if other < i {
        assert(entries[other].answers(name, arity));
    } else if i < other {
        assert(entries[i].answers(name, arity));
    }
}

pub(crate) proof fn lemma_answering_takes<H>(
    entries: Seq<FunctionEntry<H>>,
    name: Seq<char>,
    arity: int,
    i: int,
)
    requires
        0 <= i < entries.len(),
        entries[i].answers(name, arity),
    ensures
        taken(entries, name, arity),
    decreases i,
{
    if exists|j: int| 0 <= j < i && (#[trigger] entries[j]).answers(name, arity) {
        let j = choose|j: int| 0 <= j < i && (#[trigger] entries[j]).answers(name, arity);
        lemma_answering_takes(entries, name, arity, j);
    } else {
        assert(is_slot(entries, name, arity, i));
    }
}

proof fn lemma_only_answer<H>(
    entries: Seq<FunctionEntry<H>>,
    name: Seq<char>,
    arity: int,
    i: int,
)
    requires
        distinct(entries),
        0 <= i < entries.len(),
        entries[i].answers(name, arity),
    ensures
        resolve(entries, name, arity) == Some(entries[i]),
        slot(entries, name, arity) == i,
{
    lemma_answering_takes(entries, name, arity, i);
    let s = slot(entries, name, arity);
    assert(is_slot(entries, name, arity, s));
    if s != i {
        assert(entries[s].answers(entries[i].name, entries[i].arity));
    }
}

/// Storing a function leaves every call with at most one answer: no two registrations share
/// a name, compared as SQLite compares names, and an argument count.
pub proof fn storing_keeps_calls_unambiguous<H>(
    entries: Seq<FunctionEntry<H>>,
    entry: FunctionEntry<H>,
)
    requires
        distinct(entries),
    ensures
        distinct(stored(entries, entry)),
{
    let after = stored(entries, entry);
    let place = if taken(entries, entry.name, entry.arity) {
        slot(entries, entry.name, entry.arity)
    } else {
        entries.len() as int
    };
    if taken(entries, entry.name, entry.arity) {
        assert(is_slot(entries, entry.name, entry.arity, place));
    }
    assert forall|i: int, j: int|
        0 <= i < after.len() && 0 <= j < after.len() && i != j implies !(
    #[trigger] after[i]).answers((#[trigger] after[j]).name, after[j].arity) by {
        if after[i].answers(after[j].name, after[j].arity) {
            if i != place && j != place {
                assert(entries[i].answers(entries[j].name, entries[j].arity));
            } else {
                let other = if i == place {
                    j
                } else {
                    i
                };
                assert(entries[other].answers(entry.name, entry.arity));
                lemma_only_answer(entries, entry.name, entry.arity, other);
            }
        }
    }
}

/// A stored function answers every call of its name, in any ASCII case, with its argument
/// count.
pub proof fn stored_function_answers<H>(
    entries: Seq<FunctionEntry<H>>,
    entry: FunctionEntry<H>,
    name: Seq<char>,
)
    requires
        distinct(entries),
        text::same_name(entry.name, name),
    ensures
        resolve(stored(entries, entry), name, entry.arity) == Some(entry),
{
    storing_keeps_calls_unambiguous(entries, entry);
    let after = stored(entries, entry);
    let place = if taken(entries, entry.name, entry.arity) {
        slot(entries, entry.name, entry.arity)
    } else {
        entries.len() as int
    };
    if taken(entries, entry.name, entry.arity) {
        assert(is_slot(entries, entry.name, entry.arity, place));
    }
    assert(after[place] == entry);
    lemma_only_answer(after, name, entry.arity, place);
}

/// Storing a function changes no other call: another name, or the same name with another
/// argument count, resolves as before.
pub proof fn storing_leaves_other_calls_alone<H>(
    entries: Seq<FunctionEntry<H>>,
    entry: FunctionEntry<H>,
    name: Seq<char>,
    arity: int,
)
    requires
        distinct(entries),
        !entry.answers(name, arity),
    ensures
        resolve(stored(entries, entry), name, arity) == resolve(entries, name, arity),
{
    storing_keeps_calls_unambiguous(entries, entry);
    let after = stored(entries, entry);
    let place = if taken(entries, entry.name, entry.arity) {
        slot(entries, entry.name, entry.arity)
    } else {
        entries.len() as int
    };
    if taken(entries, entry.name, entry.arity) {
        assert(is_slot(entries, entry.name, entry.arity, place));
    }
    if taken(entries, name, arity) {
        let s = slot(entries, name, arity);
        assert(is_slot(entries, name, arity, s));
        if s == place {
            assert(entry.answers(name, arity));
        }
        assert(after[s] == entries[s]);
        lemma_only_answer(after, name, arity, s);
        lemma_only_answer(entries, name, arity, s);
    } else if taken(after, name, arity) {
        let s = slot(after, name, arity);
        assert(is_slot(after, name, arity, s));
        assert(s != place);
        lemma_answering_takes(entries, name, arity, s);
    }
}

/// Storing a function keeps the registration order: nothing leaves, nothing moves, every
/// place goes on answering the calls it answered, and a new name joins at the end.
pub proof fn storing_keeps_the_order<H>(
    entries: Seq<FunctionEntry<H>>,
    entry: FunctionEntry<H>,
    i: int,
    name: Seq<char>,
    arity: int,
)
    requires
        0 <= i < entries.len(),
    ensures
        stored(entries, entry)[i].answers(name, arity) <==> entries[i].answers(name, arity),
        !entry.answers(entries[i].name, entries[i].arity) ==> stored(entries, entry)[i]
            == entries[i],
        stored(entries, entry).len() == if taken(entries, entry.name, entry.arity) {
            entries.len()
        } else {
            entries.len() + 1
        },
        !taken(entries, entry.name, entry.arity) ==> stored(entries, entry).last() == entry,
{
    if taken(entries, entry.name, entry.arity) {
        assert(is_slot(
            entries,
            entry.name,
            entry.arity,
            slot(entries, entry.name, entry.arity),
        ));
    }
}

/// A registration that succeeds stores the function, which from then on answers every call
/// of its name, in any ASCII case, with its argument count.
pub proof fn a_successful_registration_answers<H, S, P: FnOnce(S, &Arc<Registration<H>>) -> (S, ProbeReport)>(
    before: Seq<FunctionEntry<H>>,
    function: ScalarFunction<H>,
    on_duplicate: OnDuplicate,
    session: S,
    probe: P,
    after: Seq<FunctionEntry<H>>,
    handed_back: S,
    name: Seq<char>,
)
    requires
        distinct(before),
        registered(before, function, on_duplicate, session, probe, after, (handed_back, Ok(()))),
        text::same_name(function.name@, name),
    ensures
        after == stored(before, crate::function::entry_of(function)),
        resolve(after, name, function.arity as int) == Some(crate::function::entry_of(function)),
{
    stored_function_answers(before, crate::function::entry_of(function), name);
}

/// A registration that fails, for whatever reason, changes nothing.
pub proof fn a_failed_registration_changes_nothing<H, S, P: FnOnce(S, &Arc<Registration<H>>) -> (S, ProbeReport)>(
    before: Seq<FunctionEntry<H>>,
    function: ScalarFunction<H>,
    on_duplicate: OnDuplicate,
    session: S,
    probe: P,
    after: Seq<FunctionEntry<H>>,
    handed_back: S,
    error: Error,
)
    requires
        registered(before, function, on_duplicate, session, probe, after, (handed_back, Err(error))),
    ensures
        after == before,
{
}

/// Registering with replacement never reports a duplicate.
pub proof fn a_replacement_is_never_a_duplicate<H, S, P: FnOnce(S, &Arc<Registration<H>>) -> (S, ProbeReport)>(
    before: Seq<FunctionEntry<H>>,
    function: ScalarFunction<H>,
    session: S,
    probe: P,
    after: Seq<FunctionEntry<H>>,
    handed_back: S,
    error: Error,
)
    requires
        registered(
            before,
            function,
            OnDuplicate::Replace,
            session,
            probe,
            after,
            (handed_back, Err(error)),
        ),
    ensures
        !(error@ is DuplicateFunction),
{
}

/// Once a function is stored, a plain registration of the same name, in any ASCII case, and
/// the same argument count is refused as a duplicate, and a replacement is not.
pub proof fn a_repeat_is_a_duplicate<H>(
    entries: Seq<FunctionEntry<H>>,
    entry: FunctionEntry<H>,
    repeat: ScalarFunction<H>,
)
    requires
        distinct(entries),
        entry.answers(repeat.name@, repeat.arity as int),
        crate::function::malformation(repeat) is None,
    ensures
        refusal(stored(entries, entry), repeat, OnDuplicate::Reject) == Some(
            ErrorView::DuplicateFunction { name: repeat.name@, arity: repeat.arity as int },
        ),
        refusal(stored(entries, entry), repeat, OnDuplicate::Replace) is None,
{
    stored_function_answers(entries, entry, repeat.name@);
}

/// Two functions can share a name when their argument counts differ: storing one does not
/// make the other a duplicate.
pub proof fn an_overload_is_no_duplicate<H>(
    entries: Seq<FunctionEntry<H>>,
    entry: FunctionEntry<H>,
    overload: ScalarFunction<H>,
    on_duplicate: OnDuplicate,
)
    requires
        distinct(entries),
        entry.arity != overload.arity,
    ensures
        refusal(stored(entries, entry), overload, on_duplicate) == refusal(
            entries,
            overload,
            on_duplicate,
        ),
{
    storing_leaves_other_calls_alone(entries, entry, overload.name@, overload.arity as int);
}

/// The entries of a registry once the first `count` of `stores` have been stored, in order.
pub open spec fn after_stores<H>(
    stores: Seq<FunctionEntry<H>>,
    count: nat,
) -> Seq<FunctionEntry<H>>
    decreases count,
{
    if count == 0 {
        Seq::empty()
    } else {
        stored(after_stores(stores, (count - 1) as nat), stores[count - 1])
    }
}

/// The latest of the first `count` stores that answers a call of `name` with `arity`
/// arguments.
pub open spec fn latest<H>(
    stores: Seq<FunctionEntry<H>>,
    count: nat,
    name: Seq<char>,
    arity: int,
) -> Option<FunctionEntry<H>>
    decreases count,
{
    if count == 0 {
        None
    } else if stores[count - 1].answers(name, arity) {
        Some(stores[count - 1])
    } else {
        latest(stores, (count - 1) as nat, name, arity)
    }
}

/// A database resolves a call to the latest registration for it that was made before the
/// database connected: `set` is what a database captures after `count` registrations, and
/// whatever `stores` holds beyond them makes no difference to it.
pub proof fn a_database_resolves_to_the_latest_earlier_registration<H>(
    stores: Seq<FunctionEntry<H>>,
    count: nat,
    set: FunctionSet<H>,
    name: Seq<char>,
    arity: int,
)
    requires
        count <= stores.len(),
        entries_of(set@) == after_stores(stores, count),
    ensures
        resolve(entries_of(set@), name, arity) == latest(stores, count, name, arity),
        entries_of(set@) == after_stores(stores.take(count as int), count),
        distinct(entries_of(set@)),
{
    lemma_resolves_to_the_latest(stores, count, name, arity);
    lemma_later_stores_do_not_matter(stores, count, count);
}

proof fn lemma_resolves_to_the_latest<H>(
    stores: Seq<FunctionEntry<H>>,
    count: nat,
    name: Seq<char>,
    arity: int,
)
    requires
        count <= stores.len(),
    ensures
        distinct(after_stores(stores, count)),
        resolve(after_stores(stores, count), name, arity) == latest(stores, count, name, arity),
    decreases count,
{
    if count > 0 {
        let before = after_stores(stores, (count - 1) as nat);
        let entry = stores[count - 1];
        lemma_resolves_to_the_latest(stores, (count - 1) as nat, name, arity);
        storing_keeps_calls_unambiguous(before, entry);
        if entry.answers(name, arity) {
            stored_function_answers(before, entry, name);
        } else {
            storing_leaves_other_calls_alone(before, entry, name, arity);
        }
    } else if taken(after_stores(stores, count), name, arity) {
        let i = slot(after_stores(stores, count), name, arity);
        assert(is_slot(after_stores(stores, count), name, arity, i));
    }
}

proof fn lemma_later_stores_do_not_matter<H>(
    stores: Seq<FunctionEntry<H>>,
    count: nat,
    upto: nat,
)
    requires
        count <= upto <= stores.len(),
    ensures
        after_stores(stores, count) == after_stores(stores.take(upto as int), count),
    decreases count,
{
    if count > 0 {
        lemma_later_stores_do_not_matter(stores, (count - 1) as nat, upto);
        assert(stores.take(upto as int)[count - 1] == stores[count - 1]);
    }
}

} // verus!
