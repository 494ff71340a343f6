//! The library's promises, spelled out in bytes, numbers and calls.
//!
//! The contracts of the other modules speak through spec functions. Each law here says what
//! such a function comes to for every input, in the plainest terms there are: which bytes are
//! compared, which number is set, which call is made, which text is shown.

use std::sync::Arc;
use vstd::prelude::*;
use vstd::std_specs::cmp::PartialEqSpec;
use vstd::std_specs::convert::FromSpec;
use vstd::utf8;

use crate::error::{Error, ErrorView};
use crate::function::{FunctionEntry, InvocationScope, Registration, ScalarFunction};
use crate::handler::{FunctionError, HandlerOutcome};
use crate::install::InstallState;
use crate::probe::{ProbeCall, ProbeOutcome, ProbeReport, ProbeState, Replies};
use crate::registry::OnDuplicate;
use crate::value::{
    Accessor, RawValue, RawView, ResultCall, ResultView, SqlValue, SqlValueRef, SqlValueView,
};

verus! {

// ---------------------------------------------------------------------------------------
// Names
// ---------------------------------------------------------------------------------------

/// Two names are one name exactly when their UTF-8 forms are equally long and at every place
/// hold the same byte or one ASCII letter in two cases.
pub proof fn names_differ_in_ascii_case_alone(left: Seq<char>, right: Seq<char>)
    ensures
        crate::text::same_name(left, right) <==> {
            let l = utf8::encode_utf8(left);
            let r = utf8::encode_utf8(right);
            &&& l.len() == r.len()
            &&& forall|i: int|
                #![trigger l[i]]
                #![trigger r[i]]
                0 <= i < l.len() ==> {
                    ||| l[i] == r[i]
                    ||| 65 <= l[i] <= 90 && r[i] == l[i] + 32
                    ||| 65 <= r[i] <= 90 && l[i] == r[i] + 32
                }
        },
{
    let l = utf8::encode_utf8(left);
    let r = utf8::encode_utf8(right);
    let fl = crate::text::folded(left);
    let fr = crate::text::folded(right);
    if fl == fr {
        assert(fl.len() == l.len() && fr.len() == r.len());
        assert forall|i: int|
            #![trigger l[i]]
            #![trigger r[i]]
            0 <= i < l.len() implies {
            ||| l[i] == r[i]
            ||| 65 <= l[i] <= 90 && r[i] == l[i] + 32
            ||| 65 <= r[i] <= 90 && l[i] == r[i] + 32
        } by {
            assert(fl[i] == fr[i]);
        }
    }
    if l.len() == r.len() && forall|i: int|
        #![trigger l[i]]
        #![trigger r[i]]
        0 <= i < l.len() ==> {
            ||| l[i] == r[i]
            ||| 65 <= l[i] <= 90 && r[i] == l[i] + 32
            ||| 65 <= r[i] <= 90 && l[i] == r[i] + 32
        } {
        assert forall|i: int| 0 <= i < fl.len() implies fl[i] == fr[i] by {
            assert(l[i] == l[i] && r[i] == r[i]);
        }
        assert(fl =~= fr);
    }
}

/// Writing any ASCII letters of a name in the other case gives the same name.
pub proof fn a_name_in_another_case_is_the_same_name(left: Seq<char>, right: Seq<char>)
    requires
        left.len() == right.len(),
        forall|i: int|
            0 <= i < left.len() ==> {
                ||| #[trigger] left[i] == right[i]
                ||| 'A' <= left[i] <= 'Z' && right[i] as int == left[i] as int + 32
                ||| 'A' <= right[i] <= 'Z' && left[i] as int == right[i] as int + 32
            },
    ensures
        crate::text::same_name(left, right),
    decreases left.len(),
{
    if left.len() > 0 {
        let l = left.drop_first();
        let r = right.drop_first();
        assert forall|i: int| 0 <= i < l.len() implies {
            ||| #[trigger] l[i] == r[i]
            ||| 'A' <= l[i] <= 'Z' && r[i] as int == l[i] as int + 32
            ||| 'A' <= r[i] <= 'Z' && l[i] as int == r[i] as int + 32
        } by {
            assert(l[i] == left[i + 1]);
        }
        a_name_in_another_case_is_the_same_name(l, r);
        names_differ_in_ascii_case_alone(l, r);
        let a = left[0] as u32;
        let b = right[0] as u32;
        assert(left[0] == left[0]);
        if a != b {
            assert(a < 128 ==> (a & 0x7F) as u8 == a) by (bit_vector);
            assert(b < 128 ==> (b & 0x7F) as u8 == b) by (bit_vector);
            assert(utf8::encode_scalar(a) =~= seq![a as u8]);
            assert(utf8::encode_scalar(b) =~= seq![b as u8]);
        }
        let n = utf8::encode_scalar(a).len() as int;
        let wl = utf8::encode_utf8(left);
        let wr = utf8::encode_utf8(right);
        let tl = utf8::encode_utf8(l);
        let tr = utf8::encode_utf8(r);
        assert(wl =~= utf8::encode_scalar(a) + tl);
        assert(wr =~= utf8::encode_scalar(b) + tr);
        assert forall|i: int|
            #![trigger wl[i]]
            #![trigger wr[i]]
            0 <= i < wl.len() implies {
            ||| wl[i] == wr[i]
            ||| 65 <= wl[i] <= 90 && wr[i] == wl[i] + 32
            ||| 65 <= wr[i] <= 90 && wl[i] == wr[i] + 32
        } by {
            if i >= n {
                assert(wl[i] == tl[i - n]);
                assert(wr[i] == tr[i - n]);
            }
        }
        names_differ_in_ascii_case_alone(left, right);
    }
}

/// Each of the twenty-six capital letters folds to its small letter, and nothing else folds.
pub proof fn folding_turns_capitals_into_small_letters(k: u8, other: u8)
    requires
        k < 26,
        !(65 <= other <= 90),
    ensures
        crate::text::fold_byte((65 + k) as u8) == 97 + k,
        crate::text::fold_byte(other) == other,
{
}

/// A name is valid exactly when its UTF-8 form has at least one byte, at most 255, and none
/// that is zero; the C form is those bytes and one zero byte.
pub proof fn what_a_valid_name_is(name: Seq<char>)
    ensures
        crate::function::valid_name(name) <==> {
            let bytes = utf8::encode_utf8(name);
            &&& 1 <= bytes.len() <= 255
            &&& forall|i: int| 0 <= i < bytes.len() ==> #[trigger] bytes[i] != 0
        },
        crate::function::c_string(name).len() == utf8::encode_utf8(name).len() + 1,
        forall|i: int|
            0 <= i < utf8::encode_utf8(name).len() ==> #[trigger] crate::function::c_string(name)[i]
                == utf8::encode_utf8(name)[i],
        crate::function::c_string(name).last() == 0,
{
    let bytes = utf8::encode_utf8(name);
    if forall|i: int| 0 <= i < bytes.len() ==> #[trigger] bytes[i] != 0 {
        assert(!bytes.contains(0u8));
    } else {
        let i = choose|i: int| 0 <= i < bytes.len() && #[trigger] bytes[i] == 0;
        assert(bytes[i] == 0u8);
        assert(bytes.contains(0u8));
    }
}

// ---------------------------------------------------------------------------------------
// Functions
// ---------------------------------------------------------------------------------------

/// What a function becomes once registered keeps what its caller asked for: the name, the
/// argument count and the handler as they are; and flags whose `DIRECTONLY` bit is set for a
/// direct-only function alone, whose `INNOCUOUS` bit is set for an innocuous one alone, whose
/// `DETERMINISTIC` bit is set for a deterministic one alone, whose `UTF8` bit is always set,
/// and which have no other bit.
pub proof fn an_entry_keeps_what_was_asked<H>(function: ScalarFunction<H>)
    ensures
        ({
            let entry = crate::function::entry_of(function);
            &&& entry.name == function.name@
            &&& entry.arity == function.arity
            &&& entry.handler == function.handler
            &&& entry.flags & 0x80000 != 0 <==> function.invocation_scope
                == InvocationScope::DirectOnly
            &&& entry.flags & 0x200000 != 0 <==> function.invocation_scope
                == InvocationScope::InnocuousSchema
            &&& entry.flags & 0x800 != 0 <==> function.deterministic
            &&& entry.flags & 1 != 0
            &&& entry.flags & !0x280801i32 == 0
        }),
{
    crate::function::flags_say_what_was_asked(function.invocation_scope, function.deterministic);
    assert(1i32 | 0x80000i32 | 0x200000i32 | 0x800i32 == 0x280801i32) by (bit_vector);
}

/// A function is malformed exactly when its name is not valid, or its name is and its argument
/// count is negative; the error carries the name or the count.
pub proof fn what_is_malformed<H>(function: ScalarFunction<H>)
    ensures
        ({
            let bytes = utf8::encode_utf8(function.name@);
            let well_named = 1 <= bytes.len() <= 255 && forall|i: int|
                0 <= i < bytes.len() ==> #[trigger] bytes[i] != 0;
            crate::function::malformation(function) == if !well_named {
                Some(ErrorView::InvalidFunctionName(function.name@))
            } else if function.arity < 0 {
                Some(ErrorView::InvalidFunctionArity(function.arity as int))
            } else {
                None
            }
        }),
{
    what_a_valid_name_is(function.name@);
}

/// A registered entry has a name of 1 to 255 bytes without a zero byte, an argument count that
/// is not negative, and flags that say UTF-8.
pub proof fn what_a_valid_entry_is<H>(entry: FunctionEntry<H>)
    requires
        entry.valid(),
    ensures
        1 <= utf8::encode_utf8(entry.name).len() <= 255,
        forall|i: int|
            0 <= i < utf8::encode_utf8(entry.name).len() ==> #[trigger] utf8::encode_utf8(
                entry.name,
            )[i] != 0,
        0 <= entry.arity <= 0x7fff_ffff,
        entry.flags & 1 != 0,
        !(entry.flags & 0x80000 != 0 && entry.flags & 0x200000 != 0),
{
    what_a_valid_name_is(entry.name);
    let (scope, deterministic) = choose|scope: InvocationScope, deterministic: bool|
        entry.flags == #[trigger] crate::function::flags_of(scope, deterministic);
    crate::function::flags_say_what_was_asked(scope, deterministic);
}

/// An entry answers a call exactly when the argument counts are equal and the names are one
/// name.
pub proof fn what_an_entry_answers<H>(entry: FunctionEntry<H>, name: Seq<char>, arity: int)
    ensures
        entry.answers(name, arity) <==> entry.arity == arity && crate::text::same_name(
            entry.name,
            name,
        ),
{
}

// ---------------------------------------------------------------------------------------
// The registry
// ---------------------------------------------------------------------------------------

/// A name and argument count are taken exactly when some entry has that count and, but for
/// ASCII case, that name; a taken call resolves to such an entry, and no other call resolves.
pub proof fn what_is_taken<H>(entries: Seq<FunctionEntry<H>>, name: Seq<char>, arity: int)
    ensures
        crate::registry::taken(entries, name, arity) <==> exists|i: int|
            0 <= i < entries.len() && (#[trigger] entries[i]).arity == arity
                && crate::text::same_name(entries[i].name, name),
        match crate::registry::resolve(entries, name, arity) {
            Some(entry) => entries.contains(entry) && entry.arity == arity
                && crate::text::same_name(entry.name, name),
            None => forall|i: int|
                0 <= i < entries.len() && (#[trigger] entries[i]).arity == arity
                    ==> !crate::text::same_name(entries[i].name, name),
        },
{
    if crate::registry::taken(entries, name, arity) {
        let s = crate::registry::slot(entries, name, arity);
        assert(crate::registry::is_slot(entries, name, arity, s));
        assert(entries[s].arity == arity);
    }
    if exists|i: int|
        0 <= i < entries.len() && (#[trigger] entries[i]).arity == arity && crate::text::same_name(
            entries[i].name,
            name,
        ) {
        let i = choose|i: int|
            0 <= i < entries.len() && (#[trigger] entries[i]).arity == arity
                && crate::text::same_name(entries[i].name, name);
        crate::registry::lemma_answering_takes(entries, name, arity, i);
    }
}

/// Storing an entry puts it in the place of the one entry with its argument count and, but for
/// ASCII case, its name; where there is none, it is added at the end. No other place changes.
pub proof fn what_storing_does<H>(entries: Seq<FunctionEntry<H>>, entry: FunctionEntry<H>)
    requires
        crate::registry::distinct(entries),
    ensures
        ({
            let after = crate::registry::stored(entries, entry);
            &&& forall|i: int|
                0 <= i < entries.len() ==> #[trigger] after[i] == if entries[i].arity
                    == entry.arity && crate::text::same_name(entries[i].name, entry.name) {
                    entry
                } else {
                    entries[i]
                }
            &&& (exists|i: int|
                0 <= i < entries.len() && (#[trigger] entries[i]).arity == entry.arity
                    && crate::text::same_name(entries[i].name, entry.name)) ==> after.len()
                == entries.len()
            &&& (forall|i: int|
                0 <= i < entries.len() && (#[trigger] entries[i]).arity == entry.arity
                    ==> !crate::text::same_name(entries[i].name, entry.name)) ==> after
                == entries.push(entry)
        }),
{
    what_is_taken(entries, entry.name, entry.arity);
    let after = crate::registry::stored(entries, entry);
    if crate::registry::taken(entries, entry.name, entry.arity) {
        let s = crate::registry::slot(entries, entry.name, entry.arity);
        assert(crate::registry::is_slot(entries, entry.name, entry.arity, s));
        assert forall|i: int| 0 <= i < entries.len() implies #[trigger] after[i]
            == if entries[i].arity == entry.arity && crate::text::same_name(
            entries[i].name,
            entry.name,
        ) {
            entry
        } else {
            entries[i]
        } by {
            if i != s && entries[i].answers(entry.name, entry.arity) {
                assert(entries[i].answers(entries[s].name, entries[s].arity));
            }
        }
    }
}

/// Storing a function never removes a different one: an entry with another argument count, or
/// with a name whose UTF-8 form has another length or at some place another byte that is not
/// the same ASCII letter in the other case, stays where it is.
pub proof fn storing_never_removes_a_different_function<H>(
    entries: Seq<FunctionEntry<H>>,
    entry: FunctionEntry<H>,
    i: int,
    at: int,
)
    requires
        crate::registry::distinct(entries),
        0 <= i < entries.len(),
        ({
            let kept = utf8::encode_utf8(entries[i].name);
            let new = utf8::encode_utf8(entry.name);
            ||| entries[i].arity != entry.arity
            ||| kept.len() != new.len()
            ||| {
                &&& 0 <= at < kept.len()
                &&& kept[at] != new[at]
                &&& !(65 <= kept[at] <= 90 && new[at] == kept[at] + 32)
                &&& !(65 <= new[at] <= 90 && kept[at] == new[at] + 32)
            }
        }),
    ensures
        crate::registry::stored(entries, entry)[i] == entries[i],
        crate::registry::stored(entries, entry).contains(entry),
{
    what_storing_does(entries, entry);
    names_differ_in_ascii_case_alone(entries[i].name, entry.name);
    let after = crate::registry::stored(entries, entry);
    assert(after[i] == entries[i]);
    if exists|j: int|
        0 <= j < entries.len() && (#[trigger] entries[j]).arity == entry.arity
            && crate::text::same_name(entries[j].name, entry.name) {
        let j = choose|j: int|
            0 <= j < entries.len() && (#[trigger] entries[j]).arity == entry.arity
                && crate::text::same_name(entries[j].name, entry.name);
        assert(after[j] == entry);
    } else {
        assert(after[entries.len() as int] == entry);
    }
}

/// A function registered under a name in another ASCII case replaces the first, and every call
/// of either spelling then reaches the new one.
pub proof fn a_name_in_another_case_is_replaced<H>(
    entries: Seq<FunctionEntry<H>>,
    entry: FunctionEntry<H>,
    i: int,
)
    requires
        crate::registry::distinct(entries),
        0 <= i < entries.len(),
        entries[i].arity == entry.arity,
        entries[i].name.len() == entry.name.len(),
        forall|k: int|
            0 <= k < entry.name.len() ==> {
                ||| #[trigger] entries[i].name[k] == entry.name[k]
                ||| 'A' <= entries[i].name[k] <= 'Z' && entry.name[k] as int
                    == entries[i].name[k] as int + 32
                ||| 'A' <= entry.name[k] <= 'Z' && entries[i].name[k] as int
                    == entry.name[k] as int + 32
            },
    ensures
        crate::registry::stored(entries, entry) == entries.update(i, entry),
        crate::registry::resolve(
            crate::registry::stored(entries, entry),
            entries[i].name,
            entry.arity,
        ) == Some(entry),
        crate::registry::resolve(
            crate::registry::stored(entries, entry),
            entry.name,
            entry.arity,
        ) == Some(entry),
{
    a_name_in_another_case_is_the_same_name(entries[i].name, entry.name);
    what_storing_does(entries, entry);
    let after = crate::registry::stored(entries, entry);
    assert forall|j: int| 0 <= j < entries.len() implies after[j] == entries.update(i, entry)[j] by {
        if j != i {
            assert(!entries[j].answers(entries[i].name, entries[i].arity));
        }
    }
    assert(entries[i].arity == entry.arity);
    assert(after =~= entries.update(i, entry));
    crate::registry::stored_function_answers(entries, entry, entries[i].name);
    crate::registry::stored_function_answers(entries, entry, entry.name);
}

/// Entries are distinct exactly when no two of them have one argument count and, but for ASCII
/// case, one name.
pub proof fn what_distinct_means<H>(entries: Seq<FunctionEntry<H>>)
    ensures
        crate::registry::distinct(entries) <==> forall|i: int, j: int|
            0 <= i < entries.len() && 0 <= j < entries.len() && i != j && (
            #[trigger] entries[i]).arity == (#[trigger] entries[j]).arity
                ==> !crate::text::same_name(entries[i].name, entries[j].name),
{
}

/// A list of registrations means its registrations, each in its place.
pub proof fn a_list_means_its_registrations<H>(functions: Seq<Arc<Registration<H>>>, i: int)
    ensures
        crate::registry::entries_of(functions).len() == functions.len(),
        0 <= i < functions.len() ==> crate::registry::entries_of(functions)[i] == functions[i]@,
{
}

/// A list is well formed exactly when each of its registrations is.
pub proof fn when_a_list_is_well_formed<H>(functions: Seq<Arc<Registration<H>>>)
    ensures
        crate::registry::all_wf(functions) <==> forall|i: int|
            0 <= i < functions.len() ==> (#[trigger] functions[i]).wf(),
{
}

/// A probe that takes every well-formed registration can be registered with.
pub proof fn which_probes_can_be_used<
    H,
    S,
    P: FnOnce(S, &Arc<Registration<H>>) -> (S, ProbeReport),
>(probe: P)
    ensures
        crate::registry::probes_anything::<H, S, P>(probe) <==> forall|
            session: S,
            registration: &Arc<Registration<H>>,
        |
            registration.wf() ==> #[trigger] call_requires(probe, (session, registration)),
{
}

/// A function is refused, before the linked library is asked, for a name that is not valid,
/// for a negative argument count, or, where duplicates are rejected, for an entry with its
/// argument count and, but for ASCII case, its name: in this order, and for nothing else.
pub proof fn what_is_refused<H>(
    entries: Seq<FunctionEntry<H>>,
    function: ScalarFunction<H>,
    on_duplicate: OnDuplicate,
)
    ensures
        ({
            let bytes = utf8::encode_utf8(function.name@);
            let well_named = 1 <= bytes.len() <= 255 && forall|i: int|
                0 <= i < bytes.len() ==> #[trigger] bytes[i] != 0;
            let duplicate = exists|i: int|
                0 <= i < entries.len() && (#[trigger] entries[i]).arity == function.arity
                    && crate::text::same_name(entries[i].name, function.name@);
            crate::registry::refusal(entries, function, on_duplicate) == if !well_named {
                Some(ErrorView::InvalidFunctionName(function.name@))
            } else if function.arity < 0 {
                Some(ErrorView::InvalidFunctionArity(function.arity as int))
            } else if on_duplicate == OnDuplicate::Reject && duplicate {
                Some(
                    ErrorView::DuplicateFunction {
                        name: function.name@,
                        arity: function.arity as int,
                    },
                )
            } else {
                None
            }
        }),
{
    what_is_malformed(function);
    what_is_taken(entries, function.name@, function.arity as int);
}

/// What the linked library's word does to a registration: acceptance stores the entry, and
/// anything else changes nothing and is the error that says so, with the entry's own name and
/// argument count.
pub proof fn what_the_probe_settles<H>(
    before: Seq<FunctionEntry<H>>,
    entry: FunctionEntry<H>,
    report: ProbeReport,
    after: Seq<FunctionEntry<H>>,
    result: Result<(), Error>,
)
    requires
        crate::registry::settled(before, entry, report, after, result),
    ensures
        report.outcome == ProbeOutcome::Accepted <==> result is Ok,
        result is Ok ==> after == crate::registry::stored(before, entry),
        result is Err ==> after == before,
        report.outcome == ProbeOutcome::ShadowsBuiltin ==> result->Err_0@ == (
        ErrorView::ShadowsBuiltinFunction { name: entry.name, arity: entry.arity }),
        report.outcome matches ProbeOutcome::Unavailable { code } ==> result->Err_0@ == (
        ErrorView::ProbeConnectionFailed {
            name: entry.name,
            reason: report.text@ + " (code "@ + crate::text::decimal(code as int) + ")"@,
        }),
        report.outcome matches ProbeOutcome::Refused { code } ==> result->Err_0@ == (
        ErrorView::FunctionRefused {
            name: entry.name,
            arity: entry.arity,
            reason: report.text@ + " (code "@ + crate::text::decimal(code as int) + ")"@,
        }),
{
}

/// A registration that succeeds was put to the probe once, as the very function that was asked
/// for, and the probe accepted it; one that is refused without the probe hands the session
/// back as it was.
pub proof fn success_means_the_probe_accepted<
    H,
    S,
    P: FnOnce(S, &Arc<Registration<H>>) -> (S, ProbeReport),
>(
    before: Seq<FunctionEntry<H>>,
    function: ScalarFunction<H>,
    on_duplicate: OnDuplicate,
    session: S,
    probe: P,
    after: Seq<FunctionEntry<H>>,
    done: (S, Result<(), Error>),
)
    requires
        crate::registry::registered(
            before,
            function,
            on_duplicate,
            session,
            probe,
            after,
            done,
        ),
    ensures
        done.1 is Ok ==> exists|registration: &Arc<Registration<H>>, report: ProbeReport|
            {
                &&& #[trigger] call_ensures(probe, (session, registration), (done.0, report))
                &&& report.outcome == ProbeOutcome::Accepted
                &&& registration.wf()
                &&& registration@ == crate::function::entry_of(function)
                &&& after == crate::registry::stored(before, registration@)
            },
        done.1 is Err ==> after == before,
        crate::registry::refusal(before, function, on_duplicate) matches Some(error) ==> done.0
            == session && done.1 is Err && done.1->Err_0@ == error,
        crate::registry::refusal(before, function, on_duplicate) is None ==> exists|
            registration: &Arc<Registration<H>>,
            report: ProbeReport,
        |
            {
                &&& #[trigger] call_ensures(probe, (session, registration), (done.0, report))
                &&& registration@ == crate::function::entry_of(function)
                &&& crate::registry::settled(before, registration@, report, after, done.1)
            },
{
}

// ---------------------------------------------------------------------------------------
// The probe
// ---------------------------------------------------------------------------------------

/// What a probe asks SQLite for in each of its states. The query for built-ins is bound to the
/// whole UTF-8 form of the name and to the exact argument count, and the function is created
/// under that same name and count, with the flags it was registered with.
pub proof fn what_the_probe_asks<H>(
    entry: FunctionEntry<H>,
    state: ProbeState,
    call: ProbeCall<'_>,
)
    requires
        state.asks_for(entry, call),
    ensures
        match state {
            ProbeState::Opening => {
                &&& call matches ProbeCall::Open { database, flags }
                &&& database@ == ":memory:"@
                &&& flags == 6
            },
            ProbeState::Preparing => {
                &&& call matches ProbeCall::Prepare { sql }
                &&& sql@
                    == "SELECT 1 FROM pragma_function_list WHERE lower(name) = lower(?1) AND (narg = ?2 OR narg < 0) LIMIT 1"@
            },
            ProbeState::BindingName => {
                &&& call matches ProbeCall::BindText { index, name, length }
                &&& index == 1
                &&& 0 <= length <= name@.len()
                &&& name@.take(length as int) == utf8::encode_utf8(entry.name)
            },
            ProbeState::BindingArity => {
                &&& call matches ProbeCall::BindInt { index, value }
                &&& index == 2
                &&& value == entry.arity
            },
            ProbeState::Stepping => call == ProbeCall::Step,
            ProbeState::Finalizing { .. } => call == ProbeCall::Finalize,
            ProbeState::Creating => {
                &&& call matches ProbeCall::CreateFunction { function }
                &&& function.c_name@ == utf8::encode_utf8(entry.name).push(0u8)
                &&& function.arity == entry.arity
                &&& function.flags == entry.flags
            },
            ProbeState::Closing { .. } => call == ProbeCall::Close,
            ProbeState::Finished { outcome } => {
                &&& call matches ProbeCall::Nothing { outcome: found }
                &&& found == outcome
            },
        },
{
    assert(2i32 | 4i32 == 6i32) by (bit_vector);
}

/// The states of a probe, for every way its calls can turn out.
pub proof fn how_a_probe_runs(replies: Replies)
    ensures
        ({
            let states = crate::probe::run(ProbeState::Opening, replies);
            let unavailable = |code: i32| ProbeOutcome::Unavailable { code };
            let ended = |head: Seq<ProbeState>, outcome: ProbeOutcome|
                head + seq![ProbeState::Closing { outcome }, ProbeState::Finished { outcome }];
            let opened = seq![ProbeState::Opening];
            let prepared = opened.push(ProbeState::Preparing);
            let bound_name = prepared.push(ProbeState::BindingName);
            let bound_arity = bound_name.push(ProbeState::BindingArity);
            let stepped = bound_arity.push(ProbeState::Stepping);
            let (asked, last) = if replies.bind_name != 0 {
                (bound_name, replies.bind_name)
            } else if replies.bind_arity != 0 {
                (bound_arity, replies.bind_arity)
            } else {
                (stepped, replies.step)
            };
            let finalized = asked.push(ProbeState::Finalizing { code: last });
            states =~= if replies.open != 0 {
                ended(opened, unavailable(replies.open))
            } else if replies.prepare != 0 {
                ended(prepared, unavailable(replies.prepare))
            } else if last == 100 {
                ended(finalized, ProbeOutcome::ShadowsBuiltin)
            } else if last != 101 {
                ended(finalized, unavailable(last))
            } else if replies.create != 0 {
                ended(
                    finalized.push(ProbeState::Creating),
                    ProbeOutcome::Refused { code: replies.create },
                )
            } else {
                ended(finalized.push(ProbeState::Creating), ProbeOutcome::Accepted)
            }
        }),
{
    reveal_with_fuel(crate::probe::run, 10);
}

/// A probe accepts a function only if the library took every call: the connection opened, the
/// query was prepared, bound to the whole name and to the argument count, and found nothing,
/// and the function was then created under that name, argument count and flags. Binding a
/// parameter never returns the code of a finished step, 101.
pub proof fn acceptance_means_no_builtin_was_found<
    H,
    S,
    C: for<'c> Fn(S, ProbeCall<'c>) -> (S, i32),
>(entry: FunctionEntry<H>, perform: C, sessions: Seq<S>, replies: Replies)
    requires
        crate::probe::replied_in_turn(
            crate::probe::run(ProbeState::Opening, replies),
            entry,
            perform,
            sessions,
            replies,
        ),
        replies.outcome() == ProbeOutcome::Accepted,
        replies.bind_name != 101,
        replies.bind_arity != 101,
    ensures
        sessions.len() == 9,
        exists|call: ProbeCall<'_>|
            {
                &&& call matches ProbeCall::Open { database, flags }
                &&& database@ == ":memory:"@
                &&& flags == 6
                &&& #[trigger] call_ensures(perform, (sessions[0], call), (sessions[1], 0i32))
            },
        exists|call: ProbeCall<'_>|
            {
                &&& call matches ProbeCall::Prepare { sql }
                &&& sql@
                    == "SELECT 1 FROM pragma_function_list WHERE lower(name) = lower(?1) AND (narg = ?2 OR narg < 0) LIMIT 1"@
                &&& #[trigger] call_ensures(perform, (sessions[1], call), (sessions[2], 0i32))
            },
        exists|call: ProbeCall<'_>|
            {
                &&& call matches ProbeCall::BindText { index, name, length }
                &&& index == 1
                &&& 0 <= length <= name@.len()
                &&& name@.take(length as int) == utf8::encode_utf8(entry.name)
                &&& #[trigger] call_ensures(perform, (sessions[2], call), (sessions[3], 0i32))
            },
        exists|call: ProbeCall<'_>|
            {
                &&& call matches ProbeCall::BindInt { index, value }
                &&& index == 2
                &&& value == entry.arity
                &&& #[trigger] call_ensures(perform, (sessions[3], call), (sessions[4], 0i32))
            },
        call_ensures(perform, (sessions[4], ProbeCall::Step), (sessions[5], 101i32)),
        exists|call: ProbeCall<'_>|
            {
                &&& call matches ProbeCall::CreateFunction { function }
                &&& function.c_name@ == utf8::encode_utf8(entry.name).push(0u8)
                &&& function.arity == entry.arity
                &&& function.flags == entry.flags
                &&& #[trigger] call_ensures(perform, (sessions[6], call), (sessions[7], 0i32))
            },
{
    let states = crate::probe::run(ProbeState::Opening, replies);
    how_a_probe_runs(replies);
    assert(2i32 | 4i32 == 6i32) by (bit_vector);
    assert(states.len() == 9);
    assert(states[0] == ProbeState::Opening);
    assert(states[1] == ProbeState::Preparing);
    assert(states[2] == ProbeState::BindingName);
    assert(states[3] == ProbeState::BindingArity);
    assert(states[4] == ProbeState::Stepping);
    assert(states[6] == ProbeState::Creating);
    assert(crate::probe::reply_to(states[0], entry, perform, sessions[0], sessions[1], 0));
    assert(crate::probe::reply_to(states[1], entry, perform, sessions[1], sessions[2], 0));
    assert(crate::probe::reply_to(states[2], entry, perform, sessions[2], sessions[3], 0));
    assert(crate::probe::reply_to(states[3], entry, perform, sessions[3], sessions[4], 0));
    assert(crate::probe::reply_to(states[4], entry, perform, sessions[4], sessions[5], 101));
    assert(crate::probe::reply_to(states[6], entry, perform, sessions[6], sessions[7], 0));
}

/// A call that a probe makes for a state got the reply of that state, and each call takes the
/// session that the call before it handed on.
pub proof fn a_probe_calls_in_turn<H, S, C: for<'c> Fn(S, ProbeCall<'c>) -> (S, i32)>(
    states: Seq<ProbeState>,
    entry: FunctionEntry<H>,
    perform: C,
    sessions: Seq<S>,
    replies: Replies,
    i: int,
    code: i32,
)
    requires
        crate::probe::replied_in_turn(states, entry, perform, sessions, replies),
        0 <= i < states.len() - 1,
        code == match states[i] {
            ProbeState::Opening => replies.open,
            ProbeState::Preparing => replies.prepare,
            ProbeState::BindingName => replies.bind_name,
            ProbeState::BindingArity => replies.bind_arity,
            ProbeState::Stepping => replies.step,
            ProbeState::Finalizing { .. } => replies.finalize,
            ProbeState::Creating => replies.create,
            ProbeState::Closing { .. } => replies.close,
            ProbeState::Finished { .. } => 0,
        },
    ensures
        sessions.len() == states.len(),
        exists|call: ProbeCall<'_>|
            states[i].asks_for(entry, call) && #[trigger] call_ensures(
                perform,
                (sessions[i], call),
                (sessions[i + 1], code),
            ),
{
    assert(crate::probe::reply_to(
        states[i],
        entry,
        perform,
        sessions[i],
        sessions[i + 1],
        code,
    ));
}

/// What a probe's replies mean for the function, in result codes: 0 is success, 100 a row, and
/// 101 the end of the rows.
pub proof fn what_replies_mean(replies: Replies)
    ensures
        ({
            let last = if replies.bind_name != 0 {
                replies.bind_name
            } else if replies.bind_arity != 0 {
                replies.bind_arity
            } else {
                replies.step
            };
            &&& replies.prepared() <==> replies.open == 0 && replies.prepare == 0
            &&& replies.query() == last
            &&& replies.outcome() == if replies.open != 0 {
                ProbeOutcome::Unavailable { code: replies.open }
            } else if replies.prepare != 0 {
                ProbeOutcome::Unavailable { code: replies.prepare }
            } else if last == 100 {
                ProbeOutcome::ShadowsBuiltin
            } else if last != 101 {
                ProbeOutcome::Unavailable { code: last }
            } else if replies.create != 0 {
                ProbeOutcome::Refused { code: replies.create }
            } else {
                ProbeOutcome::Accepted
            }
        }),
{
}

/// Each step of a probe, for every code its call can return.
pub proof fn how_a_probe_steps(code: i32, last: i32, outcome: ProbeOutcome)
    ensures
        ProbeState::Opening.next(code) == if code == 0 {
            ProbeState::Preparing
        } else {
            ProbeState::Closing { outcome: ProbeOutcome::Unavailable { code } }
        },
        ProbeState::Preparing.next(code) == if code == 0 {
            ProbeState::BindingName
        } else {
            ProbeState::Closing { outcome: ProbeOutcome::Unavailable { code } }
        },
        ProbeState::BindingName.next(code) == if code == 0 {
            ProbeState::BindingArity
        } else {
            ProbeState::Finalizing { code }
        },
        ProbeState::BindingArity.next(code) == if code == 0 {
            ProbeState::Stepping
        } else {
            ProbeState::Finalizing { code }
        },
        ProbeState::Stepping.next(code) == (ProbeState::Finalizing { code }),
        (ProbeState::Finalizing { code: last }).next(code) == if last == 101 {
            ProbeState::Creating
        } else if last == 100 {
            ProbeState::Closing { outcome: ProbeOutcome::ShadowsBuiltin }
        } else {
            ProbeState::Closing { outcome: ProbeOutcome::Unavailable { code: last } }
        },
        ProbeState::Creating.next(code) == if code == 0 {
            ProbeState::Closing { outcome: ProbeOutcome::Accepted }
        } else {
            ProbeState::Closing { outcome: ProbeOutcome::Refused { code } }
        },
        (ProbeState::Closing { outcome }).next(code) == (ProbeState::Finished { outcome }),
        (ProbeState::Finished { outcome }).next(code) == (ProbeState::Finished { outcome }),
{
}

/// The error a probe's outcome becomes names the function, and, where SQLite gave a code, its
/// text and the code; the code whose text is asked for is that code.
pub proof fn what_a_report_says(outcome: ProbeOutcome, text: Seq<char>, name: Seq<char>, arity: int)
    ensures
        crate::probe::probe_error(outcome, text, name, arity) == match outcome {
            ProbeOutcome::Accepted => None,
            ProbeOutcome::ShadowsBuiltin => Some(
                ErrorView::ShadowsBuiltinFunction { name, arity },
            ),
            ProbeOutcome::Unavailable { code } => Some(
                ErrorView::ProbeConnectionFailed {
                    name,
                    reason: text + " (code "@ + crate::text::decimal(code as int) + ")"@,
                },
            ),
            ProbeOutcome::Refused { code } => Some(
                ErrorView::FunctionRefused {
                    name,
                    arity,
                    reason: text + " (code "@ + crate::text::decimal(code as int) + ")"@,
                },
            ),
        },
        outcome.failure() == match outcome {
            ProbeOutcome::Unavailable { code } => Some(code),
            ProbeOutcome::Refused { code } => Some(code),
            _ => None,
        },
{
}

// ---------------------------------------------------------------------------------------
// The installation
// ---------------------------------------------------------------------------------------

/// A connection that is installed had every function of the set created on it, once, in
/// order, and each creation went well.
pub proof fn installed_means_all_created<
    H,
    S,
    C: Fn(S, &Arc<Registration<H>>) -> (S, i32),
>(
    functions: Seq<Arc<Registration<H>>>,
    create: C,
    sessions: Seq<S>,
    codes: Seq<i32>,
    state: InstallState,
)
    requires
        crate::install::created_in_turn(functions, create, sessions, codes),
        crate::install::comes_to(functions.len(), codes, state),
        state == InstallState::Installed,
    ensures
        sessions.len() == functions.len() + 1,
        forall|i: int|
            #![trigger functions[i]]
            0 <= i < functions.len() ==> call_ensures(
                create,
                (sessions[i], &functions[i]),
                (sessions[i + 1], 0i32),
            ),
{
    assert forall|i: int| #![trigger functions[i]] 0 <= i < functions.len() implies call_ensures(
        create,
        (sessions[i], &functions[i]),
        (sessions[i + 1], 0i32),
    ) by {
        assert(codes[i] == 0);
    }
}

/// An installation that fails at a function created every function before it, each once, in
/// order and well, got the code that is reported for that function, and created none after it.
pub proof fn failed_means_none_after<H, S, C: Fn(S, &Arc<Registration<H>>) -> (S, i32)>(
    functions: Seq<Arc<Registration<H>>>,
    create: C,
    sessions: Seq<S>,
    codes: Seq<i32>,
    index: usize,
    code: i32,
)
    requires
        crate::install::created_in_turn(functions, create, sessions, codes),
        crate::install::comes_to(functions.len(), codes, InstallState::Failed { index, code }),
    ensures
        index < functions.len(),
        code != 0,
        sessions.len() == index + 2,
        forall|i: int|
            #![trigger functions[i]]
            0 <= i < index ==> call_ensures(
                create,
                (sessions[i], &functions[i]),
                (sessions[i + 1], 0i32),
            ),
        call_ensures(
            create,
            (sessions[index as int], &functions[index as int]),
            (sessions[index + 1], code),
        ),
{
    assert(codes[index as int] == code);
    assert forall|i: int| #![trigger functions[i]] 0 <= i < index implies call_ensures(
        create,
        (sessions[i], &functions[i]),
        (sessions[i + 1], 0i32),
    ) by {
        assert(codes[i] == 0);
    }
}

/// An installation ends either installed or failed, never in between.
pub proof fn an_installation_ends(count: nat, codes: Seq<i32>, state: InstallState)
    requires
        crate::install::comes_to(count, codes, state),
    ensures
        state == InstallState::Installed || state is Failed,
        count == 0 ==> state == InstallState::Installed,
{
}

/// Each step of an installation, for every code a creation can return.
pub proof fn how_an_installation_steps(count: nat, index: usize, code: i32, other: i32)
    ensures
        InstallState::Locking.fits(count) <==> count > 0,
        (InstallState::Creating { index }).fits(count) <==> index < count,
        InstallState::Installed.fits(count),
        (InstallState::Failed { index, code }).fits(count) <==> index < count,
        InstallState::first(count) == if count == 0 {
            InstallState::Installed
        } else {
            InstallState::Locking
        },
        InstallState::Locking.next(count, code) == (InstallState::Creating { index: 0 }),
        code != 0 ==> (InstallState::Creating { index }).next(count, code) == (
        InstallState::Failed { index, code }),
        code == 0 && index + 1 < count && index < usize::MAX ==> (InstallState::Creating {
            index,
        }).next(count, code) == (InstallState::Creating { index: (index + 1) as usize }),
        code == 0 && index + 1 >= count ==> (InstallState::Creating { index }).next(count, code)
            == InstallState::Installed,
        InstallState::Installed.next(count, code) == InstallState::Installed,
        (InstallState::Failed { index, code }).next(count, other) == (InstallState::Failed {
            index,
            code,
        }),
{
}

/// The message of a failed installation names the function, its argument count, and SQLite's
/// text and code.
pub proof fn what_a_failed_installation_says<H>(
    entry: FunctionEntry<H>,
    text: Seq<char>,
    code: int,
)
    ensures
        crate::install::failure_text(entry, text, code) == "failed to register SQL function '"@
            + entry.name + "' taking "@ + crate::text::decimal(entry.arity) + " argument(s)"@
            + ": "@ + (text + " (code "@ + crate::text::decimal(code) + ")"@),
{
}

// ---------------------------------------------------------------------------------------
// Values
// ---------------------------------------------------------------------------------------

/// NULL, every integer, every float and every blob are read as themselves, and text as the
/// text whose UTF-8 form the bytes are.
pub proof fn what_is_read<R>(integer: i64, float: R, bytes: Seq<u8>)
    ensures
        crate::value::read(RawView::<R>::Nothing) == SqlValueView::<R>::Null,
        crate::value::read(RawView::<R>::Int64(integer)) == SqlValueView::<R>::Integer(integer),
        crate::value::read(RawView::Double(float)) == SqlValueView::Real(float),
        crate::value::read(RawView::<R>::Blob(bytes)) == SqlValueView::<R>::Blob(bytes),
        crate::value::read(RawView::<R>::Text(bytes)) is Text,
        utf8::valid_utf8(bytes) ==> utf8::encode_utf8(
            crate::value::read(RawView::<R>::Text(bytes))->Text_0,
        ) == bytes,
        !utf8::valid_utf8(bytes) ==> crate::value::read(RawView::<R>::Text(bytes))->Text_0
            == crate::value::lossy_text(bytes),
{
    if utf8::valid_utf8(bytes) {
        utf8::decode_utf8_encode_utf8(bytes);
    }
}

/// NULL, every integer and every float are written as themselves. Text is written as its whole
/// UTF-8 form and a blob as all of its bytes, where their number is at most 2,147,483,647; a
/// longer one is too big.
pub proof fn what_is_written<R>(integer: i64, float: R, text: Seq<char>, bytes: Seq<u8>)
    ensures
        crate::value::written(SqlValueView::<R>::Null) == ResultView::<R>::Value(RawView::Nothing),
        crate::value::written(SqlValueView::<R>::Integer(integer)) == ResultView::<R>::Value(
            RawView::Int64(integer),
        ),
        crate::value::written(SqlValueView::Real(float)) == ResultView::Value(
            RawView::Double(float),
        ),
        utf8::encode_utf8(text).len() <= 0x7fff_ffff ==> crate::value::written(
            SqlValueView::<R>::Text(text),
        ) == ResultView::<R>::Value(RawView::Text(utf8::encode_utf8(text))),
        utf8::encode_utf8(text).len() > 0x7fff_ffff ==> crate::value::written(
            SqlValueView::<R>::Text(text),
        ) == ResultView::<R>::TooBig,
        bytes.len() <= 0x7fff_ffff ==> crate::value::written(SqlValueView::<R>::Blob(bytes))
            == ResultView::<R>::Value(RawView::Blob(bytes)),
        bytes.len() > 0x7fff_ffff ==> crate::value::written(SqlValueView::<R>::Blob(bytes))
            == ResultView::<R>::TooBig,
{
}

/// An error message reaches SQLite as the bytes of its UTF-8 form, all of them or, where there
/// are more, the first 2,147,483,647.
pub proof fn what_an_error_is_written_as<R>(message: Seq<char>)
    ensures
        crate::value::written_error::<R>(message) matches ResultView::Error(sent) && {
            let bytes = utf8::encode_utf8(message);
            &&& sent.len() == if bytes.len() <= 0x7fff_ffff {
                bytes.len() as int
            } else {
                0x7fff_ffff
            }
            &&& forall|i: int| 0 <= i < sent.len() ==> #[trigger] sent[i] == bytes[i]
        },
{
}

/// A held value means what it holds, whichever way it is held.
pub proof fn values_mean_what_they_hold<'a, R>(
    integer: i64,
    float: R,
    text: String,
    borrowed: std::borrow::Cow<'a, str>,
    bytes: Vec<u8>,
    slice: &'a [u8],
)
    ensures
        SqlValue::<R>::Null@ == SqlValueView::<R>::Null,
        SqlValue::<R>::Integer(integer)@ == SqlValueView::<R>::Integer(integer),
        SqlValue::Real(float)@ == SqlValueView::Real(float),
        SqlValue::<R>::Text(text)@ == SqlValueView::<R>::Text(text@),
        SqlValue::<R>::Blob(bytes)@ == SqlValueView::<R>::Blob(bytes@),
        SqlValueRef::<R>::Null@ == SqlValueView::<R>::Null,
        SqlValueRef::<R>::Integer(integer)@ == SqlValueView::<R>::Integer(integer),
        SqlValueRef::Real(float)@ == SqlValueView::Real(float),
        SqlValueRef::<R>::Text(borrowed)@ == SqlValueView::<R>::Text(borrowed@),
        SqlValueRef::<R>::Blob(slice)@ == SqlValueView::<R>::Blob(slice@),
        RawValue::<R>::Nothing@ == RawView::<R>::Nothing,
        RawValue::<R>::Int64(integer)@ == RawView::<R>::Int64(integer),
        RawValue::Double(float)@ == RawView::Double(float),
        RawValue::<R>::Text(slice)@ == RawView::<R>::Text(slice@),
        RawValue::<R>::Blob(slice)@ == RawView::<R>::Blob(slice@),
{
}

/// SQLite takes from a result call the value it names, or the first bytes of its buffer, as
/// many as the call says. A call is in bounds exactly when its buffer has that many.
pub proof fn result_calls_mean_what_they_hold<R>(
    integer: i64,
    float: R,
    text: String,
    bytes: Vec<u8>,
    length: i32,
)
    ensures
        ResultCall::<R>::Null@ == ResultView::<R>::Value(RawView::Nothing),
        ResultCall::<R>::Int64(integer)@ == ResultView::<R>::Value(RawView::Int64(integer)),
        ResultCall::Double(float)@ == ResultView::Value(RawView::Double(float)),
        (ResultCall::<R>::Text { text, length })@ == ResultView::<R>::Value(
            RawView::Text(utf8::encode_utf8(text@).take(length as int)),
        ),
        (ResultCall::<R>::Blob { bytes, length })@ == ResultView::<R>::Value(
            RawView::Blob(bytes@.take(length as int)),
        ),
        ResultCall::<R>::TooBig@ == ResultView::<R>::TooBig,
        (ResultCall::<R>::Error { message: text, length })@ == ResultView::<R>::Error(
            utf8::encode_utf8(text@).take(length as int),
        ),
        (ResultCall::<R>::Text { text, length }).in_bounds() <==> 0 <= length
            <= utf8::encode_utf8(text@).len(),
        (ResultCall::<R>::Blob { bytes, length }).in_bounds() <==> 0 <= length <= bytes@.len(),
        (ResultCall::<R>::Error { message: text, length }).in_bounds() <==> 0 <= length
            <= utf8::encode_utf8(text@).len(),
{
}

/// An argument is read by the accessor of its storage class: 1 is an integer, 2 a float, 3
/// text and 4 a blob. Nothing is read behind a null pointer or for any other class.
pub proof fn which_accessor_reads(null_pointer: bool, type_code: i32)
    ensures
        crate::value::accessor_of(null_pointer, type_code) == Accessor::Int64 <==> !null_pointer
            && type_code == 1,
        crate::value::accessor_of(null_pointer, type_code) == Accessor::Double <==> !null_pointer
            && type_code == 2,
        crate::value::accessor_of(null_pointer, type_code) == Accessor::Text <==> !null_pointer
            && type_code == 3,
        crate::value::accessor_of(null_pointer, type_code) == Accessor::Blob <==> !null_pointer
            && type_code == 4,
{
}

/// Values of two storage classes are never equal. Within one class, two NULLs are equal, two
/// floats compare as their type compares them, and integers, texts and blobs are equal exactly
/// when they hold the same.
pub proof fn when_values_are_equal<R: PartialEq>(
    left: SqlValueView<R>,
    right: SqlValueView<R>,
    equal: bool,
)
    requires
        crate::value::compared(left, right, equal),
    ensures
        match left {
            SqlValueView::Null => equal <==> right is Null,
            SqlValueView::Integer(a) => equal <==> (right matches SqlValueView::Integer(b) && a
                == b),
            SqlValueView::Real(a) => match right {
                SqlValueView::Real(b) => call_ensures(R::eq, (&a, &b), equal),
                _ => !equal,
            },
            SqlValueView::Text(a) => equal <==> (right matches SqlValueView::Text(b) && a == b),
            SqlValueView::Blob(a) => equal <==> (right matches SqlValueView::Blob(b) && a == b),
        },
{
}

/// Where the type of a float says which floats are equal, `==` on values goes by it, and by
/// class and contents for every other value.
pub proof fn what_equality_means<'a, R: PartialEq>(
    left: SqlValue<R>,
    right: SqlValue<R>,
    left_ref: SqlValueRef<'a, R>,
    right_ref: SqlValueRef<'a, R>,
)
    ensures
        R::obeys_eq_spec() ==> SqlValue::<R>::obeys_eq_spec() && SqlValueRef::<
            'a,
            R,
        >::obeys_eq_spec(),
        left.eq_spec(&right) <==> match (left, right) {
            (SqlValue::Null, SqlValue::Null) => true,
            (SqlValue::Integer(a), SqlValue::Integer(b)) => a == b,
            (SqlValue::Real(a), SqlValue::Real(b)) => a.eq_spec(&b),
            (SqlValue::Text(a), SqlValue::Text(b)) => a@ == b@,
            (SqlValue::Blob(a), SqlValue::Blob(b)) => a@ == b@,
            _ => false,
        },
        left_ref.eq_spec(&right_ref) <==> match (left_ref, right_ref) {
            (SqlValueRef::Null, SqlValueRef::Null) => true,
            (SqlValueRef::Integer(a), SqlValueRef::Integer(b)) => a == b,
            (SqlValueRef::Real(a), SqlValueRef::Real(b)) => a.eq_spec(&b),
            (SqlValueRef::Text(a), SqlValueRef::Text(b)) => a@ == b@,
            (SqlValueRef::Blob(a), SqlValueRef::Blob(b)) => a@ == b@,
            _ => false,
        },
{
}

// ---------------------------------------------------------------------------------------
// Calls
// ---------------------------------------------------------------------------------------

/// A handler gets one argument for each that SQLite passed, in the same order: NULLs,
/// integers, floats and blobs as they are, and text decoded.
pub proof fn what_a_handler_gets<R>(
    raw: Seq<RawValue<'_, R>>,
    args: Seq<SqlValueRef<'_, R>>,
    i: int,
)
    requires
        crate::handler::arguments_of(raw, args),
        0 <= i < raw.len(),
    ensures
        args.len() == raw.len(),
        match raw[i] {
            RawValue::Nothing => args[i] is Null,
            RawValue::Int64(value) => args[i] == SqlValueRef::<R>::Integer(value),
            RawValue::Double(value) => args[i] == SqlValueRef::Real(value),
            RawValue::Text(bytes) => {
                &&& args[i] matches SqlValueRef::Text(text)
                &&& utf8::valid_utf8(bytes@) ==> utf8::encode_utf8(text@) == bytes@
                &&& !utf8::valid_utf8(bytes@) ==> text@ == crate::value::lossy_text(bytes@)
            },
            RawValue::Blob(bytes) => args[i] matches SqlValueRef::Blob(read) && read@ == bytes@,
        },
{
    assert(args[i]@ == crate::value::read(raw[i]@));
    if let RawValue::Text(bytes) = raw[i] {
        what_is_read::<R>(0, arbitrary(), bytes@);
    }
}

/// Arguments that hold what SQLite passed, in the same order, are what a handler may be given.
pub proof fn what_a_handler_takes<R>(raw: Seq<RawValue<'_, R>>, args: Seq<SqlValueRef<'_, R>>)
    requires
        args.len() == raw.len(),
        forall|i: int|
            0 <= i < raw.len() ==> (#[trigger] args[i])@ == crate::value::read(raw[i]@),
    ensures
        crate::handler::arguments_of(raw, args),
{
}

/// The answer to a call is the value the handler returned, the message it failed with, or, if
/// it panicked, the function's name and ": handler panicked".
pub proof fn what_answers_a_call<R>(name: Seq<char>, value: SqlValue<R>, error: FunctionError)
    ensures
        crate::handler::answer(name, HandlerOutcome::Returned(Ok(value))) == crate::value::written(
            value@,
        ),
        crate::handler::answer(name, HandlerOutcome::<R>::Returned(Err(error)))
            == crate::value::written_error::<R>(error@),
        crate::handler::answer(name, HandlerOutcome::<R>::Panicked)
            == crate::value::written_error::<R>(name + ": handler panicked"@),
{
}

/// Two function errors are equal exactly when their messages are.
pub proof fn when_function_errors_are_equal(left: FunctionError, right: FunctionError)
    ensures
        FunctionError::obeys_eq_spec(),
        left.eq_spec(&right) <==> left@ == right@,
{
}

// ---------------------------------------------------------------------------------------
// Numerals and messages
// ---------------------------------------------------------------------------------------

/// A numeral is written place by place: a number below ten is its digit, and ten times a
/// number plus a digit is the number's numeral and then the digit. A minus sign stands before
/// the numeral of a negative number.
pub proof fn numerals_are_written_place_by_place(n: nat, d: nat)
    requires
        d < 10,
    ensures
        crate::text::decimal(d as int) == seq![(48 + d) as char],
        n > 0 ==> crate::text::decimal((10 * n + d) as int) == crate::text::decimal(n as int).push(
            (48 + d) as char,
        ),
        n > 0 ==> crate::text::decimal(-(n as int)) == seq!['-'] + crate::text::decimal(n as int),
        crate::text::numeral(n) == crate::text::decimal(n as int),
{
    reveal_strlit("-");
    if n > 0 {
        assert((10 * n + d) / 10 == n && (10 * n + d) % 10 == d) by (nonlinear_arith)
            requires
                d < 10,
        ;
        assert("-"@ =~= seq!['-']);
    }
}

/// A result code is described by SQLite's text, and then the code in brackets.
pub proof fn what_a_description_says(text: Seq<char>, code: int)
    ensures
        crate::text::description(text, code) == text + " (code "@ + crate::text::decimal(code)
            + ")"@,
{
}

/// The view of an error holds what the error holds.
pub proof fn errors_mean_what_they_hold(
    io: std::io::Error,
    sql: sqlx::Error,
    migration: sqlx::migrate::MigrateError,
    name: String,
    arity: i32,
    reason: String,
)
    ensures
        Error::Io(io)@ == ErrorView::Io(io),
        Error::Sqlx(sql)@ == ErrorView::Sqlx(sql),
        Error::Migration(migration)@ == ErrorView::Migration(migration),
        Error::DatabaseClosed@ == ErrorView::DatabaseClosed,
        Error::CannotAttachReadWriteToReader@ == ErrorView::CannotAttachReadWriteToReader,
        Error::InvalidSchemaName(name)@ == ErrorView::InvalidSchemaName(name@),
        Error::DuplicateAttachedDatabase(name)@ == ErrorView::DuplicateAttachedDatabase(name@),
        Error::InvalidFunctionName(name)@ == ErrorView::InvalidFunctionName(name@),
        Error::InvalidFunctionArity(arity)@ == ErrorView::InvalidFunctionArity(arity as int),
        (Error::DuplicateFunction { name, arity })@ == (ErrorView::DuplicateFunction {
            name: name@,
            arity: arity as int,
        }),
        (Error::ShadowsBuiltinFunction { name, arity })@ == (ErrorView::ShadowsBuiltinFunction {
            name: name@,
            arity: arity as int,
        }),
        (Error::ProbeConnectionFailed { name, reason })@ == (ErrorView::ProbeConnectionFailed {
            name: name@,
            reason: reason@,
        }),
        (Error::FunctionRefused { name, arity, reason })@ == (ErrorView::FunctionRefused {
            name: name@,
            arity: arity as int,
            reason: reason@,
        }),
        Error::DuplicateSchemaName(name)@ == ErrorView::DuplicateSchemaName(name@),
{
}

/// The text of every error, with what it carries.
pub proof fn what_errors_say(
    io: std::io::Error,
    sql: sqlx::Error,
    migration: sqlx::migrate::MigrateError,
    name: Seq<char>,
    arity: int,
    reason: Seq<char>,
    detail: Seq<char>,
)
    ensures
        crate::error::error_text(ErrorView::Io(io), detail) == "IO error: "@ + detail,
        crate::error::error_text(ErrorView::Sqlx(sql), detail) == "Sqlx error: "@ + detail,
        crate::error::error_text(ErrorView::Migration(migration), detail) == "Migration error: "@
            + detail,
        crate::error::error_text(ErrorView::DatabaseClosed, detail) == "Database has been closed"@,
        crate::error::error_text(ErrorView::CannotAttachReadWriteToReader, detail)
            == "Cannot attach database as read-write to a read-only connection"@,
        crate::error::error_text(ErrorView::InvalidSchemaName(name), detail)
            == "Invalid schema name '"@ + name
            + "': must be non-empty, contain only alphanumeric characters and underscores, not start with a digit, be at most 64 bytes long, and not be the reserved name 'main' or 'temp' (case-insensitive)"@,
        crate::error::error_text(ErrorView::DuplicateAttachedDatabase(name), detail)
            == "Database '"@ + name
            + "' appears multiple times in attached database list (would cause deadlock)"@,
        crate::error::error_text(ErrorView::InvalidFunctionName(name), detail)
            == "Invalid function name '"@ + name
            + "': must be non-empty, at most 255 bytes long, and contain no interior NUL byte"@,
        crate::error::error_text(ErrorView::InvalidFunctionArity(arity), detail)
            == "Invalid function arity "@ + crate::text::decimal(arity) + ": must not be negative"@,
        crate::error::error_text(ErrorView::DuplicateFunction { name, arity }, detail)
            == "A function named '"@ + name + "' taking "@ + crate::text::decimal(arity)
            + " argument(s)"@ + " is already registered"@,
        crate::error::error_text(ErrorView::ShadowsBuiltinFunction { name, arity }, detail)
            == "A function named '"@ + name + "' taking "@ + crate::text::decimal(arity)
            + " argument(s)"@
            + " replaces a SQLite built-in function. Choose a name no built-in uses."@,
        crate::error::error_text(ErrorView::ProbeConnectionFailed { name, reason }, detail)
            == "Cannot check whether SQLite accepts a function named '"@ + name
            + "': the probe failed: "@ + reason,
        crate::error::error_text(ErrorView::FunctionRefused { name, arity, reason }, detail)
            == "SQLite refused a function named '"@ + name + "' taking "@ + crate::text::decimal(
            arity,
        ) + " argument(s)"@ + ": "@ + reason,
        crate::error::error_text(ErrorView::DuplicateSchemaName(name), detail) == "Schema name '"@
            + name + "' is used by more than one attached database"@,
{
}

/// The detail of an error from outside the library is what that error's own `to_string`
/// returns.
pub proof fn details_are_the_outside_errors_own(
    io: std::io::Error,
    sql: sqlx::Error,
    migration: sqlx::migrate::MigrateError,
    detail: String,
)
    ensures
        crate::error::own_detail(Error::Io(io), detail)
            <==> vstd::string::to_string_from_display_ensures(&io, detail),
        crate::error::own_detail(Error::Sqlx(sql), detail)
            <==> vstd::string::to_string_from_display_ensures(&sql, detail),
        crate::error::own_detail(Error::Migration(migration), detail)
            <==> vstd::string::to_string_from_display_ensures(&migration, detail),
{
}

/// An outside error converts to the error that carries it.
pub proof fn outside_errors_are_carried(
    io: std::io::Error,
    sql: sqlx::Error,
    migration: sqlx::migrate::MigrateError,
)
    ensures
        <Error as FromSpec<std::io::Error>>::obeys_from_spec(),
        <Error as FromSpec<std::io::Error>>::from_spec(io) == Error::Io(io),
        <Error as FromSpec<sqlx::Error>>::obeys_from_spec(),
        <Error as FromSpec<sqlx::Error>>::from_spec(sql) == Error::Sqlx(sql),
        <Error as FromSpec<sqlx::migrate::MigrateError>>::obeys_from_spec(),
        <Error as FromSpec<sqlx::migrate::MigrateError>>::from_spec(migration)
            == Error::Migration(migration),
{
}

/// The numbers of SQLite's C interface.
pub proof fn what_the_numbers_are()
    ensures
        crate::sqlite::code_ok() == 0,
        crate::sqlite::code_row() == 100,
        crate::sqlite::code_done() == 101,
        crate::sqlite::flag_utf8() == 1,
        crate::sqlite::flag_deterministic() == 2048,
        crate::sqlite::flag_direct_only() == 524288,
        crate::sqlite::flag_innocuous() == 2097152,
        crate::sqlite::open_read_write() == 2,
        crate::sqlite::open_create() == 4,
        crate::sqlite::type_integer() == 1,
        crate::sqlite::type_float() == 2,
        crate::sqlite::type_text() == 3,
        crate::sqlite::type_blob() == 4,
{
}

} // verus!
