//! Answering a call: from the arguments SQLite passes to the result it gets.

use vstd::prelude::*;

use crate::function::Registration;
use crate::value::{RawValue, ResultCall, ResultView, SqlValue, SqlValueRef};

verus! {

/// `String::from` on a string slice, trusted to keep the text.
pub assume_specification<'a, 'b>[ <String as From<&'a str>>::from ](slice: &'b str) -> (owned: String)
    ensures
        owned@ == slice@,
;

/// `From::from` from a type to itself, trusted to return its argument unchanged.
pub assume_specification<T>[ <T as From<T>>::from ](given: T) -> (same: T)
    ensures
        same == given,
;

/// A scalar function's failure. The message becomes the SQLite error for the statement that
/// called the function.
#[derive(Debug)]
pub struct FunctionError {
    message: String,
}

impl View for FunctionError {
    type V = Seq<char>;

    closed spec fn view(&self) -> Seq<char> {
        self.message@
    }
}

impl FunctionError {
    /// Build an error from `message`.
    pub fn new<M: Into<String>>(message: M) -> (error: FunctionError)
        ensures
            exists|text: String| #[trigger]
                call_ensures(<M as Into<String>>::into, (message,), text) && error@ == text@,
    {
        FunctionError { message: message.into() }
    }

    /// The message this error reports to the caller.
    pub fn message(&self) -> (message: &str)
        ensures
            message@ == self@,
    {
        self.message.as_str()
    }
}

impl Clone for FunctionError {
    fn clone(&self) -> (copy: FunctionError)
        ensures
            copy == *self,
    {
        FunctionError { message: self.message.clone() }
    }
}

impl PartialEq for FunctionError {
    fn eq(&self, other: &FunctionError) -> (equal: bool)
        ensures
            equal <==> self@ == other@,
    {
        self.message == other.message
    }
}

impl vstd::std_specs::cmp::PartialEqSpecImpl for FunctionError {
    open spec fn obeys_eq_spec() -> bool {
        true
    }

    open spec fn eq_spec(&self, other: &FunctionError) -> bool {
        self@ == other@
    }
}

impl Eq for FunctionError {}

/// How many arguments to read for a call with `argc` arguments, or nothing when the call
/// carries no function or no argument vector and is left unanswered.
pub fn arguments_to_read(null_function: bool, null_vector: bool, argc: i32) -> (count: Option<
    usize,
>)
    ensures
        match count {
            None => null_function || null_vector,
            Some(count) => !null_function && !null_vector && count == if argc < 0 {
                0
            } else {
                argc as int
            },
        },
{
    if null_function || null_vector {
        None
    } else if argc < 0 {
        Some(0)
    } else {
        Some(argc as usize)
    }
}

/// Whether `args` are the values that `raw` stands for, in the same order.
pub open spec fn arguments_of<R>(raw: Seq<RawValue<'_, R>>, args: Seq<SqlValueRef<'_, R>>) -> bool {
    &&& args.len() == raw.len()
    &&& forall|i: int| 0 <= i < raw.len() ==> (#[trigger] args[i])@ == crate::value::read(raw[i]@)
}

/// Convert what the accessors returned into the arguments of a handler, in order.
pub fn arguments<'a, R: Copy>(raw: &[RawValue<'a, R>]) -> (args: Vec<SqlValueRef<'a, R>>)
    ensures
        arguments_of(raw@, args@),
{
    let mut args: Vec<SqlValueRef<'a, R>> = Vec::new();
    let mut i: usize = 0;
    while i < raw.len()
        invariant
            i <= raw@.len(),
            arguments_of(raw@.take(i as int), args@),
        decreases raw@.len() - i,
    {
        args.push(SqlValueRef::from_raw(raw[i]));
        i = i + 1;
    }
    assert(raw@.take(i as int) =~= raw@);
    args
}

/// What came of running a handler.
pub enum HandlerOutcome<R> {
    Returned(Result<SqlValue<R>, FunctionError>),
    Panicked,
}

/// What SQLite gets as the answer of the function `name`: the value the handler returned, the
/// message it failed with, or, if it panicked, a message that names the function.
pub open spec fn answer<R>(name: Seq<char>, outcome: HandlerOutcome<R>) -> ResultView<R> {
    match outcome {
        HandlerOutcome::Returned(Ok(value)) => crate::value::written(value@),
        HandlerOutcome::Returned(Err(error)) => crate::value::written_error(error@),
        HandlerOutcome::Panicked => crate::value::written_error(name + ": handler panicked"@),
    }
}

/// The failure to report for the function `name` when its handler panicked.
fn panic_error(name: &str) -> (error: FunctionError)
    ensures
        error@ == name@ + ": handler panicked"@,
{
    let mut message = String::from(name);
    message.append(": handler panicked");
    FunctionError::new(message)
}

/// Run a handler on the arguments of one call. It runs once: it is given away to be called.
pub fn invoke<R: Copy, F: for<'v> FnOnce(&[SqlValueRef<'v, R>]) -> Result<SqlValue<R>, FunctionError>>(
    handler: F,
    raw: &[RawValue<'_, R>],
) -> (result: Result<SqlValue<R>, FunctionError>)
    requires
        forall|args: &[SqlValueRef<'_, R>]|
            arguments_of(raw@, args@) ==> #[trigger] call_requires(handler, (args,)),
    ensures
        exists|args: &[SqlValueRef<'_, R>]|
            {
                &&& arguments_of(raw@, args@)
                &&& #[trigger] call_ensures(handler, (args,), result)
            },
{
    let values = arguments(raw);
    let args = values.as_slice();
    assert(call_requires(handler, (args,)));
    handler(args)
}

impl<H> Registration<H> {
    /// The call that gives SQLite the answer to the function call in progress.
    pub fn finish<R>(&self, outcome: HandlerOutcome<R>) -> (call: ResultCall<R>)
        ensures
            call@ == answer(self@.name, outcome),
            call.in_bounds(),
    {
        match outcome {
            HandlerOutcome::Returned(Ok(value)) => value.write_to(),
            HandlerOutcome::Returned(Err(error)) => crate::value::result_error(
                error.message().to_owned(),
            ),
            HandlerOutcome::Panicked => crate::value::result_error(
                panic_error(self.name()).message().to_owned(),
            ),
        }
    }
}

/// SQLite is given a value only if the handler returned that value: what it is given reads as
/// what the handler returned, and a handler that failed or panicked always fails the
/// statement.
pub proof fn only_a_returned_value_answers<R>(name: Seq<char>, outcome: HandlerOutcome<R>)
    ensures
        match answer(name, outcome) {
            ResultView::Value(given) => {
                &&& outcome matches HandlerOutcome::Returned(Ok(value))
                &&& crate::value::read(given) == value@
            },
            ResultView::TooBig => outcome is Returned && outcome->Returned_0 is Ok,
            ResultView::Error(_) => outcome is Panicked || outcome->Returned_0 is Err,
        },
{
    if let HandlerOutcome::Returned(Ok(value)) = outcome {
        crate::value::only_oversized_values_are_too_big(value@);
        if let ResultView::Value(given) = answer(name, outcome) {
            crate::value::values_round_trip(value@, given, given);
        }
    }
}

} // verus!
