//! The values that cross between SQLite and a handler.
//!
//! `R` is the type of a floating-point value, the caller's to choose. A float passes through
//! as it is: nothing here rounds one or looks into it.

use std::borrow::Cow;
use vstd::prelude::*;
use vstd::std_specs::cmp::PartialEqSpec;
use vstd::utf8;

use crate::sqlite;

verus! {

/// An owned value returned from a scalar function, in one of SQLite's five storage classes.
#[derive(Debug)]
pub enum SqlValue<R> {
    /// SQL NULL.
    Null,
    Integer(i64),
    Real(R),
    Text(String),
    Blob(Vec<u8>),
}

/// A borrowed value passed to a scalar function. Text and blobs point into SQLite's own
/// buffers, so a handler reads its arguments without a copy.
#[derive(Debug)]
pub enum SqlValueRef<'a, R> {
    /// SQL NULL.
    Null,
    Integer(i64),
    Real(R),
    Text(Cow<'a, str>),
    Blob(&'a [u8]),
}

/// What a value is, however it is held.
pub enum SqlValueView<R> {
    Null,
    Integer(i64),
    Real(R),
    Text(Seq<char>),
    Blob(Seq<u8>),
}

impl<R> View for SqlValue<R> {
    type V = SqlValueView<R>;

    open spec fn view(&self) -> SqlValueView<R> {
        match *self {
            SqlValue::Null => SqlValueView::Null,
            SqlValue::Integer(value) => SqlValueView::Integer(value),
            SqlValue::Real(value) => SqlValueView::Real(value),
            SqlValue::Text(text) => SqlValueView::Text(text@),
            SqlValue::Blob(bytes) => SqlValueView::Blob(bytes@),
        }
    }
}

impl<'a, R> View for SqlValueRef<'a, R> {
    type V = SqlValueView<R>;

    open spec fn view(&self) -> SqlValueView<R> {
        match *self {
            SqlValueRef::Null => SqlValueView::Null,
            SqlValueRef::Integer(value) => SqlValueView::Integer(value),
            SqlValueRef::Real(value) => SqlValueView::Real(value),
            SqlValueRef::Text(text) => SqlValueView::Text(text@),
            SqlValueRef::Blob(bytes) => SqlValueView::Blob(bytes@),
        }
    }
}

// ---------------------------------------------------------------------------------------
// Reading a value
// ---------------------------------------------------------------------------------------

impl<R> SqlValue<R> {
    /// Whether this value is SQL NULL.
    pub fn is_null(&self) -> (null: bool)
        ensures
            null <==> self@ is Null,
            null <==> *self is Null,
    {
        matches!(self, SqlValue::Null)
    }

    /// This value as an integer, when it holds one.
    pub fn as_integer(&self) -> (integer: Option<i64>)
        ensures
            integer == match self@ {
                SqlValueView::Integer(value) => Some(value),
                _ => None,
            },
            integer == match *self {
                SqlValue::Integer(value) => Some(value),
                _ => None,
            },
    {
        match self {
            SqlValue::Integer(value) => Some(*value),
            _ => None,
        }
    }

    /// This value as a float, when it holds one.
    pub fn as_real(&self) -> (float: Option<R>) where R: Copy
        ensures
            float == match self@ {
                SqlValueView::Real(value) => Some(value),
                _ => None,
            },
            float == match *self {
                SqlValue::Real(value) => Some(value),
                _ => None,
            },
    {
        match self {
            SqlValue::Real(value) => Some(*value),
            _ => None,
        }
    }

    /// This value as a string reference, when it holds text.
    pub fn as_text(&self) -> (text: Option<&str>)
        ensures
            text is Some <==> self@ is Text,
            text matches Some(borrowed) ==> self@ == SqlValueView::<R>::Text(borrowed@),
            match *self {
                SqlValue::Text(held) => text matches Some(borrowed) && borrowed@ == held@,
                _ => text is None,
            },
    {
        match self {
            SqlValue::Text(text) => Some(text.as_str()),
            _ => None,
        }
    }

    /// This value as a blob reference, when it holds one.
    pub fn as_blob(&self) -> (blob: Option<&[u8]>)
        ensures
            blob is Some <==> self@ is Blob,
            blob matches Some(borrowed) ==> self@ == SqlValueView::<R>::Blob(borrowed@),
            match *self {
                SqlValue::Blob(held) => blob matches Some(borrowed) && borrowed@ == held@,
                _ => blob is None,
            },
    {
        match self {
            SqlValue::Blob(bytes) => Some(bytes.as_slice()),
            _ => None,
        }
    }
}

fn owned_text(text: &Cow<'_, str>) -> (owned: String)
    ensures
        owned@ == text@,
{
    match text {
        Cow::Borrowed(borrowed) => (*borrowed).to_owned(),
        Cow::Owned(owned) => owned.clone(),
    }
}

impl<'a, R: Copy> SqlValueRef<'a, R> {
    /// Copy this borrowed value into an owned [`SqlValue`].
    pub fn to_owned(&self) -> (owned: SqlValue<R>)
        ensures
            owned@ == self@,
            match *self {
                SqlValueRef::Null => owned is Null,
                SqlValueRef::Integer(value) => owned == SqlValue::<R>::Integer(value),
                SqlValueRef::Real(value) => owned == SqlValue::Real(value),
                SqlValueRef::Text(text) => owned matches SqlValue::Text(copy) && copy@ == text@,
                SqlValueRef::Blob(bytes) => owned matches SqlValue::Blob(copy) && copy@ == bytes@,
            },
    {
        match self {
            SqlValueRef::Null => SqlValue::Null,
            SqlValueRef::Integer(value) => SqlValue::Integer(*value),
            SqlValueRef::Real(value) => SqlValue::Real(*value),
            SqlValueRef::Text(text) => SqlValue::Text(owned_text(text)),
            SqlValueRef::Blob(bytes) => SqlValue::Blob(vstd::slice::slice_to_vec(*bytes)),
        }
    }
}

impl<R: Copy> Clone for SqlValue<R> {
    fn clone(&self) -> (copy: SqlValue<R>)
        ensures
            copy@ == self@,
            match *self {
                SqlValue::Null => copy is Null,
                SqlValue::Integer(value) => copy == SqlValue::<R>::Integer(value),
                SqlValue::Real(value) => copy == SqlValue::Real(value),
                SqlValue::Text(text) => copy matches SqlValue::Text(held) && held@ == text@,
                SqlValue::Blob(bytes) => copy matches SqlValue::Blob(held) && held@ == bytes@,
            },
    {
        match self {
            SqlValue::Null => SqlValue::Null,
            SqlValue::Integer(value) => SqlValue::Integer(*value),
            SqlValue::Real(value) => SqlValue::Real(*value),
            SqlValue::Text(text) => SqlValue::Text(text.clone()),
            SqlValue::Blob(bytes) => SqlValue::Blob(vstd::slice::slice_to_vec(bytes.as_slice())),
        }
    }
}

impl<'a, R: Copy> Clone for SqlValueRef<'a, R> {
    fn clone(&self) -> (copy: SqlValueRef<'a, R>)
        ensures
            copy@ == self@,
            match *self {
                SqlValueRef::Null => copy is Null,
                SqlValueRef::Integer(value) => copy == SqlValueRef::<R>::Integer(value),
                SqlValueRef::Real(value) => copy == SqlValueRef::Real(value),
                SqlValueRef::Text(text) => copy matches SqlValueRef::Text(held) && held@ == text@,
                SqlValueRef::Blob(bytes) => copy == SqlValueRef::<R>::Blob(bytes),
            },
    {
        match self {
            SqlValueRef::Null => SqlValueRef::Null,
            SqlValueRef::Integer(value) => SqlValueRef::Integer(*value),
            SqlValueRef::Real(value) => SqlValueRef::Real(*value),
            SqlValueRef::Text(Cow::Borrowed(text)) => SqlValueRef::Text(Cow::Borrowed(*text)),
            SqlValueRef::Text(Cow::Owned(text)) => SqlValueRef::Text(Cow::Owned(text.clone())),
            SqlValueRef::Blob(bytes) => SqlValueRef::Blob(*bytes),
        }
    }
}

// ---------------------------------------------------------------------------------------
// Equality
// ---------------------------------------------------------------------------------------

/// Whether `equal` is what comparing two values gives: two floats compare as their type
/// compares them, and any other two values are equal if and only if they are of the same
/// storage class with the same contents.
pub open spec fn compared<R: PartialEq>(
    left: SqlValueView<R>,
    right: SqlValueView<R>,
    equal: bool,
) -> bool {
    match (left, right) {
        (SqlValueView::Real(a), SqlValueView::Real(b)) => call_ensures(R::eq, (&a, &b), equal),
        (SqlValueView::Real(_), _) => !equal,
        (_, SqlValueView::Real(_)) => !equal,
        (a, b) => equal == (a == b),
    }
}

/// Whether two values compare equal, where the type of a float says when two floats do.
pub open spec fn values_equal<R: PartialEq>(
    left: SqlValueView<R>,
    right: SqlValueView<R>,
) -> bool {
    match (left, right) {
        (SqlValueView::Real(a), SqlValueView::Real(b)) => a.eq_spec(&b),
        (SqlValueView::Real(_), _) => false,
        (_, SqlValueView::Real(_)) => false,
        (a, b) => a == b,
    }
}

fn same_bytes(left: &[u8], right: &[u8]) -> (equal: bool)
    ensures
        equal == (left@ == right@),
{
    if left.len() != right.len() {
        return false;
    }
    let mut i: usize = 0;
    while i < left.len()
        invariant
            i <= left@.len(),
            left@.len() == right@.len(),
            forall|j: int| 0 <= j < i ==> left@[j] == right@[j],
        decreases left@.len() - i,
    {
        if left[i] != right[i] {
            return false;
        }
        i = i + 1;
    }
    assert(left@ =~= right@);
    true
}

fn same_text(left: &str, right: &str) -> (equal: bool)
    ensures
        equal == (left@ == right@),
{
    proof {
        utf8::encode_utf8_decode_utf8(left@);
        utf8::encode_utf8_decode_utf8(right@);
    }
    same_bytes(left.as_bytes(), right.as_bytes())
}

fn borrowed_text<'b>(text: &'b Cow<'_, str>) -> (borrowed: &'b str)
    ensures
        borrowed@ == text@,
{
    match text {
        Cow::Borrowed(borrowed) => borrowed,
        Cow::Owned(owned) => owned.as_str(),
    }
}

impl<R: PartialEq> PartialEq for SqlValue<R> {
    fn eq(&self, other: &SqlValue<R>) -> (equal: bool)
        ensures
            compared(self@, other@, equal),
    {
        match (self, other) {
            (SqlValue::Null, SqlValue::Null) => true,
            (SqlValue::Integer(left), SqlValue::Integer(right)) => *left == *right,
            (SqlValue::Real(left), SqlValue::Real(right)) => *left == *right,
            (SqlValue::Text(left), SqlValue::Text(right)) => same_text(
                left.as_str(),
                right.as_str(),
            ),
            (SqlValue::Blob(left), SqlValue::Blob(right)) => same_bytes(
                left.as_slice(),
                right.as_slice(),
            ),
            _ => false,
        }
    }
}

impl<R: PartialEq> vstd::std_specs::cmp::PartialEqSpecImpl for SqlValue<R> {
    open spec fn obeys_eq_spec() -> bool {
        R::obeys_eq_spec()
    }

    open spec fn eq_spec(&self, other: &SqlValue<R>) -> bool {
        values_equal(self@, other@)
    }
}

impl<'a, R: PartialEq> PartialEq for SqlValueRef<'a, R> {
    fn eq(&self, other: &SqlValueRef<'a, R>) -> (equal: bool)
        ensures
            compared(self@, other@, equal),
    {
        match (self, other) {
            (SqlValueRef::Null, SqlValueRef::Null) => true,
            (SqlValueRef::Integer(left), SqlValueRef::Integer(right)) => *left == *right,
            (SqlValueRef::Real(left), SqlValueRef::Real(right)) => *left == *right,
            (SqlValueRef::Text(left), SqlValueRef::Text(right)) => same_text(
                borrowed_text(left),
                borrowed_text(right),
            ),
            (SqlValueRef::Blob(left), SqlValueRef::Blob(right)) => same_bytes(*left, *right),
            _ => false,
        }
    }
}

impl<'a, R: PartialEq> vstd::std_specs::cmp::PartialEqSpecImpl for SqlValueRef<'a, R> {
    open spec fn obeys_eq_spec() -> bool {
        R::obeys_eq_spec()
    }

    open spec fn eq_spec(&self, other: &SqlValueRef<'a, R>) -> bool {
        values_equal(self@, other@)
    }
}

// ---------------------------------------------------------------------------------------
// From SQLite
// ---------------------------------------------------------------------------------------

/// The function of SQLite that reads an argument, by the argument's storage class.
#[derive(Debug, Clone, Copy, PartialEq, Eq, Structural)]
pub enum Accessor {
    /// Read nothing: the argument is NULL.
    Nothing,
    Int64,
    Double,
    /// Read the text pointer, and then its length.
    Text,
    /// Read the blob pointer, and then its length.
    Blob,
}

/// The accessor for a value with this type code. A null pointer, SQL NULL, and a type a
/// later SQLite may add are all read as NULL.
pub open spec fn accessor_of(null_pointer: bool, type_code: i32) -> Accessor {
    if null_pointer {
        Accessor::Nothing
    } else if type_code == sqlite::type_integer() {
        Accessor::Int64
    } else if type_code == sqlite::type_float() {
        Accessor::Double
    } else if type_code == sqlite::type_text() {
        Accessor::Text
    } else if type_code == sqlite::type_blob() {
        Accessor::Blob
    } else {
        Accessor::Nothing
    }
}

/// How an argument is to be read. `type_code` plays no part when the pointer is null.
pub fn accessor(null_pointer: bool, type_code: i32) -> (chosen: Accessor)
    ensures
        chosen == accessor_of(null_pointer, type_code),
{
    if null_pointer {
        Accessor::Nothing
    } else if type_code == sqlite::sqlite_integer() {
        Accessor::Int64
    } else if type_code == sqlite::sqlite_float() {
        Accessor::Double
    } else if type_code == sqlite::sqlite_text() {
        Accessor::Text
    } else if type_code == sqlite::sqlite_blob() {
        Accessor::Blob
    } else {
        Accessor::Nothing
    }
}

/// How many bytes can be read from a text or blob buffer that SQLite reports as `length`
/// bytes long: none from a null pointer or behind a length that is not positive.
pub fn readable_length(null_buffer: bool, length: i32) -> (bytes: usize)
    ensures
        bytes == if null_buffer || length <= 0 {
            0
        } else {
            length as int
        },
{
    if null_buffer || length <= 0 {
        0
    } else {
        length as usize
    }
}

/// What an accessor returned for one argument.
#[derive(Debug)]
pub enum RawValue<'a, R> {
    Nothing,
    Int64(i64),
    Double(R),
    /// The readable bytes of a text buffer.
    Text(&'a [u8]),
    /// The readable bytes of a blob buffer.
    Blob(&'a [u8]),
}

/// What an accessor returned, with buffers as byte sequences.
pub enum RawView<R> {
    Nothing,
    Int64(i64),
    Double(R),
    Text(Seq<u8>),
    Blob(Seq<u8>),
}

impl<'a, R: Copy> Clone for RawValue<'a, R> {
    fn clone(&self) -> (copy: RawValue<'a, R>)
        ensures
            copy == *self,
    {
        *self
    }
}

impl<'a, R: Copy> Copy for RawValue<'a, R> {}

impl<'a, R> View for RawValue<'a, R> {
    type V = RawView<R>;

    open spec fn view(&self) -> RawView<R> {
        match *self {
            RawValue::Nothing => RawView::Nothing,
            RawValue::Int64(value) => RawView::Int64(value),
            RawValue::Double(value) => RawView::Double(value),
            RawValue::Text(bytes) => RawView::Text(bytes@),
            RawValue::Blob(bytes) => RawView::Blob(bytes@),
        }
    }
}

/// The text that `String::from_utf8_lossy` makes of bytes that are not UTF-8.
pub uninterp spec fn lossy_text(bytes: Seq<u8>) -> Seq<char>;

/// The text a byte sequence holds: itself where it is UTF-8, and otherwise what the standard
/// library's lossy decoding makes of it.
pub open spec fn decoded(bytes: Seq<u8>) -> Seq<char> {
    if utf8::valid_utf8(bytes) {
        utf8::decode_utf8(bytes)
    } else {
        lossy_text(bytes)
    }
}

/// Calls `String::from_utf8_lossy`. Trusted to borrow and to decode exactly where the bytes
/// are UTF-8. Where they are not, the text is a function of the bytes alone, is owned, and
/// holds at least one U+FFFD replacement character.
#[verifier::external_body]
fn from_utf8_lossy<'a>(bytes: &'a [u8]) -> (text: Cow<'a, str>)
    ensures
        utf8::valid_utf8(bytes@) ==> text is Borrowed && text@ == utf8::decode_utf8(bytes@),
        !utf8::valid_utf8(bytes@) ==> text is Owned && text@ == lossy_text(bytes@) && text@.contains(
            '\u{FFFD}',
        ),
{
    String::from_utf8_lossy(bytes)
}

/// The value that an accessor's result stands for.
pub open spec fn read<R>(raw: RawView<R>) -> SqlValueView<R> {
    match raw {
        RawView::Nothing => SqlValueView::Null,
        RawView::Int64(value) => SqlValueView::Integer(value),
        RawView::Double(value) => SqlValueView::Real(value),
        RawView::Text(bytes) => SqlValueView::Text(decoded(bytes)),
        RawView::Blob(bytes) => SqlValueView::Blob(bytes),
    }
}

impl<'a, R> SqlValueRef<'a, R> {
    /// Read a SQLite argument as a borrowed value pointing into SQLite's own buffers.
    ///
    /// Text is decoded lossily rather than rejected. A connection is UTF-8, so the decode
    /// borrows rather than allocates.
    pub fn from_raw(raw: RawValue<'a, R>) -> (value: SqlValueRef<'a, R>)
        ensures
            value@ == read(raw@),
            raw is Nothing ==> value is Null,
            raw matches RawValue::Int64(integer) ==> value == SqlValueRef::<R>::Integer(integer),
            raw matches RawValue::Double(float) ==> value == SqlValueRef::Real(float),
            raw matches RawValue::Text(bytes) ==> (value matches SqlValueRef::Text(text) && (
            utf8::valid_utf8(bytes@) ==> utf8::encode_utf8(text@) == bytes@)),
            raw matches RawValue::Text(bytes) ==> (utf8::valid_utf8(bytes@) <==> (value matches
                SqlValueRef::Text(text) && text is Borrowed)),
            raw matches RawValue::Blob(bytes) ==> value == SqlValueRef::<R>::Blob(bytes),
    {
        proof {
            if let RawValue::Text(bytes) = raw {
                if utf8::valid_utf8(bytes@) {
                    utf8::decode_utf8_encode_utf8(bytes@);
                }
            }
        }
        match raw {
            RawValue::Nothing => SqlValueRef::Null,
            RawValue::Int64(value) => SqlValueRef::Integer(value),
            RawValue::Double(value) => SqlValueRef::Real(value),
            RawValue::Text(bytes) => SqlValueRef::Text(from_utf8_lossy(bytes)),
            RawValue::Blob(bytes) => SqlValueRef::Blob(bytes),
        }
    }
}

// ---------------------------------------------------------------------------------------
// To SQLite
// ---------------------------------------------------------------------------------------

/// The call of SQLite that sets the result of a function call.
pub enum ResultCall<R> {
    Null,
    Int64(i64),
    Double(R),
    /// Copy the first `length` bytes of `text`, as text.
    Text { text: String, length: i32 },
    /// Copy the first `length` bytes of `bytes`, as a blob.
    Blob { bytes: Vec<u8>, length: i32 },
    /// Fail the statement: the value is larger than SQLite holds.
    TooBig,
    /// Fail the statement with the first `length` bytes of `message`.
    Error { message: String, length: i32 },
}

/// What SQLite takes from a [`ResultCall`].
pub enum ResultView<R> {
    /// A value, in the form in which an accessor hands one out. SQLite keeps it as it is,
    /// but for a NaN, which it keeps as NULL.
    Value(RawView<R>),
    TooBig,
    /// The UTF-8 bytes of an error message.
    Error(Seq<u8>),
}

impl<R> View for ResultCall<R> {
    type V = ResultView<R>;

    open spec fn view(&self) -> ResultView<R> {
        match *self {
            ResultCall::Null => ResultView::Value(RawView::Nothing),
            ResultCall::Int64(value) => ResultView::Value(RawView::Int64(value)),
            ResultCall::Double(value) => ResultView::Value(RawView::Double(value)),
            ResultCall::Text { text, length } => ResultView::Value(
                RawView::Text(utf8::encode_utf8(text@).take(length as int)),
            ),
            ResultCall::Blob { bytes, length } => ResultView::Value(
                RawView::Blob(bytes@.take(length as int)),
            ),
            ResultCall::TooBig => ResultView::TooBig,
            ResultCall::Error { message, length } => ResultView::Error(
                utf8::encode_utf8(message@).take(length as int),
            ),
        }
    }
}

impl<R> ResultCall<R> {
    /// Whether every length is one SQLite can be handed: not negative, and no longer than
    /// the buffer it goes with.
    pub open spec fn in_bounds(self) -> bool {
        match self {
            ResultCall::Text { text, length } => 0 <= length <= utf8::encode_utf8(text@).len(),
            ResultCall::Blob { bytes, length } => 0 <= length <= bytes@.len(),
            ResultCall::Error { message, length } => 0 <= length <= utf8::encode_utf8(
                message@,
            ).len(),
            _ => true,
        }
    }
}

/// What a value becomes as the result of a function call. Text or a blob whose length does
/// not fit a C `int` is more than SQLite holds.
pub open spec fn written<R>(value: SqlValueView<R>) -> ResultView<R> {
    match value {
        SqlValueView::Null => ResultView::Value(RawView::Nothing),
        SqlValueView::Integer(value) => ResultView::Value(RawView::Int64(value)),
        SqlValueView::Real(value) => ResultView::Value(RawView::Double(value)),
        SqlValueView::Text(text) => if utf8::encode_utf8(text).len() <= i32::MAX {
            ResultView::Value(RawView::Text(utf8::encode_utf8(text)))
        } else {
            ResultView::TooBig
        },
        SqlValueView::Blob(bytes) => if bytes.len() <= i32::MAX {
            ResultView::Value(RawView::Blob(bytes))
        } else {
            ResultView::TooBig
        },
    }
}

impl<R> SqlValue<R> {
    /// The call that sets this value as the result of the function call in progress.
    pub fn write_to(self) -> (call: ResultCall<R>)
        ensures
            call@ == written(self@),
            call.in_bounds(),
            self is Null ==> call is Null,
            self matches SqlValue::Integer(integer) ==> call == ResultCall::<R>::Int64(integer),
            self matches SqlValue::Real(float) ==> call == ResultCall::Double(float),
            self matches SqlValue::Text(text) ==> call == if utf8::encode_utf8(text@).len()
                <= 0x7fff_ffff {
                ResultCall::<R>::Text { text, length: utf8::encode_utf8(text@).len() as i32 }
            } else {
                ResultCall::<R>::TooBig
            },
            self matches SqlValue::Blob(bytes) ==> call == if bytes@.len() <= 0x7fff_ffff {
                ResultCall::<R>::Blob { bytes, length: bytes@.len() as i32 }
            } else {
                ResultCall::<R>::TooBig
            },
    {
        match self {
            SqlValue::Null => ResultCall::Null,
            SqlValue::Integer(value) => ResultCall::Int64(value),
            SqlValue::Real(value) => ResultCall::Double(value),
            SqlValue::Text(text) => match i32::try_from(text.as_str().as_bytes().len()) {
                Ok(length) => {
                    assert(utf8::encode_utf8(text@).take(length as int) =~= utf8::encode_utf8(
                        text@,
                    ));
                    ResultCall::Text { text, length }
                },
                Err(_) => ResultCall::TooBig,
            },
            SqlValue::Blob(bytes) => match i32::try_from(bytes.len()) {
                Ok(length) => {
                    assert(bytes@.take(length as int) =~= bytes@);
                    ResultCall::Blob { bytes, length }
                },
                Err(_) => ResultCall::TooBig,
            },
        }
    }
}

/// What an error message becomes: its bytes, cut where their number stops fitting a C `int`.
pub open spec fn written_error<R>(message: Seq<char>) -> ResultView<R> {
    let bytes = utf8::encode_utf8(message);
    ResultView::Error(
        if bytes.len() <= i32::MAX {
            bytes
        } else {
            bytes.take(i32::MAX as int)
        },
    )
}

/// The call that reports `message` as the error of the function call in progress.
pub fn result_error<R>(message: String) -> (call: ResultCall<R>)
    ensures
        call@ == written_error::<R>(message@),
        call.in_bounds(),
        call == (ResultCall::<R>::Error {
            message,
            length: if utf8::encode_utf8(message@).len() <= 0x7fff_ffff {
                utf8::encode_utf8(message@).len() as i32
            } else {
                0x7fff_ffff
            },
        }),
{
    let length: i32 = match i32::try_from(message.as_str().as_bytes().len()) {
        Ok(length) => length,
        Err(_) => i32::MAX,
    };
    proof {
        let bytes = utf8::encode_utf8(message@);
        assert(bytes.len() <= i32::MAX ==> bytes.take(length as int) =~= bytes);
    }
    ResultCall::Error { message, length }
}

/// Every storage class survives the way through SQLite: a value that is handed over as a
/// result, that SQLite keeps as it was given, and that is read again as an argument is the
/// same value. NULL stays NULL. SQLite keeps every result as it was given but one: it keeps a
/// NaN as NULL.
pub proof fn values_round_trip<R>(
    value: SqlValueView<R>,
    given: RawView<R>,
    kept: RawView<R>,
)
    requires
        written(value) == ResultView::Value(given),
        kept == given,
    ensures
        read(kept) == value,
{
    if let SqlValueView::Text(text) = value {
        utf8::encode_utf8_valid_utf8(text);
        utf8::encode_utf8_decode_utf8(text);
    }
}

/// A value fails the statement as too big exactly when it is text or a blob of more bytes
/// than a C `int` counts.
pub proof fn only_oversized_values_are_too_big<R>(value: SqlValueView<R>)
    ensures
        written(value) is TooBig <==> match value {
            SqlValueView::Text(text) => utf8::encode_utf8(text).len() > i32::MAX,
            SqlValueView::Blob(bytes) => bytes.len() > i32::MAX,
            _ => false,
        },
        !(written(value) is Error),
{
}

/// A buffer with nothing to read is an empty value of its class, not NULL.
pub proof fn an_empty_buffer_is_an_empty_value<R>()
    ensures
        read(RawView::<R>::Text(Seq::empty())) == SqlValueView::<R>::Text(Seq::empty()),
        read(RawView::<R>::Blob(Seq::empty())) == SqlValueView::<R>::Blob(Seq::empty()),
{
    let nothing = Seq::<char>::empty();
    utf8::encode_utf8_valid_utf8(nothing);
    utf8::encode_utf8_decode_utf8(nothing);
    assert(utf8::encode_utf8(nothing) =~= Seq::<u8>::empty());
}

} // verus!
