//! Scalar functions: what a caller asks to register, and what the library keeps of it.

use vstd::prelude::*;
use vstd::utf8;

use crate::error::{Error, ErrorView};
use crate::sqlite;

verus! {

/// SQLite's own limit on the length of a function name, in bytes.
pub const MAX_NAME_BYTES: usize = 255;

/// Where SQLite accepts a call to a registered function.
///
/// A function a schema object can call runs whenever anything reads through that object,
/// including an object in a database file the application did not write. Pick
/// [`InvocationScope::DirectOnly`] unless the function has a reason to appear in a view, a
/// trigger, or an index.
#[derive(Debug, Clone, Copy, PartialEq, Eq, Structural)]
pub enum InvocationScope {
    /// Top-level SQL only. SQLite refuses a call from inside a schema object.
    DirectOnly,
    /// Schema objects as well, on a connection that trusts the schema.
    Schema,
    /// Schema objects as well, on every connection. This promises SQLite that the handler
    /// reads nothing but its arguments and changes nothing but its result.
    InnocuousSchema,
}

impl Default for InvocationScope {
    fn default() -> (scope: InvocationScope)
        ensures
            scope == InvocationScope::DirectOnly,
    {
        InvocationScope::DirectOnly
    }
}

/// A scalar SQL function to register on every connection. `H` is the handler that computes
/// its result.
pub struct ScalarFunction<H> {
    /// The SQL identifier: at most 255 bytes, with no NUL byte. SQLite resolves it without
    /// regard to ASCII case.
    pub name: String,
    /// The exact number of arguments the function takes. Two registrations can share a name
    /// when their arities differ.
    pub arity: i32,
    /// Whether SQLite can treat the result as stable for the same inputs.
    pub deterministic: bool,
    /// Where SQLite accepts a call to this function.
    pub invocation_scope: InvocationScope,
    /// What computes the result.
    pub handler: H,
}

// ---------------------------------------------------------------------------------------
// Names
// ---------------------------------------------------------------------------------------

/// Whether `name` can name a function: its UTF-8 form is neither empty nor longer than
/// SQLite allows, and holds no NUL byte.
pub open spec fn valid_name(name: Seq<char>) -> bool {
    &&& 0 < utf8::encode_utf8(name).len() <= MAX_NAME_BYTES
    &&& !utf8::encode_utf8(name).contains(0u8)
}

/// `name` as C reads it: its UTF-8 form and a closing NUL byte.
pub open spec fn c_string(name: Seq<char>) -> Seq<u8> {
    utf8::encode_utf8(name).push(0u8)
}

/// Check a function name and convert it to the NUL-terminated form SQLite needs.
pub fn validate_name(name: &str) -> (checked: Result<Vec<u8>, Error>)
    ensures
        match checked {
            Ok(c_name) => valid_name(name@) && c_name@ == c_string(name@),
            Err(error) => !valid_name(name@) && error@ == ErrorView::InvalidFunctionName(name@),
        },
        checked matches Ok(c_name) ==> {
            &&& 2 <= c_name@.len() <= 256
            &&& c_name@.drop_last() == utf8::encode_utf8(name@)
            &&& forall|i: int| 0 <= i < c_name@.len() ==> (#[trigger] c_name@[i] == 0 <==> i
                == c_name@.len() - 1)
        },
        checked matches Err(error) ==> {
            let bytes = utf8::encode_utf8(name@);
            &&& error matches Error::InvalidFunctionName(refused) && refused@ == name@
            &&& bytes.len() == 0 || bytes.len() > 255 || bytes.contains(0u8)
        },
{
    let bytes = name.as_bytes();

    if bytes.len() == 0 || bytes.len() > MAX_NAME_BYTES {
        return Err(Error::InvalidFunctionName(name.to_owned()));
    }
    let mut c_name: Vec<u8> = Vec::new();
    let mut i: usize = 0;
    while i < bytes.len()
        invariant
            i <= bytes@.len(),
            bytes@ == utf8::encode_utf8(name@),
            c_name@ == bytes@.take(i as int),
            forall|j: int| 0 <= j < i ==> bytes@[j] != 0u8,
        decreases bytes@.len() - i,
    {
        if bytes[i] == 0 {
            assert(bytes@.contains(0u8));
            return Err(Error::InvalidFunctionName(name.to_owned()));
        }
        c_name.push(bytes[i]);
        assert(c_name@ =~= bytes@.take(i + 1));
        i = i + 1;
    }
    assert(bytes@.take(i as int) =~= bytes@);
    c_name.push(0);
    assert(c_name@.drop_last() =~= bytes@);
    Ok(c_name)
}

/// The NUL byte that ends the C form of a valid name is the only one in it, so C reads back
/// exactly the bytes of the name.
pub proof fn c_string_ends_at_its_only_nul(name: Seq<char>, i: int)
    requires
        valid_name(name),
        0 <= i < c_string(name).len(),
    ensures
        c_string(name)[i] == 0u8 <==> i == c_string(name).len() - 1,
        c_string(name).drop_last() == utf8::encode_utf8(name),
{
    assert(c_string(name).drop_last() =~= utf8::encode_utf8(name));
    if i < c_string(name).len() - 1 {
        assert(utf8::encode_utf8(name).contains(utf8::encode_utf8(name)[i]));
    }
}

// ---------------------------------------------------------------------------------------
// Flags
// ---------------------------------------------------------------------------------------

/// The flags SQLite takes for a function of this scope and determinism.
pub open spec fn flags_of(scope: InvocationScope, deterministic: bool) -> i32 {
    let scoped = match scope {
        InvocationScope::DirectOnly => sqlite::flag_utf8() | sqlite::flag_direct_only(),
        InvocationScope::Schema => sqlite::flag_utf8(),
        InvocationScope::InnocuousSchema => sqlite::flag_utf8() | sqlite::flag_innocuous(),
    };
    if deterministic {
        scoped | sqlite::flag_deterministic()
    } else {
        scoped
    }
}

/// The flags to register a function with.
pub fn function_flags(scope: InvocationScope, deterministic: bool) -> (flags: i32)
    ensures
        flags == flags_of(scope, deterministic),
        flags & 0x80000 != 0 <==> scope == InvocationScope::DirectOnly,
        flags & 0x200000 != 0 <==> scope == InvocationScope::InnocuousSchema,
        flags & 0x800 != 0 <==> deterministic,
        flags & 1 != 0,
{
    proof {
        flags_say_what_was_asked(scope, deterministic);
    }
    let mut flags: i32 = sqlite::sqlite_utf8();
    match scope {
        InvocationScope::DirectOnly => {
            flags = flags | sqlite::sqlite_direct_only();
        },
        InvocationScope::Schema => {},
        InvocationScope::InnocuousSchema => {
            flags = flags | sqlite::sqlite_innocuous();
        },
    }
    if deterministic {
        flags = flags | sqlite::sqlite_deterministic();
    }
    flags
}

/// What SQLite reads from a function's flags is what the caller asked for: the text is
/// always UTF-8, each of the other three flags is set for exactly the functions it belongs
/// to, and no other flag is ever set.
pub proof fn flags_say_what_was_asked(scope: InvocationScope, deterministic: bool)
    ensures
        flags_of(scope, deterministic) & sqlite::flag_utf8() != 0,
        flags_of(scope, deterministic) & sqlite::flag_direct_only() != 0 <==> scope
            == InvocationScope::DirectOnly,
        flags_of(scope, deterministic) & sqlite::flag_innocuous() != 0 <==> scope
            == InvocationScope::InnocuousSchema,
        flags_of(scope, deterministic) & sqlite::flag_deterministic() != 0 <==> deterministic,
        flags_of(scope, deterministic) & !(sqlite::flag_utf8() | sqlite::flag_direct_only()
            | sqlite::flag_innocuous() | sqlite::flag_deterministic()) == 0,
{
    assert({
        let utf8 = 1i32;
        let direct = 0x80000i32;
        let innocuous = 0x200000i32;
        let det = 0x800i32;
        let all = utf8 | direct | innocuous | det;
        let f = utf8;
        &&& f & utf8 != 0 && f & direct == 0 && f & innocuous == 0 && f & det == 0 && f & !all == 0
        &&& {
            let f = utf8 | det;
            f & utf8 != 0 && f & direct == 0 && f & innocuous == 0 && f & det != 0 && f & !all == 0
        }
        &&& {
            let f = utf8 | direct;
            f & utf8 != 0 && f & direct != 0 && f & innocuous == 0 && f & det == 0 && f & !all == 0
        }
        &&& {
            let f = utf8 | direct | det;
            f & utf8 != 0 && f & direct != 0 && f & innocuous == 0 && f & det != 0 && f & !all == 0
        }
        &&& {
            let f = utf8 | innocuous;
            f & utf8 != 0 && f & direct == 0 && f & innocuous != 0 && f & det == 0 && f & !all == 0
        }
        &&& {
            let f = utf8 | innocuous | det;
            f & utf8 != 0 && f & direct == 0 && f & innocuous != 0 && f & det != 0 && f & !all == 0
        }
    }) by (bit_vector);
}

// ---------------------------------------------------------------------------------------
// Registrations
// ---------------------------------------------------------------------------------------

/// What a registration means: a name, an argument count, the flags SQLite gets, and the
/// handler that answers a call.
pub struct FunctionEntry<H> {
    pub name: Seq<char>,
    pub arity: int,
    pub flags: i32,
    pub handler: H,
}

impl<H> FunctionEntry<H> {
    /// Whether SQLite accepts the parts of this entry in form: a valid name, an exact
    /// argument count, and flags that some scope and determinism give.
    pub open spec fn valid(self) -> bool {
        &&& valid_name(self.name)
        &&& 0 <= self.arity <= i32::MAX
        &&& exists|scope: InvocationScope, deterministic: bool|
            self.flags == #[trigger] flags_of(scope, deterministic)
    }

    /// Whether a call of `name` with `arity` arguments resolves to this entry.
    pub open spec fn answers(self, name: Seq<char>, arity: int) -> bool {
        self.arity == arity && crate::text::same_name(self.name, name)
    }
}

/// The entry a caller's function becomes once it is registered.
pub open spec fn entry_of<H>(function: ScalarFunction<H>) -> FunctionEntry<H> {
    FunctionEntry {
        name: function.name@,
        arity: function.arity as int,
        flags: flags_of(function.invocation_scope, function.deterministic),
        handler: function.handler,
    }
}

/// Why a function cannot be registered, whatever else is registered: its name is checked
/// first, then its argument count.
pub open spec fn malformation<H>(function: ScalarFunction<H>) -> Option<ErrorView> {
    if !valid_name(function.name@) {
        Some(ErrorView::InvalidFunctionName(function.name@))
    } else if function.arity < 0 {
        Some(ErrorView::InvalidFunctionArity(function.arity as int))
    } else {
        None
    }
}

/// One registered function, with everything SQLite needs precomputed.
pub struct Registration<H> {
    /// Kept beside `c_name` for the duplicate check and for error messages.
    name: String,
    c_name: Vec<u8>,
    arity: i32,
    flags: i32,
    handler: H,
}

/// What SQLite is handed to create a function on a connection.
pub struct CreateCall<'r> {
    /// The name, NUL-terminated.
    pub c_name: &'r [u8],
    pub arity: i32,
    pub flags: i32,
}

impl<H> View for Registration<H> {
    type V = FunctionEntry<H>;

    closed spec fn view(&self) -> FunctionEntry<H> {
        FunctionEntry {
            name: self.name@,
            arity: self.arity as int,
            flags: self.flags,
            handler: self.handler,
        }
    }
}

impl<H> Registration<H> {
    /// The invariant of a registration: a valid entry, and a C name that spells its name.
    pub closed spec fn wf(&self) -> bool {
        &&& self@.valid()
        &&& self.c_name@ == c_string(self.name@)
    }

    /// What the invariant says of the entry.
    pub proof fn lemma_wf(&self)
        requires
            self.wf(),
        ensures
            self@.valid(),
    {
    }

    /// Check a function in form and precompute what SQLite needs of it.
    pub fn new(function: ScalarFunction<H>) -> (made: Result<Registration<H>, Error>)
        ensures
            match made {
                Ok(registration) => {
                    &&& malformation(function) is None
                    &&& registration.wf()
                    &&& registration@ == entry_of(function)
                    &&& registration@.name == function.name@
                    &&& registration@.arity == function.arity
                    &&& registration@.handler == function.handler
                    &&& registration@.flags & 0x80000 != 0 <==> function.invocation_scope
                        == InvocationScope::DirectOnly
                    &&& registration@.flags & 0x200000 != 0 <==> function.invocation_scope
                        == InvocationScope::InnocuousSchema
                    &&& registration@.flags & 0x800 != 0 <==> function.deterministic
                    &&& registration@.flags & 1 != 0
                },
                Err(error) => malformation(function) == Some(error@),
            },
    {
        let ScalarFunction { name, arity, deterministic, invocation_scope, handler } = function;

        let c_name = match validate_name(name.as_str()) {
            Ok(c_name) => c_name,
            Err(error) => {
                return Err(error);
            },
        };
        if arity < 0 {
            return Err(Error::InvalidFunctionArity(arity));
        }
        let flags = function_flags(invocation_scope, deterministic);
        proof {
            flags_say_what_was_asked(invocation_scope, deterministic);
        }
        Ok(Registration { name, c_name, arity, flags, handler })
    }

    /// The name, as the caller wrote it.
    pub fn name(&self) -> (name: &str)
        ensures
            name@ == self@.name,
    {
        self.name.as_str()
    }

    /// The exact number of arguments.
    pub fn arity(&self) -> (arity: i32)
        ensures
            arity == self@.arity,
    {
        self.arity
    }

    /// The flags SQLite gets.
    pub fn flags(&self) -> (flags: i32)
        ensures
            flags == self@.flags,
    {
        self.flags
    }

    /// The handler that answers a call.
    pub fn handler(&self) -> (handler: &H)
        ensures
            *handler == self@.handler,
    {
        &self.handler
    }

    /// The name, NUL-terminated.
    pub fn c_name(&self) -> (c_name: &[u8])
        requires
            self.wf(),
        ensures
            c_name@ == c_string(self@.name),
    {
        self.c_name.as_slice()
    }

    /// What SQLite is handed to create this function on a connection.
    pub fn create_call(&self) -> (call: CreateCall<'_>)
        requires
            self.wf(),
        ensures
            call.c_name@ == c_string(self@.name),
            call.arity == self@.arity,
            call.flags == self@.flags,
    {
        CreateCall { c_name: self.c_name.as_slice(), arity: self.arity, flags: self.flags }
    }
}

} // verus!
