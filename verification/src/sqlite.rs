//! The numbers of SQLite's C interface that this library decides by.
//!
//! Each number has a spec function, which contracts speak of, and a function that reads it
//! from the `libsqlite3_sys` bindings.

use vstd::prelude::*;

verus! {

// ---------------------------------------------------------------------------------------
// Result codes
// ---------------------------------------------------------------------------------------

/// The result code of a call that succeeded.
pub open spec fn code_ok() -> i32 {
    0
}

/// The result code of a step that produced a row.
pub open spec fn code_row() -> i32 {
    100
}

/// The result code of a step that ran to completion.
pub open spec fn code_done() -> i32 {
    101
}

/// Reads `libsqlite3_sys::SQLITE_OK`, trusted to be 0.
#[verifier::external_body]
pub(crate) fn sqlite_ok() -> (code: i32)
    ensures
        code == code_ok(),
{
    libsqlite3_sys::SQLITE_OK
}

/// Reads `libsqlite3_sys::SQLITE_ROW`, trusted to be 100.
#[verifier::external_body]
pub(crate) fn sqlite_row() -> (code: i32)
    ensures
        code == code_row(),
{
    libsqlite3_sys::SQLITE_ROW
}

/// Reads `libsqlite3_sys::SQLITE_DONE`, trusted to be 101.
#[verifier::external_body]
pub(crate) fn sqlite_done() -> (code: i32)
    ensures
        code == code_done(),
{
    libsqlite3_sys::SQLITE_DONE
}

// ---------------------------------------------------------------------------------------
// Function flags
// ---------------------------------------------------------------------------------------

/// The flag for a function that takes and returns UTF-8 text.
pub open spec fn flag_utf8() -> i32 {
    1
}

/// The flag for a function whose result depends on its arguments alone.
pub open spec fn flag_deterministic() -> i32 {
    0x800
}

/// The flag that confines a function to top-level SQL.
pub open spec fn flag_direct_only() -> i32 {
    0x80000
}

/// The flag for a function that is harmless wherever it is called from.
pub open spec fn flag_innocuous() -> i32 {
    0x200000
}

/// Reads `libsqlite3_sys::SQLITE_UTF8`, trusted to be 1.
#[verifier::external_body]
pub(crate) fn sqlite_utf8() -> (flag: i32)
    ensures
        flag == flag_utf8(),
{
    libsqlite3_sys::SQLITE_UTF8
}

/// Reads `libsqlite3_sys::SQLITE_DETERMINISTIC`, trusted to be 2048.
#[verifier::external_body]
pub(crate) fn sqlite_deterministic() -> (flag: i32)
    ensures
        flag == flag_deterministic(),
{
    libsqlite3_sys::SQLITE_DETERMINISTIC
}

/// Reads `libsqlite3_sys::SQLITE_DIRECTONLY`, trusted to be 524288.
#[verifier::external_body]
pub(crate) fn sqlite_direct_only() -> (flag: i32)
    ensures
        flag == flag_direct_only(),
{
    libsqlite3_sys::SQLITE_DIRECTONLY
}

/// Reads `libsqlite3_sys::SQLITE_INNOCUOUS`, trusted to be 2097152.
#[verifier::external_body]
pub(crate) fn sqlite_innocuous() -> (flag: i32)
    ensures
        flag == flag_innocuous(),
{
    libsqlite3_sys::SQLITE_INNOCUOUS
}

// ---------------------------------------------------------------------------------------
// Open flags
// ---------------------------------------------------------------------------------------

/// The flag that opens a connection for reading and writing.
pub open spec fn open_read_write() -> i32 {
    2
}

/// The flag that creates a database that does not exist yet.
pub open spec fn open_create() -> i32 {
    4
}

/// Reads `libsqlite3_sys::SQLITE_OPEN_READWRITE`, trusted to be 2.
#[verifier::external_body]
pub(crate) fn sqlite_open_read_write() -> (flag: i32)
    ensures
        flag == open_read_write(),
{
    libsqlite3_sys::SQLITE_OPEN_READWRITE
}

/// Reads `libsqlite3_sys::SQLITE_OPEN_CREATE`, trusted to be 4.
#[verifier::external_body]
pub(crate) fn sqlite_open_create() -> (flag: i32)
    ensures
        flag == open_create(),
{
    libsqlite3_sys::SQLITE_OPEN_CREATE
}

// ---------------------------------------------------------------------------------------
// Storage classes
// ---------------------------------------------------------------------------------------

/// The type code of an integer value.
pub open spec fn type_integer() -> i32 {
    1
}

/// The type code of a floating-point value.
pub open spec fn type_float() -> i32 {
    2
}

/// The type code of a text value.
pub open spec fn type_text() -> i32 {
    3
}

/// The type code of a blob value.
pub open spec fn type_blob() -> i32 {
    4
}

/// Reads `libsqlite3_sys::SQLITE_INTEGER`, trusted to be 1.
#[verifier::external_body]
pub(crate) fn sqlite_integer() -> (code: i32)
    ensures
        code == type_integer(),
{
    libsqlite3_sys::SQLITE_INTEGER
}

/// Reads `libsqlite3_sys::SQLITE_FLOAT`, trusted to be 2.
#[verifier::external_body]
pub(crate) fn sqlite_float() -> (code: i32)
    ensures
        code == type_float(),
{
    libsqlite3_sys::SQLITE_FLOAT
}

/// Reads `libsqlite3_sys::SQLITE_TEXT`, trusted to be 3.
#[verifier::external_body]
pub(crate) fn sqlite_text() -> (code: i32)
    ensures
        code == type_text(),
{
    libsqlite3_sys::SQLITE_TEXT
}

/// Reads `libsqlite3_sys::SQLITE_BLOB`, trusted to be 4.
#[verifier::external_body]
pub(crate) fn sqlite_blob() -> (code: i32)
    ensures
        code == type_blob(),
{
    libsqlite3_sys::SQLITE_BLOB
}

} // verus!
