//! Text building blocks: decimal numerals, result-code descriptions, and the ASCII case
//! folding under which SQLite compares function names.

use vstd::prelude::*;
use vstd::utf8;

verus! {

// ---------------------------------------------------------------------------------------
// Names
// ---------------------------------------------------------------------------------------

/// `byte`, with an ASCII capital letter replaced by its small letter.
pub open spec fn fold_byte(byte: u8) -> u8 {
    if 65 <= byte <= 90 {
        (byte + 32) as u8
    } else {
        byte
    }
}

/// The bytes of `name` as SQLite compares them: UTF-8, with ASCII letters folded to small
/// letters and every other byte as it stands.
pub open spec fn folded(name: Seq<char>) -> Seq<u8> {
    utf8::encode_utf8(name).map_values(|byte: u8| fold_byte(byte))
}

/// Whether SQLite reads `left` and `right` as one function name.
pub open spec fn same_name(left: Seq<char>, right: Seq<char>) -> bool {
    folded(left) == folded(right)
}

fn fold(byte: u8) -> (folded: u8)
    ensures
        folded == fold_byte(byte),
{
    if 65 <= byte && byte <= 90 {
        byte + 32
    } else {
        byte
    }
}

/// Whether two names are equal once ASCII case is ignored.
pub fn eq_ignore_ascii_case(left: &str, right: &str) -> (equal: bool)
    ensures
        equal == same_name(left@, right@),
        equal <==> {
            let l = utf8::encode_utf8(left@);
            let r = utf8::encode_utf8(right@);
            &&& l.len() == r.len()
            &&& forall|i: int|
                #![trigger l[i]]
                #![trigger r[i]]
                0 <= i < l.len() ==> {
                    ||| l[i] == r[i]
                    ||| 65 <= l[i] <= 90 && r[i] == l[i] + 32
                    ||| 65 <= r[i] <= 90 && l[i] == r[i] + 32
                }
        },
{
    proof {
        crate::promises::names_differ_in_ascii_case_alone(left@, right@);
    }
    let l = left.as_bytes();
    let r = right.as_bytes();
    let ghost folded_left = folded(left@);
    let ghost folded_right = folded(right@);

    if l.len() != r.len() {
        assert(folded_left.len() != folded_right.len());
        return false;
    }
    let mut i: usize = 0;
    while i < l.len()
        invariant
            i <= l@.len(),
            l@ == utf8::encode_utf8(left@),
            r@ == utf8::encode_utf8(right@),
            l@.len() == r@.len(),
            folded_left == folded(left@),
            folded_right == folded(right@),
            forall|j: int| 0 <= j < i ==> folded_left[j] == folded_right[j],
        decreases l@.len() - i,
    {
        if fold(l[i]) != fold(r[i]) {
            assert(folded_left[i as int] != folded_right[i as int]);
            return false;
        }
        i = i + 1;
    }
    assert(folded_left =~= folded_right);
    true
}

/// Name equality is an equivalence: every name equals itself, and the relation is
/// symmetric and transitive.
pub proof fn same_name_is_an_equivalence(a: Seq<char>, b: Seq<char>, c: Seq<char>)
    ensures
        same_name(a, a),
        same_name(a, b) ==> same_name(b, a),
        same_name(a, b) && same_name(b, c) ==> same_name(a, c),
{
}

// ---------------------------------------------------------------------------------------
// Numerals
// ---------------------------------------------------------------------------------------

/// The decimal digit `d` as a character.
pub open spec fn digit(d: int) -> char {
    ('0' as int + d) as char
}

/// The decimal numeral of a natural number, with no leading zero.
pub open spec fn numeral(n: nat) -> Seq<char>
    decreases n,
{
    if n < 10 {
        seq![digit(n as int)]
    } else {
        numeral(n / 10).push(digit((n % 10) as int))
    }
}

/// The decimal numeral of an integer, with a minus sign when it is negative.
pub open spec fn decimal(n: int) -> Seq<char> {
    if n < 0 {
        "-"@ + numeral((-n) as nat)
    } else {
        numeral(n as nat)
    }
}

fn digit_text(d: u32) -> (text: &'static str)
    requires
        d < 10,
    ensures
        text@ == seq![digit(d as int)],
{
    proof {
        reveal_strlit("0");
        reveal_strlit("1");
        reveal_strlit("2");
        reveal_strlit("3");
        reveal_strlit("4");
        reveal_strlit("5");
        reveal_strlit("6");
        reveal_strlit("7");
        reveal_strlit("8");
        reveal_strlit("9");
    }
    match d {
        0 => "0",
        1 => "1",
        2 => "2",
        3 => "3",
        4 => "4",
        5 => "5",
        6 => "6",
        7 => "7",
        8 => "8",
        _ => "9",
    }
}

fn append_numeral(out: &mut String, n: u32)
    ensures
        final(out)@ == old(out)@ + numeral(n as nat),
    decreases n,
{
    if n >= 10 {
        append_numeral(out, n / 10);
    }
    out.append(digit_text(n % 10));
    proof {
        if n >= 10 {
            assert(out@ =~= old(out)@ + numeral((n / 10) as nat).push(digit((n % 10) as int)));
        }
    }
}

/// Append the decimal numeral of `n` to `out`.
pub(crate) fn append_decimal(out: &mut String, n: i32)
    ensures
        final(out)@ == old(out)@ + decimal(n as int),
{
    if n < 0 {
        out.append("-");
        let magnitude: u32 = (-(n as i64)) as u32;
        append_numeral(out, magnitude);
        assert(out@ =~= old(out)@ + decimal(n as int));
    } else {
        append_numeral(out, n as u32);
    }
}

// ---------------------------------------------------------------------------------------
// Result codes
// ---------------------------------------------------------------------------------------

/// The description of a result code: SQLite's own text, followed by the code itself.
pub open spec fn description(text: Seq<char>, code: int) -> Seq<char> {
    text + " (code "@ + decimal(code) + ")"@
}

/// Describe a result code, given the text SQLite has for it.
pub fn describe(text: &str, code: i32) -> (reason: String)
    ensures
        reason@ == description(text@, code as int),
{
    let mut reason = text.to_owned();
    reason.append(" (code ");
    append_decimal(&mut reason, code);
    reason.append(")");
    reason
}

} // verus!
