//! Small text building blocks: single-character edits of a `String`, lossy
//! UTF-8 decoding, and the `HH:MM:SS` clock text used in message lines.

use vstd::prelude::*;
use vstd::string::StringExecFns;

verus! {

/// Characters a byte sequence decodes to under lossy UTF-8 decoding, with
/// invalid sequences replaced. The value is fixed by the implementation the
/// wrapper below relies on; contracts use the name.
pub uninterp spec fn lossy_decode_of(bytes: Seq<u8>) -> Seq<char>;

/// Relies on String::from_utf8_lossy: decodes bytes as UTF-8, replacing
/// invalid sequences, and decodes valid UTF-8 exactly.
#[verifier::external_body]
pub fn utf8_lossy(bytes: &Vec<u8>) -> (r: String)
    ensures
        r@ == lossy_decode_of(bytes@),
        vstd::utf8::valid_utf8(bytes@) ==> r@ == vstd::utf8::decode_utf8(bytes@),
{
    String::from_utf8_lossy(bytes.as_slice()).into_owned()
}

/// Relies on String::push: appends the given character to the end.
#[verifier::external_body]
pub fn push_char(s: &mut String, c: char)
    ensures
        final(s)@ == old(s)@.push(c),
{
    s.push(c);
}

/// Relies on String::pop: removes the last character and returns it, or
/// returns nothing when the string is empty.
#[verifier::external_body]
pub fn pop_char(s: &mut String) -> (r: Option<char>)
    ensures
        old(s)@.len() == 0 ==> r is None && final(s)@ == old(s)@,
        old(s)@.len() > 0 ==> (r matches Some(c) && c == old(s)@.last() && final(s)@ == old(
            s,
        )@.drop_last()),
{
    s.pop()
}

/// The decimal digit character for `d`.
pub open spec fn digit_char(d: int) -> char {
    ((48 + d) as u8) as char
}

/// Two decimal digits, zero-padded.
pub open spec fn spec_two_digits(v: int) -> Seq<char> {
    seq![digit_char(v / 10), digit_char(v % 10)]
}

/// A wall-clock time as `HH:MM:SS`.
pub open spec fn spec_clock_text(h: int, m: int, s: int) -> Seq<char> {
    spec_two_digits(h) + seq![':'] + spec_two_digits(m) + seq![':'] + spec_two_digits(s)
}

fn push_two_digits(out: &mut String, v: u8)
    requires
        v < 100,
    ensures
        final(out)@ == old(out)@ + spec_two_digits(v as int),
{
    let d1 = (48 + v / 10) as char;
    let d2 = (48 + v % 10) as char;
    push_char(out, d1);
    push_char(out, d2);
    proof {
        assert(out@ =~= old(out)@ + spec_two_digits(v as int));
    }
}

/// Render a wall-clock time as `HH:MM:SS`.
pub fn clock_text(h: u8, m: u8, s: u8) -> (r: String)
    requires
        h < 24,
        m < 60,
        s < 60,
    ensures
        r@ == spec_clock_text(h as int, m as int, s as int),
{
    let mut r = String::new();
    push_two_digits(&mut r, h);
    push_char(&mut r, ':');
    push_two_digits(&mut r, m);
    push_char(&mut r, ':');
    push_two_digits(&mut r, s);
    proof {
        assert(r@ =~= spec_clock_text(h as int, m as int, s as int));
    }
    r
}

/// Relies on chrono::Local::now and the chrono::Timelike accessors: the
/// current local wall-clock hour, minute and second, each within its
/// calendar range. The value depends on the clock; only the ranges are
/// promised.
#[verifier::external_body]
pub fn local_clock_hms() -> (r: (u8, u8, u8))
    ensures
        r.0 < 24,
        r.1 < 60,
        r.2 < 60,
{
    let now = chrono::Local::now();
    (chrono::Timelike::hour(&now) as u8, chrono::Timelike::minute(&now) as u8, chrono::Timelike::second(&now) as u8)
}

} // verus!
