//! String primitives from `std`, decimal rendering, and the text of error
//! messages.

use vstd::prelude::*;
use vstd::string::*;
use std::fmt::Write;

verus! {

/// Calls `str::starts_with` with a string pattern.
///
/// Trusted: `std` documents that it returns `true` exactly when `prefix`
/// is a prefix of `s`; for valid UTF-8 a byte prefix is a character prefix.
#[verifier::external_body]
pub(crate) fn str_starts_with(s: &str, prefix: &str) -> (r: bool)
    ensures
        r == prefix@.is_prefix_of(s@),
{
    s.starts_with(prefix)
}

/// Calls `==` on two `str` values.
///
/// Trusted: `std` compares the two strings byte for byte, which for valid
/// UTF-8 is equality of their character sequences.
#[verifier::external_body]
pub(crate) fn str_equal(a: &str, b: &str) -> (r: bool)
    ensures
        r == (a@ == b@),
{
    a == b
}

/// `std::io::Error`, carried opaquely inside the library's error types.
#[verifier::external_type_specification]
#[verifier::external_body]
pub struct ExIoError(std::io::Error);

/// Renders a `std::io::Error` through its `Display` impl, writing into a
/// `String` with `fmt::Write`; should the `Display` impl report a
/// formatting error, the text written so far is kept (where `to_string`
/// would panic).
///
/// Trusted, with nothing stated of the text: it comes from the operating
/// system's error descriptions and may differ between machines.
#[verifier::external_body]
pub(crate) fn io_error_text(e: &std::io::Error) -> String {
    let mut text = String::new();
    let _ = write!(text, "{e}");
    text
}

/// A new `String` holding `head` followed by `tail`.
pub(crate) fn joined(head: &str, tail: &str) -> (r: String)
    ensures
        r@ == head@ + tail@,
{
    let mut s = String::from_str(head);
    s.append(tail);
    s
}

/// The digit character of `d`, for `d` below ten.
pub open spec fn digit_char(d: nat) -> char {
    if d == 0 {
        '0'
    } else if d == 1 {
        '1'
    } else if d == 2 {
        '2'
    } else if d == 3 {
        '3'
    } else if d == 4 {
        '4'
    } else if d == 5 {
        '5'
    } else if d == 6 {
        '6'
    } else if d == 7 {
        '7'
    } else if d == 8 {
        '8'
    } else {
        '9'
    }
}

/// The decimal rendering of `n`, without leading zeros.
pub open spec fn decimal(n: nat) -> Seq<char>
    decreases n,
{
    if n < 10 {
        seq![digit_char(n)]
    } else {
        decimal(n / 10) + seq![digit_char(n % 10)]
    }
}

/// The one-character string of the digit `d`.
fn digit_str(d: usize) -> (r: &'static str)
    requires
        d < 10,
    ensures
        r@ == seq![digit_char(d as nat)],
{
    proof {
        reveal_strlit("0");
        reveal_strlit("1");
        reveal_strlit("2");
        reveal_strlit("3");
        reveal_strlit("4");
        reveal_strlit("5");
        reveal_strlit("6");
        reveal_strlit("7");
        reveal_strlit("8");
        reveal_strlit("9");
    }
    if d == 0 {
        "0"
    } else if d == 1 {
        "1"
    } else if d == 2 {
        "2"
    } else if d == 3 {
        "3"
    } else if d == 4 {
        "4"
    } else if d == 5 {
        "5"
    } else if d == 6 {
        "6"
    } else if d == 7 {
        "7"
    } else if d == 8 {
        "8"
    } else {
        "9"
    }
}

/// The value of a digit character: 0 to 9 for '0' to '9'.
pub open spec fn digit_value(c: char) -> int {
    c as int - '0' as int
}

/// The number that a string of digits denotes in base ten, most
/// significant digit first.
pub open spec fn numeral_value(s: Seq<char>) -> int
    decreases s.len(),
{
    if s.len() == 0 {
        0
    } else {
        numeral_value(s.drop_last()) * 10 + digit_value(s.last())
    }
}

/// A digit's character reads back as the digit.
proof fn lemma_digit_roundtrip(d: nat)
    requires
        d < 10,
    ensures
        digit_value(digit_char(d)) == d,
        '0' <= digit_char(d) <= '9',
        digit_char(d) == '0' ==> d == 0,
{
}

/// `decimal(n)` is the base-ten numeral of `n`: a non-empty string of the
/// digits '0' to '9' that reads back as `n`, with no leading zero (a
/// single '0' for zero).
pub proof fn lemma_decimal_is_numeral(n: nat)
    ensures
        decimal(n).len() > 0,
        forall|i: int| 0 <= i < decimal(n).len() ==> '0' <= #[trigger] decimal(n)[i] <= '9',
        numeral_value(decimal(n)) == n,
        decimal(n)[0] == '0' ==> n == 0,
    decreases n,
{
    if n < 10 {
        lemma_digit_roundtrip(n);
        assert(decimal(n).drop_last() =~= Seq::<char>::empty());
        assert(numeral_value(decimal(n)) == numeral_value(decimal(n).drop_last()) * 10
            + digit_value(decimal(n).last()));
    } else {
        lemma_decimal_is_numeral(n / 10);
        lemma_digit_roundtrip(n % 10);
        let rest = decimal(n / 10);
        let d = seq![digit_char(n % 10)];
        assert((rest + d).drop_last() =~= rest);
        assert((rest + d).last() == digit_char(n % 10));
        assert((rest + d)[0] == rest[0]);
        assert(numeral_value(rest + d) == numeral_value(rest) * 10 + digit_value(
            digit_char(n % 10),
        ));
        assert((n / 10) * 10 + n % 10 == n);
        assert forall|i: int| 0 <= i < (rest + d).len() implies '0' <= #[trigger] (rest
            + d)[i] <= '9' by {
            if i < rest.len() {
                assert((rest + d)[i] == rest[i]);
            }
        }
    }
}

/// The decimal rendering of `n`, as `{}` prints it.
pub(crate) fn decimal_text(n: usize) -> (r: String)
    ensures
        r@ == decimal(n as nat),
        numeral_value(r@) == n,
        r@.len() > 0,
        r@[0] == '0' ==> n == 0,
    decreases n,
{
    proof {
        lemma_decimal_is_numeral(n as nat);
    }
    if n < 10 {
        String::from_str(digit_str(n))
    } else {
        let mut s = decimal_text(n / 10);
        s.append(digit_str(n % 10));
        s
    }
}

} // verus!
