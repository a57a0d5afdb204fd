//! HTTP status codes: which ones count as success, and how a failed one is
//! described to the caller.

use vstd::prelude::*;

verus! {

/// Whether a status code lies in the success range, 200 up to 299.
pub open spec fn is_success_status(status: u16) -> bool {
    200 <= status <= 299
}

/// The character for one decimal digit.
pub open spec fn digit_char(d: nat) -> char {
    if d == 0 {
        '0'
    } else if d == 1 {
        '1'
    } else if d == 2 {
        '2'
    } else if d == 3 {
        '3'
    } else if d == 4 {
        '4'
    } else if d == 5 {
        '5'
    } else if d == 6 {
        '6'
    } else if d == 7 {
        '7'
    } else if d == 8 {
        '8'
    } else {
        '9'
    }
}

/// The decimal numeral of `n`, most significant digit first, without leading
/// zeros.
pub open spec fn decimal_digits(n: nat) -> Seq<char>
    decreases n,
{
    if n < 10 {
        seq![digit_char(n)]
    } else {
        decimal_digits(n / 10).push(digit_char(n % 10))
    }
}

/// The reason given for a response outside the success range: the word
/// `HTTP`, the status code, and the status text where the response had one.
pub open spec fn status_reason(status: u16, status_text: Seq<char>) -> Seq<char> {
    let head = seq!['H', 'T', 'T', 'P', ' '] + decimal_digits(status as nat);
    if status_text.len() == 0 {
        head
    } else {
        head + seq![' '] + status_text
    }
}

/// Whether `status` is an HTTP success status.
pub fn is_success(status: u16) -> (ok: bool)
    ensures
        ok == is_success_status(status),
{
    200 <= status && status <= 299
}

/// One decimal digit as a string.
fn digit_str(d: u16) -> (s: &'static str)
    requires
        d < 10,
    ensures
        s@ == seq![digit_char(d as nat)],
{
    proof {
        reveal_strlit("0");
        reveal_strlit("1");
        reveal_strlit("2");
        reveal_strlit("3");
        reveal_strlit("4");
        reveal_strlit("5");
        reveal_strlit("6");
        reveal_strlit("7");
        reveal_strlit("8");
        reveal_strlit("9");
    }
    let s: &'static str = if d == 0 {
        "0"
    } else if d == 1 {
        "1"
    } else if d == 2 {
        "2"
    } else if d == 3 {
        "3"
    } else if d == 4 {
        "4"
    } else if d == 5 {
        "5"
    } else if d == 6 {
        "6"
    } else if d == 7 {
        "7"
    } else if d == 8 {
        "8"
    } else {
        "9"
    };
    assert(s@ =~= seq![digit_char(d as nat)]);
    s
}

/// Appends the decimal numeral of `n` to `out`.
fn push_decimal(out: &mut String, n: u16)
    ensures
        final(out)@ == old(out)@ + decimal_digits(n as nat),
    decreases n,
{
    if n >= 10 {
        push_decimal(out, n / 10);
    }
    out.append(digit_str(n % 10));
    assert(out@ =~= old(out)@ + decimal_digits(n as nat));
}

/// Describes a response whose status is outside the success range.
pub fn status_line(status: u16, status_text: &str) -> (line: String)
    ensures
        line@ == status_reason(status, status_text@),
{
    proof {
        reveal_strlit("HTTP ");
        reveal_strlit(" ");
    }
    let mut line = String::from_str("HTTP ");
    assert(line@ =~= seq!['H', 'T', 'T', 'P', ' ']);
    push_decimal(&mut line, status);
    if !status_text.is_empty() {
        line.append(" ");
        assert(" "@ =~= seq![' ']);
        line.append(status_text);
    }
    assert(line@ =~= status_reason(status, status_text@));
    line
}

} // verus!
