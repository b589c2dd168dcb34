//! Text rendering of time values: zero-padded two-digit fields joined by
//! colons, as in `00:01:00`.
use vstd::prelude::*;
use vstd::string::*;

verus! {

/// The character for one decimal digit.
pub open spec fn digit_char(d: int) -> char {
    if d == 0 {
        '0'
    } else if d == 1 {
        '1'
    } else if d == 2 {
        '2'
    } else if d == 3 {
        '3'
    } else if d == 4 {
        '4'
    } else if d == 5 {
        '5'
    } else if d == 6 {
        '6'
    } else if d == 7 {
        '7'
    } else if d == 8 {
        '8'
    } else {
        '9'
    }
}

/// A number under one hundred as two digits, zero-padded.
pub open spec fn two_digits(n: int) -> Seq<char> {
    seq![digit_char(n / 10), digit_char(n % 10)]
}

/// Hours, minutes and seconds as zero-padded two-digit fields joined by colons.
pub open spec fn hms_text(hours: int, minutes: int, seconds: int) -> Seq<char> {
    two_digits(hours) + ":"@ + two_digits(minutes) + ":"@ + two_digits(seconds)
}

/// A flat second count rendered as `HH:MM:SS`.
pub open spec fn clock_text(total: int) -> Seq<char> {
    hms_text(total / 3600, (total % 3600) / 60, total % 60)
}

/// One decimal digit as a string slice.
fn digit_str(d: u64) -> (r: &'static str)
    requires
        d < 10,
    ensures
        r@ =~= seq![digit_char(d as int)],
{
    if d == 0 {
        proof { reveal_strlit("0"); }
        "0"
    } else if d == 1 {
        proof { reveal_strlit("1"); }
        "1"
    } else if d == 2 {
        proof { reveal_strlit("2"); }
        "2"
    } else if d == 3 {
        proof { reveal_strlit("3"); }
        "3"
    } else if d == 4 {
        proof { reveal_strlit("4"); }
        "4"
    } else if d == 5 {
        proof { reveal_strlit("5"); }
        "5"
    } else if d == 6 {
        proof { reveal_strlit("6"); }
        "6"
    } else if d == 7 {
        proof { reveal_strlit("7"); }
        "7"
    } else if d == 8 {
        proof { reveal_strlit("8"); }
        "8"
    } else {
        proof { reveal_strlit("9"); }
        "9"
    }
}

/// Appends a number under one hundred as two digits, zero-padded.
pub fn push_two_digits(out: &mut String, n: u64)
    requires
        n < 100,
    ensures
        final(out)@ == old(out)@ + two_digits(n as int),
{
    out.append(digit_str(n / 10));
    out.append(digit_str(n % 10));
    proof {
        assert(out@ =~= old(out)@ + two_digits(n as int));
    }
}

/// Renders hours, minutes and seconds, each under one hundred, as `HH:MM:SS`.
pub fn hms_string(hours: u64, minutes: u64, seconds: u64) -> (r: String)
    requires
        hours < 100,
        minutes < 100,
        seconds < 100,
    ensures
        r@ == hms_text(hours as int, minutes as int, seconds as int),
{
    let mut out = String::new();
    push_two_digits(&mut out, hours);
    out.append(":");
    push_two_digits(&mut out, minutes);
    out.append(":");
    push_two_digits(&mut out, seconds);
    proof {
        assert(out@ =~= hms_text(hours as int, minutes as int, seconds as int));
    }
    out
}

} // verus!
