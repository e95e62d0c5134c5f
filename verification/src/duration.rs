//! Track-length display: seconds rendered as `MM:SS`, or `HH:MM:SS` once
//! a duration reaches an hour.  Fields are zero-padded to two digits;
//! hour counts above 99 keep all their digits.

use vstd::prelude::*;

verus! {

/// The decimal digit character for `d`.
pub open spec fn digit_char(d: int) -> char
    recommends
        0 <= d < 10,
{
    if d == 0 {
        '0'
    } else if d == 1 {
        '1'
    } else if d == 2 {
        '2'
    } else if d == 3 {
        '3'
    } else if d == 4 {
        '4'
    } else if d == 5 {
        '5'
    } else if d == 6 {
        '6'
    } else if d == 7 {
        '7'
    } else if d == 8 {
        '8'
    } else {
        '9'
    }
}

/// `n` in decimal, most significant digit first, no leading zeroes.
pub open spec fn spec_decimal(n: nat) -> Seq<char>
    decreases n,
{
    if n < 10 {
        seq![digit_char(n as int)]
    } else {
        spec_decimal(n / 10).push(digit_char((n % 10) as int))
    }
}

/// `n` in decimal, zero-padded on the left to at least two digits.
pub open spec fn spec_two_digit(n: nat) -> Seq<char> {
    if n < 10 {
        seq!['0', digit_char(n as int)]
    } else {
        spec_decimal(n)
    }
}

/// `total_secs` as clock text: hours only when there are any.
pub open spec fn spec_format_duration(total_secs: nat) -> Seq<char> {
    let hours = total_secs / 3600;
    let minutes = (total_secs % 3600) / 60;
    let secs = (total_secs % 3600) % 60;
    if hours > 0 {
        spec_two_digit(hours) + seq![':'] + spec_two_digit(minutes) + seq![':'] + spec_two_digit(
            secs,
        )
    } else {
        spec_two_digit(minutes) + seq![':'] + spec_two_digit(secs)
    }
}

/// The one-character string for a single decimal digit.
fn digit_str(d: u64) -> (s: &'static str)
    requires
        d < 10,
    ensures
        s@ == seq![digit_char(d as int)],
{
    proof {
        reveal_strlit("0");
        reveal_strlit("1");
        reveal_strlit("2");
        reveal_strlit("3");
        reveal_strlit("4");
        reveal_strlit("5");
        reveal_strlit("6");
        reveal_strlit("7");
        reveal_strlit("8");
        reveal_strlit("9");
    }
    match d {
        0 => "0",
        1 => "1",
        2 => "2",
        3 => "3",
        4 => "4",
        5 => "5",
        6 => "6",
        7 => "7",
        8 => "8",
        _ => "9",
    }
}

/// `n` in decimal.
fn decimal_string(n: u64) -> (s: String)
    ensures
        s@ == spec_decimal(n as nat),
    decreases n,
{
    if n < 10 {
        String::from_str(digit_str(n))
    } else {
        let mut s = decimal_string(n / 10);
        s.append(digit_str(n % 10));
        proof {
            assert(s@ =~= spec_decimal(n as nat));
        }
        s
    }
}

/// `n` in decimal, zero-padded to at least two digits.
fn two_digit_string(n: u64) -> (s: String)
    ensures
        s@ == spec_two_digit(n as nat),
{
    if n < 10 {
        proof {
            reveal_strlit("0");
        }
        let mut s = String::from_str("0");
        s.append(digit_str(n));
        proof {
            assert(s@ =~= spec_two_digit(n as nat));
        }
        s
    } else {
        decimal_string(n)
    }
}

/// Renders a track length given in seconds, `MM:SS` under an hour and
/// `HH:MM:SS` from one hour on, every field zero-padded to two digits.
pub fn format_duration(total_secs: u64) -> (s: String)
    ensures
        s@ == spec_format_duration(total_secs as nat),
{
    proof {
        reveal_strlit(":");
    }
    let hours = total_secs / 3600;
    let rem = total_secs % 3600;
    let minutes = rem / 60;
    let secs = rem % 60;
    let m = two_digit_string(minutes);
    let sec = two_digit_string(secs);
    if hours > 0 {
        let mut out = two_digit_string(hours);
        out.append(":");
        out.append(m.as_str());
        out.append(":");
        out.append(sec.as_str());
        proof {
            assert(out@ =~= spec_format_duration(total_secs as nat));
        }
        out
    } else {
        let mut out = m;
        out.append(":");
        out.append(sec.as_str());
        proof {
            assert(out@ =~= spec_format_duration(total_secs as nat));
        }
        out
    }
}

} // verus!
