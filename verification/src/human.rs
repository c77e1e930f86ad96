//! Rendering a duration as a compact human-readable string.

use vstd::prelude::*;

use crate::time::Duration;

verus! {

/// The decimal digit character for `d`.
pub open spec fn spec_digit(d: nat) -> char {
    if d == 0 {
        '0'
    } else if d == 1 {
        '1'
    } else if d == 2 {
        '2'
    } else if d == 3 {
        '3'
    } else if d == 4 {
        '4'
    } else if d == 5 {
        '5'
    } else if d == 6 {
        '6'
    } else if d == 7 {
        '7'
    } else if d == 8 {
        '8'
    } else {
        '9'
    }
}

/// The decimal digit characters of `n`, most significant first, with no
/// leading zeros (a single `'0'` for zero).
pub open spec fn spec_digits(n: nat) -> Seq<char>
    decreases n,
{
    if n < 10 {
        seq![spec_digit(n)]
    } else {
        spec_digits(n / 10).push(spec_digit(n % 10))
    }
}

/// The human form of a span of `n` nanoseconds: the count converted, with
/// truncating division, into the coarsest unit — nanoseconds, microseconds,
/// milliseconds, seconds, minutes — whose count stays under that unit's
/// threshold, followed by the unit's suffix.
pub open spec fn spec_human(n: nat) -> Seq<char> {
    if n < 1000 {
        spec_digits(n) + seq!['n', 's']
    } else if n / 1000 < 1000 {
        spec_digits(n / 1000) + seq!['u', 's']
    } else if n / 1000000 < 1000 {
        spec_digits(n / 1000000) + seq!['m', 's']
    } else if n / 1000000000 < 60 {
        spec_digits(n / 1000000000) + seq!['s']
    } else {
        spec_digits(n / 1000000000 / 60) + seq!['m']
    }
}

/// The one-character string holding the decimal digit for `d`.
fn digit_str(d: u128) -> (r: &'static str)
    requires
        d < 10,
    ensures
        r@ == seq![spec_digit(d as nat)],
{
    proof {
        reveal_strlit("0");
        reveal_strlit("1");
        reveal_strlit("2");
        reveal_strlit("3");
        reveal_strlit("4");
        reveal_strlit("5");
        reveal_strlit("6");
        reveal_strlit("7");
        reveal_strlit("8");
        reveal_strlit("9");
    }
    let r: &'static str = if d == 0 {
        "0"
    } else if d == 1 {
        "1"
    } else if d == 2 {
        "2"
    } else if d == 3 {
        "3"
    } else if d == 4 {
        "4"
    } else if d == 5 {
        "5"
    } else if d == 6 {
        "6"
    } else if d == 7 {
        "7"
    } else if d == 8 {
        "8"
    } else {
        "9"
    };
    proof {
        assert(r@ =~= seq![spec_digit(d as nat)]);
    }
    r
}

/// The decimal rendering of `n`, most significant digit first.
fn digits_string(n: u128) -> (r: String)
    ensures
        r@ == spec_digits(n as nat),
    decreases n,
{
    if n < 10 {
        String::from_str(digit_str(n))
    } else {
        let prefix = digits_string(n / 10);
        let r = prefix.concat(digit_str(n % 10));
        proof {
            assert(r@ =~= spec_digits(n as nat));
        }
        r
    }
}

/// Formats a duration compactly: its nanosecond count is converted, with
/// truncating integer division, into the coarsest unit that keeps the count
/// under the unit's threshold — under 1000 nanoseconds `"{n}ns"`, under 1000
/// microseconds `"{n}us"`, under 1000 milliseconds `"{n}ms"`, under 60
/// seconds `"{n}s"`, and otherwise whole minutes `"{n}m"`.
pub fn duration_to_human_string(duration: &Duration) -> (r: String)
    ensures
        r@ == spec_human(duration@),
{
    proof {
        reveal_strlit("ns");
        reveal_strlit("us");
        reveal_strlit("ms");
        reveal_strlit("s");
        reveal_strlit("m");
    }
    let n: u128 = duration.as_nanos();
    let r = if n < 1000 {
        digits_string(n).concat("ns")
    } else if n / 1000 < 1000 {
        digits_string(n / 1000).concat("us")
    } else if n / 1000000 < 1000 {
        digits_string(n / 1000000).concat("ms")
    } else if n / 1000000000 < 60 {
        digits_string(n / 1000000000).concat("s")
    } else {
        digits_string(n / 1000000000 / 60).concat("m")
    };
    proof {
        assert(r@ =~= spec_human(duration@));
    }
    r
}

} // verus!
