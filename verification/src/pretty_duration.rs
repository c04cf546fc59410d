//! Render a time span as a human-readable clock string.
//!
//! A span of at least one hour is rendered as `H:MM:SS`, anything shorter
//! as `M:SS`; the trailing minute and second fields are zero-padded to two
//! digits, the leading field is not, and the hour field has no upper bound
//! on its width.

use vstd::prelude::*;

verus! {

/// The decimal digit character for a value below ten.
pub open spec fn digit_char(d: nat) -> char {
    if d == 0 {
        '0'
    } else if d == 1 {
        '1'
    } else if d == 2 {
        '2'
    } else if d == 3 {
        '3'
    } else if d == 4 {
        '4'
    } else if d == 5 {
        '5'
    } else if d == 6 {
        '6'
    } else if d == 7 {
        '7'
    } else if d == 8 {
        '8'
    } else {
        '9'
    }
}

/// The decimal digits of a number, without a sign and without leading
/// zeros except for the single digit of zero itself.
pub open spec fn dec_digits(n: nat) -> Seq<char>
    decreases n,
{
    if n < 10 {
        seq![digit_char(n)]
    } else {
        dec_digits(n / 10).push(digit_char(n % 10))
    }
}

/// The decimal digits of a number, zero-padded on the left to at least two
/// digits.
pub open spec fn padded2(n: nat) -> Seq<char> {
    if n < 10 {
        seq!['0', digit_char(n)]
    } else {
        dec_digits(n)
    }
}

/// The clock string for a whole number of seconds: `H:MM:SS` from one
/// hour up, `M:SS` below it.
pub open spec fn spec_pretty(total_seconds: nat) -> Seq<char> {
    let hours = total_seconds / 3600;
    let minutes = (total_seconds / 60) % 60;
    let seconds = total_seconds % 60;
    if hours > 0 {
        dec_digits(hours) + seq![':'] + padded2(minutes) + seq![':'] + padded2(seconds)
    } else {
        dec_digits(minutes) + seq![':'] + padded2(seconds)
    }
}

/// The string literal for a single decimal digit.
fn digit_str(d: u64) -> (r: &'static str)
    requires
        d < 10,
    ensures
        r@ == seq![digit_char(d as nat)],
{
    if d == 0 {
        proof {
            reveal_strlit("0");
            assert("0"@ =~= seq!['0']);
        }
        "0"
    } else if d == 1 {
        proof {
            reveal_strlit("1");
            assert("1"@ =~= seq!['1']);
        }
        "1"
    } else if d == 2 {
        proof {
            reveal_strlit("2");
            assert("2"@ =~= seq!['2']);
        }
        "2"
    } else if d == 3 {
        proof {
            reveal_strlit("3");
            assert("3"@ =~= seq!['3']);
        }
        "3"
    } else if d == 4 {
        proof {
            reveal_strlit("4");
            assert("4"@ =~= seq!['4']);
        }
        "4"
    } else if d == 5 {
        proof {
            reveal_strlit("5");
            assert("5"@ =~= seq!['5']);
        }
        "5"
    } else if d == 6 {
        proof {
            reveal_strlit("6");
            assert("6"@ =~= seq!['6']);
        }
        "6"
    } else if d == 7 {
        proof {
            reveal_strlit("7");
            assert("7"@ =~= seq!['7']);
        }
        "7"
    } else if d == 8 {
        proof {
            reveal_strlit("8");
            assert("8"@ =~= seq!['8']);
        }
        "8"
    } else {
        proof {
            reveal_strlit("9");
            assert("9"@ =~= seq!['9']);
        }
        "9"
    }
}

/// The decimal digits of a number as a string.
fn u64_digits(n: u64) -> (s: String)
    ensures
        s@ == dec_digits(n as nat),
    decreases n,
{
    if n < 10 {
        digit_str(n).to_owned()
    } else {
        let mut s = u64_digits(n / 10);
        s.append(digit_str(n % 10));
        proof {
            assert(s@ =~= dec_digits(n as nat));
        }
        s
    }
}

/// The decimal digits of a number, zero-padded to at least two digits.
fn padded2_str(n: u64) -> (s: String)
    ensures
        s@ == padded2(n as nat),
{
    if n < 10 {
        let mut s = "0".to_owned();
        s.append(digit_str(n));
        proof {
            reveal_strlit("0");
            assert(s@ =~= seq!['0', digit_char(n as nat)]);
        }
        s
    } else {
        u64_digits(n)
    }
}

/// Format a whole number of seconds as a clock string: `H:MM:SS` when the
/// span reaches one hour, else `M:SS`, with the minute and second fields
/// zero-padded to two digits wherever they are not the leading field.
pub fn format_duration(total_seconds: u64) -> (s: String)
    ensures
        s@ == spec_pretty(total_seconds as nat),
{
    let hours = total_seconds / 3600;
    let minutes = (total_seconds / 60) % 60;
    let seconds = total_seconds % 60;
    proof {
        reveal_strlit(":");
        assert(":"@ =~= seq![':']);
    }
    if hours > 0 {
        let mut s = u64_digits(hours);
        s.append(":");
        let m = padded2_str(minutes);
        s.append(m.as_str());
        s.append(":");
        let sec = padded2_str(seconds);
        s.append(sec.as_str());
        s
    } else {
        let mut s = u64_digits(minutes);
        s.append(":");
        let sec = padded2_str(seconds);
        s.append(sec.as_str());
        s
    }
}

/// Convert a duration to a nicely formatted clock string.
pub trait PrettyDuration {
    /// The whole number of seconds this value stands for; any finer
    /// resolution is truncated, never rounded.
    spec fn spec_seconds(&self) -> nat;

    /// Convert the duration to its clock string.
    fn pretty(&self) -> (s: String)
        ensures
            s@ == spec_pretty(self.spec_seconds()),
    ;
}

/// A bare second count is itself a duration.
impl PrettyDuration for u64 {
    open spec fn spec_seconds(&self) -> nat {
        *self as nat
    }

    fn pretty(&self) -> (s: String) {
        format_duration(*self)
    }
}

/// Formatting is deterministic and idempotent: the clock string is a pure
/// function of the second count, so repeated calls on identical input
/// describe identical results.
pub proof fn lemma_format_duration_repeatable(n1: nat, n2: nat)
    requires
        n1 == n2,
    ensures
        spec_pretty(n1) == spec_pretty(n2),
{
}

} // verus!
