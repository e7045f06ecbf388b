//! The text of the crash notices that the user is shown.

use crate::model::GRACE_SECS;
use vstd::prelude::*;
use vstd::string::*;

verus! {

/// The decimal digit for a value below ten.
pub open spec fn digit(d: nat) -> char {
    if d == 0 {
        '0'
    } else if d == 1 {
        '1'
    } else if d == 2 {
        '2'
    } else if d == 3 {
        '3'
    } else if d == 4 {
        '4'
    } else if d == 5 {
        '5'
    } else if d == 6 {
        '6'
    } else if d == 7 {
        '7'
    } else if d == 8 {
        '8'
    } else {
        '9'
    }
}

/// The decimal digits of a natural number, without leading zeros.
pub open spec fn digits(n: nat) -> Seq<char>
    decreases n,
{
    if n < 10 {
        seq![digit(n)]
    } else {
        digits(n / 10).push(digit(n % 10))
    }
}

/// The decimal form of an integer, with a minus sign if it is negative.
pub open spec fn decimal(n: int) -> Seq<char> {
    if n < 0 {
        seq!['-'] + digits((-n) as nat)
    } else {
        digits(n as nat)
    }
}

/// How every crash notice ends: the grace period that is left to read it.
pub open spec fn closing_text() -> Seq<char> {
    ". Closing in "@ + digits(GRACE_SECS as nat) + " seconds."@
}

/// The notice for a backend that could not be spawned.
pub open spec fn spawn_failure_text(error: Seq<char>) -> Seq<char> {
    "The server failed to start: "@ + error + closing_text()
}

/// The notice for a backend that ended before it was ready.
pub open spec fn early_exit_text(code: i32) -> Seq<char> {
    "Seanime server process terminated with status: "@ + decimal(code as int) + closing_text()
}

fn digit_str(d: u64) -> (s: &'static str)
    requires
        d < 10,
    ensures
        s@ == seq![digit(d as nat)],
{
    if d == 0 {
        proof {
            reveal_strlit("0");
        }
        assert("0"@ =~= seq!['0']);
        "0"
    } else if d == 1 {
        proof {
            reveal_strlit("1");
        }
        assert("1"@ =~= seq!['1']);
        "1"
    } else if d == 2 {
        proof {
            reveal_strlit("2");
        }
        assert("2"@ =~= seq!['2']);
        "2"
    } else if d == 3 {
        proof {
            reveal_strlit("3");
        }
        assert("3"@ =~= seq!['3']);
        "3"
    } else if d == 4 {
        proof {
            reveal_strlit("4");
        }
        assert("4"@ =~= seq!['4']);
        "4"
    } else if d == 5 {
        proof {
            reveal_strlit("5");
        }
        assert("5"@ =~= seq!['5']);
        "5"
    } else if d == 6 {
        proof {
            reveal_strlit("6");
        }
        assert("6"@ =~= seq!['6']);
        "6"
    } else if d == 7 {
        proof {
            reveal_strlit("7");
        }
        assert("7"@ =~= seq!['7']);
        "7"
    } else if d == 8 {
        proof {
            reveal_strlit("8");
        }
        assert("8"@ =~= seq!['8']);
        "8"
    } else {
        proof {
            reveal_strlit("9");
        }
        assert("9"@ =~= seq!['9']);
        "9"
    }
}

/// Appends the decimal digits of `n`.
pub fn append_digits(out: &mut String, n: u64)
    ensures
        final(out)@ == old(out)@ + digits(n as nat),
    decreases n,
{
    if n >= 10 {
        append_digits(out, n / 10);
    }
    out.append(digit_str(n % 10));
    assert(out@ =~= old(out)@ + digits(n as nat));
}

/// Appends the decimal form of `n`.
pub fn append_decimal(out: &mut String, n: i32)
    ensures
        final(out)@ == old(out)@ + decimal(n as int),
{
    let wide: i64 = n as i64;
    if wide < 0 {
        proof {
            reveal_strlit("-");
        }
        assert("-"@ =~= seq!['-']);
        out.append("-");
        append_digits(out, (0 - wide) as u64);
    } else {
        append_digits(out, wide as u64);
    }
    assert(out@ =~= old(out)@ + decimal(n as int));
}

fn append_closing(out: &mut String)
    ensures
        final(out)@ == old(out)@ + closing_text(),
{
    out.append(". Closing in ");
    append_digits(out, GRACE_SECS);
    out.append(" seconds.");
    assert(out@ =~= old(out)@ + closing_text());
}

/// Writes the notice for a backend that could not be spawned.
pub fn spawn_failure_notice(error: &str) -> (notice: String)
    ensures
        notice@ == spawn_failure_text(error@),
{
    let mut notice = String::from_str("The server failed to start: ");
    notice.append(error);
    append_closing(&mut notice);
    assert(notice@ =~= spawn_failure_text(error@));
    notice
}

/// Writes the notice for a backend that ended before it was ready.
pub fn early_exit_notice(code: i32) -> (notice: String)
    ensures
        notice@ == early_exit_text(code),
{
    let mut notice = String::from_str("Seanime server process terminated with status: ");
    append_decimal(&mut notice, code);
    append_closing(&mut notice);
    assert(notice@ =~= early_exit_text(code));
    notice
}

} // verus!
