//! The countdown shown before a backup starts: one tick per second, then the
//! backup begins.

use vstd::prelude::*;
use crate::text::{decimal, push_decimal};

verus! {

/// What a tick of the countdown does.
#[derive(Debug)]
pub enum CountdownStep {
    /// Show the new remaining time with this label.
    Show { remaining: u64, label: String },
    /// Time is up: start the backup.
    StartBackup,
}

/// `n` written with at least two digits.
pub open spec fn two_digits(n: nat) -> Seq<char> {
    if n < 10 {
        seq!['0'] + decimal(n)
    } else {
        decimal(n)
    }
}

/// The label for `seconds` remaining: `Starting in M:SS`.
pub open spec fn countdown_label(seconds: nat) -> Seq<char> {
    "Starting in "@ + decimal(seconds / 60) + seq![':'] + two_digits(seconds % 60)
}

/// The label for `seconds` remaining.
pub fn countdown_text(seconds: u64) -> (r: String)
    ensures
        r@ == countdown_label(seconds as nat),
{
    proof {
        reveal_strlit(":");
        reveal_strlit("0");
    }
    let mut out = String::from_str("Starting in ");
    push_decimal(&mut out, seconds / 60);
    out.append(":");
    let secs = seconds % 60;
    if secs < 10 {
        out.append("0");
    }
    push_decimal(&mut out, secs);
    assert(out@ =~= countdown_label(seconds as nat));
    out
}

/// One tick with `remaining` seconds left: count down and show the time, or
/// start the backup once nothing is left.
pub fn countdown_tick(remaining: u64) -> (r: CountdownStep)
    ensures
        remaining > 0 ==> (r matches CountdownStep::Show { remaining: n, label } && n == remaining - 1
            && label@ == countdown_label(n as nat)),
        remaining == 0 ==> r is StartBackup,
{
    if remaining > 0 {
        let n = remaining - 1;
        CountdownStep::Show { remaining: n, label: countdown_text(n) }
    } else {
        CountdownStep::StartBackup
    }
}

} // verus!
