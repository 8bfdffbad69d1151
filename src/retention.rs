//! How a retention period is handed to the external tools.
use vstd::prelude::*;
use crate::text::{decimal, push_decimal, push_text};

verus! {

pub const SECONDS_PER_MINUTE: u64 = 60;
pub const SECONDS_PER_HOUR: u64 = 3600;
pub const SECONDS_PER_DAY: u64 = 86400;

/// The `--min-age` value for a retention of `secs` seconds: whole days when
/// it is at least a day, else whole hours when at least an hour, else whole
/// minutes, and never less than one minute.
pub open spec fn age_spec(secs: nat) -> Seq<char> {
    if secs >= SECONDS_PER_DAY {
        decimal(secs / SECONDS_PER_DAY as nat).push('d')
    } else if secs >= SECONDS_PER_HOUR {
        decimal(secs / SECONDS_PER_HOUR as nat).push('h')
    } else if secs / (SECONDS_PER_MINUTE as nat) >= 1 {
        decimal(secs / SECONDS_PER_MINUTE as nat).push('m')
    } else {
        decimal(1).push('m')
    }
}

/// Renders a retention period of `secs` seconds as rclone's `--min-age`.
pub fn age_string(secs: u64) -> (r: String)
    ensures
        r@ == age_spec(secs as nat),
{
    let mut out = String::new();
    let (amount, unit) = if secs >= SECONDS_PER_DAY {
        (secs / SECONDS_PER_DAY, "d")
    } else if secs >= SECONDS_PER_HOUR {
        (secs / SECONDS_PER_HOUR, "h")
    } else if secs / SECONDS_PER_MINUTE >= 1 {
        (secs / SECONDS_PER_MINUTE, "m")
    } else {
        (1u64, "m")
    };
    proof {
        reveal_strlit("d");
        reveal_strlit("h");
        reveal_strlit("m");
    }
    push_decimal(&mut out, amount);
    push_text(&mut out, unit);
    proof {
        assert(out@ =~= age_spec(secs as nat));
    }
    out
}

/// Days of archives that borg keeps for a retention of `secs` seconds.
pub fn keep_daily(secs: u64) -> (r: u64)
    ensures
        r == secs / SECONDS_PER_DAY,
{
    secs / SECONDS_PER_DAY
}

} // verus!
