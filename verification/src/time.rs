//! Relative-time display: how long ago (or ahead) an epoch timestamp lies.
//!
//! The arithmetic and wording are verified against [`time_ago_text`]; only
//! reading the clock itself is trusted.

use vstd::prelude::*;
use crate::text::{dec_digits, push_u64_dec};

verus! {

#[verifier::external_type_specification]
#[verifier::external_body]
pub struct ExSystemTime(std::time::SystemTime);

/// Relies on `std::time::SystemTime::now`: the clock reading at the call.
#[verifier::external_body]
fn system_now() -> (r: std::time::SystemTime) {
    std::time::SystemTime::now()
}

/// Relies on `std::time::SystemTime::duration_since`: the whole seconds
/// between the epoch and the reading, or zero for a reading before the
/// epoch.
#[verifier::external_body]
fn epoch_seconds_of(t: &std::time::SystemTime) -> (r: i64) {
    match t.duration_since(std::time::UNIX_EPOCH) {
        Ok(d) => d.as_secs() as i64,
        Err(_) => 0,
    }
}

/// Seconds in a year, a month, a day, an hour, and a minute.
pub const SECS_PER_YEAR: i64 = 31_536_000;

pub const SECS_PER_MONTH: i64 = 2_592_000;

pub const SECS_PER_DAY: i64 = 86_400;

pub const SECS_PER_HOUR: i64 = 3_600;

pub const SECS_PER_MINUTE: i64 = 60;

/// The count and unit name that describe a span of `abs` seconds: the
/// largest whole unit that fits, seconds when none does.
pub open spec fn span_parts(abs: int) -> (int, Seq<char>) {
    if abs >= SECS_PER_YEAR {
        (abs / (SECS_PER_YEAR as int), "year"@)
    } else if abs >= SECS_PER_MONTH {
        (abs / (SECS_PER_MONTH as int), "month"@)
    } else if abs >= SECS_PER_DAY {
        (abs / (SECS_PER_DAY as int), "day"@)
    } else if abs >= SECS_PER_HOUR {
        (abs / (SECS_PER_HOUR as int), "hour"@)
    } else if abs >= SECS_PER_MINUTE {
        (abs / (SECS_PER_MINUTE as int), "minute"@)
    } else {
        (abs, "second"@)
    }
}

/// The relative-time sentence for a timestamp, seen from `now`: count,
/// unit, a plural `s` unless the count is one, and either `ago` for the
/// past or a leading `in` for the future.
pub open spec fn time_ago_text(now: int, epoch_secs: int) -> Seq<char> {
    let diff = now - epoch_secs;
    let abs = if diff >= 0 {
        diff
    } else {
        -diff
    };
    let value = span_parts(abs).0;
    let unit = span_parts(abs).1;
    let plural = if value == 1 {
        Seq::<char>::empty()
    } else {
        "s"@
    };
    if diff >= 0 {
        dec_digits(value) + " "@ + unit + plural + " ago"@
    } else {
        "in "@ + dec_digits(value) + " "@ + unit + plural
    }
}

fn unit_str(abs: i128) -> (r: &'static str)
    requires
        0 <= abs,
    ensures
        r@ == span_parts(abs as int).1,
{
    if abs >= SECS_PER_YEAR as i128 {
        "year"
    } else if abs >= SECS_PER_MONTH as i128 {
        "month"
    } else if abs >= SECS_PER_DAY as i128 {
        "day"
    } else if abs >= SECS_PER_HOUR as i128 {
        "hour"
    } else if abs >= SECS_PER_MINUTE as i128 {
        "minute"
    } else {
        "second"
    }
}

fn unit_value(abs: i128) -> (r: u64)
    requires
        0 <= abs <= u64::MAX as i128,
    ensures
        r == span_parts(abs as int).0,
{
    if abs >= SECS_PER_YEAR as i128 {
        (abs / (SECS_PER_YEAR as i128)) as u64
    } else if abs >= SECS_PER_MONTH as i128 {
        (abs / (SECS_PER_MONTH as i128)) as u64
    } else if abs >= SECS_PER_DAY as i128 {
        (abs / (SECS_PER_DAY as i128)) as u64
    } else if abs >= SECS_PER_HOUR as i128 {
        (abs / (SECS_PER_HOUR as i128)) as u64
    } else if abs >= SECS_PER_MINUTE as i128 {
        (abs / (SECS_PER_MINUTE as i128)) as u64
    } else {
        abs as u64
    }
}

/// The relative-time sentence for `epoch_secs` seen from `now`, as
/// [`time_ago_text`] states.
pub fn time_ago_from(now: i64, epoch_secs: i64) -> (r: String)
    ensures
        r@ == time_ago_text(now as int, epoch_secs as int),
{
    let diff: i128 = now as i128 - epoch_secs as i128;
    let abs: i128 = if diff >= 0 {
        diff
    } else {
        -diff
    };
    let value = unit_value(abs);
    let unit = unit_str(abs);
    let mut out = String::new();
    if diff >= 0 {
        push_u64_dec(&mut out, value);
        out.append(" ");
        out.append(unit);
        if value != 1 {
            out.append("s");
        }
        out.append(" ago");
    } else {
        out.append("in ");
        push_u64_dec(&mut out, value);
        out.append(" ");
        out.append(unit);
        if value != 1 {
            out.append("s");
        }
    }
    proof {
        assert(out@ =~= time_ago_text(now as int, epoch_secs as int));
    }
    out
}

/// The relative-time sentence for `epoch_secs` seen from the clock now:
/// some instant's [`time_ago_text`], whichever reading the clock gave.
pub fn time_ago_string(epoch_secs: i64) -> (r: String)
    ensures
        exists|now: i64| r@ == time_ago_text(now as int, epoch_secs as int),
{
    let t = system_now();
    let now = epoch_seconds_of(&t);
    let r = time_ago_from(now, epoch_secs);
    proof {
        assert(r@ == time_ago_text(now as int, epoch_secs as int));
    }
    r
}

} // verus!
