//! The wall clock, and date formatting at a given instant, through chrono.

use vstd::prelude::*;
use std::fmt::Write;
use chrono::{DateTime, FixedOffset, Local};

verus! {

/// Relies on `chrono::Local::now`, `DateTime::timestamp` and
/// `FixedOffset::local_minus_utc`: the current instant in whole seconds since
/// the Unix epoch, and the machine's UTC offset at that instant in seconds.
#[verifier::external_body]
pub fn local_now() -> (r: (i64, i32))
    ensures
        -86400 < r.1 < 86400,
{
    let now = Local::now();
    (now.timestamp(), now.offset().local_minus_utc())
}

/// What chrono writes for the strftime `pattern` at `secs` seconds after the
/// Unix epoch, in the zone `offset` seconds east of UTC; `None` where chrono
/// rejects a token of the pattern or cannot represent the instant.
pub uninterp spec fn strftime_of(pattern: Seq<char>, secs: i64, offset: i32) -> Option<Seq<char>>;

/// Relies on `FixedOffset::east_opt`, `DateTime::from_timestamp`,
/// `DateTime::with_timezone` and the `Display` of `DateTime::format`: the
/// pattern written at the given instant, which depends on the arguments
/// alone. chrono copies text without a `%` as it stands.
#[verifier::external_body]
pub fn format_at(pattern: &str, secs: i64, offset: i32) -> (r: Option<String>)
    ensures
        match r {
            Some(t) => strftime_of(pattern@, secs, offset) == Some(t@),
            None => strftime_of(pattern@, secs, offset) is None,
        },
        r is Some && !pattern@.contains('%') ==> r->0@ == pattern@,
{
    let zone = FixedOffset::east_opt(offset)?;
    let at = DateTime::from_timestamp(secs, 0)?.with_timezone(&zone);
    let mut out = String::new();
    match write!(out, "{}", at.format(pattern)) {
        Ok(()) => Some(out),
        Err(_) => None,
    }
}

} // verus!
