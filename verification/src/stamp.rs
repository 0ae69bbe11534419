//! Environment inspection: the build timestamp, formatted from a UTC clock
//! reading, and the build user, resolved from identity sources in priority
//! order with a sentinel fallback.

use vstd::prelude::*;
use crate::text::{
    dec_digits, four_digits, push_decimal, push_four_digits, push_two_digits, trim_spaces,
    trimmed, two_digits,
};
use chrono::{Datelike, Timelike};

verus! {

/// A UTC clock reading split into civil date and time fields.
#[derive(Clone, Copy, Debug, PartialEq, Eq, Structural)]
pub struct DateParts {
    pub year: i32,
    pub month: u32,
    pub day: u32,
    pub hour: u32,
    pub minute: u32,
    pub second: u32,
}

/// The fields form a civil date and time: month and day start at one.
pub open spec fn date_parts_wf(p: &DateParts) -> bool {
    &&& 1 <= p.month <= 12
    &&& 1 <= p.day <= 31
    &&& p.hour < 24
    &&& p.minute < 60
    &&& p.second < 60
}

/// The year rendering: four digits zero-padded, a minus sign for years
/// before zero, and a plus sign once four digits no longer suffice.
pub open spec fn year_text(y: int) -> Seq<char> {
    if y < 0 {
        seq!['-'] + four_digits(-y)
    } else if y > 9999 {
        seq!['+'] + dec_digits(y)
    } else {
        four_digits(y)
    }
}

/// The full timestamp rendering of a clock reading.
pub open spec fn timestamp_text(p: &DateParts) -> Seq<char> {
    year_text(p.year as int) + "-"@ + two_digits(p.month as int) + "-"@ + two_digits(
        p.day as int,
    ) + " "@ + two_digits(p.hour as int) + ":"@ + two_digits(p.minute as int) + ":"@ + two_digits(
        p.second as int,
    ) + " UTC"@
}

/// Formats a clock reading as the build timestamp.
pub fn format_timestamp(p: &DateParts) -> (r: String)
    requires
        date_parts_wf(p),
    ensures
        r@ == timestamp_text(p),
{
    let mut out = String::new();
    proof {
        reveal_strlit("-");
        reveal_strlit("+");
    }
    if p.year < 0 {
        out.append("-");
        let magnitude: u32 = (-(p.year as i64)) as u32;
        proof {
            assert(magnitude as int == -(p.year as int));
        }
        push_four_digits(&mut out, magnitude);
    } else if p.year > 9999 {
        out.append("+");
        push_decimal(&mut out, p.year as u32);
    } else {
        push_four_digits(&mut out, p.year as u32);
    }
    proof {
        assert(out@ =~= year_text(p.year as int));
    }
    out.append("-");
    push_two_digits(&mut out, p.month);
    out.append("-");
    push_two_digits(&mut out, p.day);
    out.append(" ");
    push_two_digits(&mut out, p.hour);
    out.append(":");
    push_two_digits(&mut out, p.minute);
    out.append(":");
    push_two_digits(&mut out, p.second);
    out.append(" UTC");
    proof {
        assert(out@ =~= timestamp_text(p));
    }
    out
}

/// Relies on `chrono::Utc::now` and the `Datelike` / `Timelike` accessors:
/// they return a valid civil date and time, with one-based month and day.
#[verifier::external_body]
fn now_utc() -> (p: DateParts)
    ensures
        date_parts_wf(&p),
{
    let now = chrono::Utc::now();
    DateParts {
        year: now.year(),
        month: now.month(),
        day: now.day(),
        hour: now.hour(),
        minute: now.minute(),
        second: now.second(),
    }
}

/// Returns the current UTC time formatted as the build timestamp.
pub fn build_date() -> (r: String)
    ensures
        exists|p: DateParts| date_parts_wf(&p) && r@ == timestamp_text(&p),
{
    let parts = now_utc();
    let r = format_timestamp(&parts);
    proof {
        assert(date_parts_wf(&parts) && r@ == timestamp_text(&parts));
    }
    r
}

/// Whether an identity source is present and non-empty.
pub open spec fn nonempty_var(o: &Option<String>) -> bool {
    match o {
        Option::Some(s) => s@.len() > 0,
        Option::None => false,
    }
}

/// The text an identity source holds (empty when absent).
pub open spec fn var_text(o: &Option<String>) -> Seq<char> {
    match o {
        Option::Some(s) => s@,
        Option::None => Seq::empty(),
    }
}

/// The identity the two environment sources yield, in priority order.
pub open spec fn env_identity_text(primary: &Option<String>, secondary: &Option<String>) -> Seq<
    char,
> {
    if nonempty_var(primary) {
        var_text(primary)
    } else {
        var_text(secondary)
    }
}

/// The identity the query fallback yields: its output trimmed, or the
/// sentinel when there is no output or only whitespace.
pub open spec fn fallback_user_text(query: &Option<String>) -> Seq<char> {
    match query {
        Option::Some(out) => if trimmed(out@).len() > 0 {
            trimmed(out@)
        } else {
            "unknown"@
        },
        Option::None => "unknown"@,
    }
}

/// The resolved build user: the first non-empty environment source, else
/// the trimmed query output, else the sentinel.
pub open spec fn resolved_user_text(
    primary: &Option<String>,
    secondary: &Option<String>,
    query: &Option<String>,
) -> Seq<char> {
    if nonempty_var(primary) || nonempty_var(secondary) {
        env_identity_text(primary, secondary)
    } else {
        fallback_user_text(query)
    }
}

/// Picks the first non-empty of the two environment identity sources.
pub fn env_identity(primary: &Option<String>, secondary: &Option<String>) -> (r: Option<String>)
    ensures
        (r is Some) == (nonempty_var(primary) || nonempty_var(secondary)),
        r is Some ==> r->0@ == env_identity_text(primary, secondary),
{
    if let Option::Some(p) = primary {
        if !p.as_str().is_empty() {
            return Option::Some(p.clone());
        }
    }
    if let Option::Some(s) = secondary {
        if !s.as_str().is_empty() {
            return Option::Some(s.clone());
        }
    }
    Option::None
}

/// Resolves the identity-query fallback: the query output trimmed, or the
/// sentinel when the query failed or returned only whitespace.
pub fn fallback_identity(query: &Option<String>) -> (r: String)
    ensures
        r@ == fallback_user_text(query),
        r@.len() > 0,
{
    proof {
        reveal_strlit("unknown");
    }
    match query {
        Option::Some(out) => {
            let t = trim_spaces(out.as_str());
            if !t.as_str().is_empty() {
                t
            } else {
                String::from_str("unknown")
            }
        },
        Option::None => String::from_str("unknown"),
    }
}

/// Resolves the build user from the identity sources in priority order.
/// The result is never empty; absent every source it is the sentinel.
pub fn resolve_user(
    primary: &Option<String>,
    secondary: &Option<String>,
    query: &Option<String>,
) -> (r: String)
    ensures
        r@ == resolved_user_text(primary, secondary, query),
        r@.len() > 0,
{
    match env_identity(primary, secondary) {
        Option::Some(v) => v,
        Option::None => fallback_identity(query),
    }
}

/// The resolved build user is never the empty string, and is the sentinel
/// exactly when every identity source is absent or blank.
pub proof fn lemma_user_never_empty(
    primary: &Option<String>,
    secondary: &Option<String>,
    query: &Option<String>,
)
    ensures
        resolved_user_text(primary, secondary, query).len() > 0,
        !nonempty_var(primary) && !nonempty_var(secondary) && query is None
            ==> resolved_user_text(primary, secondary, query) == "unknown"@,
        !nonempty_var(primary) && !nonempty_var(secondary) && (query matches Option::Some(out)
            && trimmed(out@).len() == 0) ==> resolved_user_text(primary, secondary, query)
            == "unknown"@,
{
    reveal_strlit("unknown");
}

} // verus!
