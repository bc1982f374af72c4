//! The current time.

use vstd::prelude::*;
use crate::model::Timestamp;

verus! {

/// The text that `chrono` writes for the time of `secs` and `nanos` in UTC
/// with its `Display`, or nothing where `chrono::DateTime::from_timestamp`
/// cannot represent the time.
pub uninterp spec fn timestamp_text(secs: i64, nanos: u32) -> Option<Seq<char>>;

/// Whether `t` is a time that `chrono` can represent, and so one that can be
/// stored with a post and shown.
pub open spec fn representable(t: Timestamp) -> bool {
    timestamp_text(t.secs, t.nanos) is Some
}

/// Calls `chrono::Utc::now` and takes the time apart with `timestamp` and
/// `timestamp_subsec_nanos`. Which time it is depends on the system clock,
/// so the contract claims of it only what holds of every time that `chrono`
/// hands out: `from_timestamp` builds the same time again from these two
/// parts.
#[verifier::external_body]
fn utc_now() -> (t: Timestamp)
    ensures
        representable(t),
{
    let now = chrono::Utc::now();
    Timestamp { secs: now.timestamp(), nanos: now.timestamp_subsec_nanos() }
}

/// Calls `chrono::DateTime::from_timestamp` and writes the time it gives
/// with `to_string`. The contract names the text without describing it.
#[verifier::external_body]
fn utc_text(t: Timestamp) -> (r: Option<String>)
    ensures
        match r {
            Some(s) => timestamp_text(t.secs, t.nanos) == Some(s@),
            None => timestamp_text(t.secs, t.nanos) is None,
        },
{
    match chrono::DateTime::from_timestamp(t.secs, t.nanos) {
        Some(d) => Some(d.to_string()),
        None => None,
    }
}

/// The text under which a time is shown; empty where the time cannot be
/// represented.
pub open spec fn shown_time(t: Timestamp) -> Seq<char> {
    match timestamp_text(t.secs, t.nanos) {
        Some(s) => s,
        None => Seq::empty(),
    }
}

/// Writes a time for display.
pub fn show_time(t: Timestamp) -> (out: String)
    ensures
        out@ == shown_time(t),
{
    match utc_text(t) {
        Some(s) => s,
        None => String::new(),
    }
}

/// The current time of the system clock. Whatever the clock says, it is a
/// time that can be represented, so that `show_time` writes it out.
pub fn current_time() -> (t: Timestamp)
    ensures
        representable(t),
        shown_time(t) == timestamp_text(t.secs, t.nanos)->0,
{
    utc_now()
}

} // verus!
