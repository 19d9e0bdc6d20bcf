//! The wall clock and the text of a point in time.

use crate::actions::parser::option_view;
use vstd::prelude::*;

verus! {

/// The time since the Unix epoch in whole seconds and the nanoseconds
/// beyond them, read with `SystemTime::now`; zero where the clock stands
/// before the epoch. Nothing is claimed of the value.
#[verifier::external_body]
pub(crate) fn now_since_epoch() -> (u64, u32) {
    match std::time::SystemTime::now().duration_since(std::time::UNIX_EPOCH) {
        Ok(d) => (d.as_secs(), d.subsec_nanos()),
        Err(_) => (0, 0),
    }
}

/// The current time in seconds since the Unix epoch.
pub fn current_timestamp() -> u64 {
    now_since_epoch().0
}

/// The text that chrono writes, after RFC 3339, for the point in time
/// `secs` seconds and `nanos` nanoseconds after the Unix epoch, in UTC; none
/// where chrono has no such point in time.
pub uninterp spec fn rfc3339_text(secs: i64, nanos: u32) -> Option<Seq<char>>;

/// Calls `chrono::DateTime::from_timestamp` and, on the point in time it
/// gives, `to_rfc3339`. The result is a function of the two numbers alone.
#[verifier::external_body]
fn rfc3339(secs: i64, nanos: u32) -> (r: Option<String>)
    ensures
        option_view(r) == rfc3339_text(secs, nanos),
{
    chrono::DateTime::from_timestamp(secs, nanos).map(|t| t.to_rfc3339())
}

/// The text of the point in time `secs` seconds and `nanos` nanoseconds
/// after the Unix epoch: as chrono writes it, and empty where chrono has no
/// such point in time.
pub open spec fn stamp(secs: u64, nanos: u32) -> Seq<char> {
    if secs <= i64::MAX {
        match rfc3339_text(secs as i64, nanos) {
            Some(t) => t,
            None => Seq::empty(),
        }
    } else {
        Seq::empty()
    }
}

/// The text of a point in time.
pub fn timestamp_text(secs: u64, nanos: u32) -> (r: String)
    ensures
        r@ == stamp(secs, nanos),
{
    if secs <= 0x7fff_ffff_ffff_ffffu64 {
        match rfc3339(secs as i64, nanos) {
            Some(t) => t,
            None => String::new(),
        }
    } else {
        String::new()
    }
}

/// The text of the current time: the text of some point in time.
pub fn now_text() -> (r: String)
    ensures
        exists|secs: u64, nanos: u32| r@ == stamp(secs, nanos),
{
    let (secs, nanos) = now_since_epoch();
    timestamp_text(secs, nanos)
}

} // verus!
