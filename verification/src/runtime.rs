//! Randomness and wall-clock time, taken from outside crates.

use vstd::prelude::*;

verus! {

/// Relies on `rand::random_range` over `0..n`: the result lies in the given
/// range.  Nothing more is promised of a random value.
#[verifier::external_body]
pub fn random_index(n: usize) -> (r: usize)
    requires
        0 < n,
    ensures
        r < n,
{
    rand::random_range(0..n)
}

/// Relies on chrono's `Utc::now`: seconds since the Unix epoch, read from
/// the machine's clock.  Nothing is promised of the value.
#[verifier::external_body]
pub fn current_timestamp() -> i64 {
    chrono::Utc::now().timestamp()
}

/// Relies on chrono's `DateTime::from_timestamp` and its formatting in the
/// machine's local time zone.  The text depends on that time zone, so
/// nothing is promised of it.
#[verifier::external_body]
pub fn format_local_timestamp(ts: i64) -> String {
    match chrono::DateTime::from_timestamp(ts, 0) {
        Some(t) => t.with_timezone(&chrono::Local).format("%F %r").to_string(),
        None => String::new(),
    }
}

} // verus!
