//! The clock and the source of fresh identifiers.
use vstd::prelude::*;

verus! {

/// The current time in seconds since the Unix epoch (`chrono::Utc::now().timestamp()`).
/// Only the range of `chrono::DateTime<Utc>` (years -262143 to 262142) is
/// stated of the value: it is whatever the system clock reads.
#[verifier::external_body]
pub(crate) fn unix_now() -> (t: i64)
    ensures
        -crate::tokens::TIMESTAMP_BOUND <= t <= crate::tokens::TIMESTAMP_BOUND,
{
    chrono::Utc::now().timestamp()
}

/// A fresh random identifier in its hyphenated text form
/// (`uuid::Uuid::new_v4().to_string()`). The text has 36 characters: 32 hex
/// digits in groups of 8, 4, 4, 4 and 12 joined by hyphens.
#[verifier::external_body]
pub(crate) fn new_uuid_string() -> (s: String)
    ensures
        s@.len() == 36,
{
    uuid::Uuid::new_v4().to_string()
}

} // verus!
