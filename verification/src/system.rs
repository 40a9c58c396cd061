//! What the library takes from the machine it runs on: fresh identifiers and the time.
//!
//! The functions here are not verified. Their contracts state only what holds of every
//! result.

use vstd::prelude::*;

verus! {

/// A fresh random identifier: `uuid::Uuid::new_v4`, written out by `to_string`.
///
/// Nothing is claimed of which identifier comes back, only its length: `Uuid` displays in the
/// hyphenated form, 32 hexadecimal digits and 4 hyphens. The call panics where the machine
/// gives no random bytes.
#[verifier::external_body]
pub(crate) fn fresh_id() -> (r: String)
    ensures
        r@.len() == 36,
{
    uuid::Uuid::new_v4().to_string()
}

/// The seconds since the Unix epoch, by `chrono::Utc::now` and `DateTime::timestamp`.
///
/// Nothing is claimed of the result. The call panics where the clock stands before the
/// epoch.
#[verifier::external_body]
pub(crate) fn unix_now() -> i64 {
    chrono::Utc::now().timestamp()
}

} // verus!
