//! The clock and the random sources that the services draw on.

use rand::Rng;
use vstd::prelude::*;

verus! {

/// The current time in whole seconds since the Unix epoch.
///
/// Calls `chrono::Utc::now().timestamp()`. The value depends on the clock,
/// so nothing is stated of it.
#[verifier::external_body]
pub(crate) fn unix_now() -> i64 {
    chrono::Utc::now().timestamp()
}

/// A random number in `low .. high`.
///
/// Calls `rand::Rng::gen_range` on `rand::thread_rng()`; rand documents the
/// result to lie in `[low, high)` and to panic when `low >= high`.
#[verifier::external_body]
pub(crate) fn random_in_range(low: u32, high: u32) -> (n: u32)
    requires
        low < high,
    ensures
        low <= n < high,
{
    rand::thread_rng().gen_range(low, high)
}

/// A lower-case hexadecimal digit.
pub open spec fn is_lower_hex(c: char) -> bool {
    ('0' <= c && c <= '9') || ('a' <= c && c <= 'f')
}

/// The hyphenated text of a UUID: 32 lower-case hexadecimal digits in
/// groups of 8, 4, 4, 4 and 12, separated by `-`.
pub open spec fn is_uuid_text(s: Seq<char>) -> bool {
    &&& s.len() == 36
    &&& forall|i: int|
        0 <= i < 36 ==> if i == 8 || i == 13 || i == 18 || i == 23 {
            s[i] == '-'
        } else {
            is_lower_hex(#[trigger] s[i])
        }
}

/// The text of a fresh random (version 4) UUID.
///
/// Calls `uuid::Uuid::new_v4` and its `Display`, which uuid writes as the
/// hyphenated lower-case form; which UUID comes out is left to chance.
#[verifier::external_body]
pub(crate) fn new_uuid_text() -> (s: String)
    ensures
        is_uuid_text(s@),
{
    uuid::Uuid::new_v4().to_string()
}

} // verus!
