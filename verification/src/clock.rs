//! The outside sources of time, chance and identifiers that the library reads.
//! Nothing is promised of what they return: the functions that call them say
//! what holds whatever came back.
use vstd::prelude::*;
use rand::Rng;
use rand::RngCore;

verus! {

/// The bound on the magnitude of any UNIX time that a `chrono::DateTime`
/// can hold: its years lie between -262143 and 262142.
pub open spec fn time_bound() -> int {
    10_000_000_000_000
}

/// The current UNIX time in whole seconds, read through `chrono::Utc::now` and
/// `DateTime::timestamp`. Its value depends on the clock; the contract claims
/// only what holds of every `DateTime`: it lies within `time_bound()`.
#[verifier::external_body]
pub(crate) fn now_timestamp() -> (r: i64)
    ensures
        -time_bound() <= r <= time_bound(),
{
    chrono::Utc::now().timestamp()
}

/// A random index below `bound`, drawn through `rand::Rng::gen_range` on the
/// thread-local generator; `gen_range` panics on an empty range, so `bound` is
/// positive. The contract claims only that the index lies in `0..bound`.
#[verifier::external_body]
pub(crate) fn random_below(bound: usize) -> (r: usize)
    requires
        bound > 0,
    ensures
        r < bound,
{
    rand::thread_rng().gen_range(0..bound)
}

/// A random byte, drawn through `rand::Rng::gen` on the thread-local generator.
#[verifier::external_body]
pub(crate) fn random_byte() -> u8 {
    rand::thread_rng().gen::<u8>()
}

/// Thirty-two random bytes, filled through `rand::RngCore::fill_bytes` on the
/// thread-local generator. Only the length is claimed.
#[verifier::external_body]
pub(crate) fn random_key() -> (r: [u8; 32])
    ensures
        r@.len() == 32,
{
    let mut key = [0u8; 32];
    rand::thread_rng().fill_bytes(&mut key);
    key
}

/// A fresh version 4 UUID in its hyphenated text form, through
/// `uuid::Uuid::new_v4` and its `Display`. The text form is 36 characters long;
/// nothing is claimed of the characters.
#[verifier::external_body]
pub(crate) fn new_uuid() -> (r: String)
    ensures
        r@.len() == 36,
{
    uuid::Uuid::new_v4().to_string()
}

} // verus!
