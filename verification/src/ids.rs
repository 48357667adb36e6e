//! Identifiers and clock readings from outside the library.

use vstd::prelude::*;

use crate::game::{instant_nanos, Timestamp};

verus! {

/// A fresh random identifier: `uuid::Uuid::new_v4`, taken as its 128-bit value.
/// The value is random; nothing is stated of it.
#[verifier::external_body]
pub(crate) fn new_random_id() -> u128 {
    uuid::Uuid::new_v4().as_u128()
}

/// A reading of the system clock, as a distance from the Unix epoch and its side.
#[derive(Clone, Copy, Debug)]
pub enum ClockReading {
    /// The clock reads `secs` seconds and `nanos` nanoseconds after the epoch (or at it).
    AfterEpoch { secs: u64, nanos: u32 },
    /// The clock reads `secs` seconds and `nanos` nanoseconds before the epoch.
    BeforeEpoch { secs: u64, nanos: u32 },
}

/// The distance of a reading from the epoch in nanoseconds, negative before it.
pub open spec fn reading_nanos(r: ClockReading) -> int {
    match r {
        ClockReading::AfterEpoch { secs, nanos } => secs * 1_000_000_000 + nanos,
        ClockReading::BeforeEpoch { secs, nanos } => -(secs * 1_000_000_000 + nanos),
    }
}

/// The sub-second part of a reading is below one second.
pub open spec fn reading_well_formed(r: ClockReading) -> bool {
    match r {
        ClockReading::AfterEpoch { nanos, .. } => nanos < 1_000_000_000,
        ClockReading::BeforeEpoch { nanos, .. } => nanos < 1_000_000_000,
    }
}

/// `std::time::SystemTime::now`, measured with `duration_since(UNIX_EPOCH)`: the `Ok`
/// duration after the epoch, or the duration of the `Err` (`SystemTimeError::duration`)
/// before it. The time itself is not stated; of the durations only that their sub-second
/// nanoseconds (`Duration::subsec_nanos`) stay below one second.
#[verifier::external_body]
fn read_clock() -> (r: ClockReading)
    ensures
        reading_well_formed(r),
{
    match std::time::SystemTime::now().duration_since(std::time::UNIX_EPOCH) {
        Ok(d) => ClockReading::AfterEpoch { secs: d.as_secs(), nanos: d.subsec_nanos() },
        Err(e) => ClockReading::BeforeEpoch { secs: e.duration().as_secs(), nanos: e.duration().subsec_nanos() },
    }
}

/// The timestamp of a clock reading: the same instant, with whole seconds rounded down.
pub fn timestamp_of_reading(r: ClockReading) -> (t: Timestamp)
    requires
        reading_well_formed(r),
    ensures
        t.nanos < 1_000_000_000,
        instant_nanos(t) == reading_nanos(r),
{
    match r {
        ClockReading::AfterEpoch { secs, nanos } => Timestamp { secs: secs as i128, nanos },
        ClockReading::BeforeEpoch { secs, nanos } => {
            if nanos == 0 {
                Timestamp { secs: -(secs as i128), nanos: 0 }
            } else {
                Timestamp { secs: -(secs as i128) - 1, nanos: 1_000_000_000 - nanos }
            }
        },
    }
}

/// The current time as a timestamp; what the clock reads is not stated, only that the
/// sub-second part stays below one second.
pub(crate) fn current_time() -> (t: Timestamp)
    ensures
        t.nanos < 1_000_000_000,
{
    timestamp_of_reading(read_clock())
}

/// Lowercase hexadecimal digit of `d` (below 16).
pub open spec fn hex_digit(d: nat) -> char {
    if d < 10 {
        ('0' as u32 + d) as char
    } else {
        ('a' as u32 + (d - 10)) as char
    }
}

/// The `k`-th hexadecimal digit of `id` from the most significant one (`k < 32`).
pub open spec fn nibble(id: u128, k: nat) -> nat {
    ((id as nat) / vstd::arithmetic::power::pow(16, (31 - k) as nat) as nat) % 16
}

/// Number of hyphens before position `i` of the hyphenated notation.
pub open spec fn hyphens_before(i: int) -> int {
    if i > 23 { 4 } else if i > 18 { 3 } else if i > 13 { 2 } else if i > 8 { 1 } else { 0 }
}

/// Hyphenated lowercase notation of a UUID: 32 hexadecimal digits in groups of 8, 4, 4, 4
/// and 12, separated by hyphens.
pub open spec fn hyphenated_uuid(id: u128) -> Seq<char> {
    Seq::new(
        36,
        |i: int| if i == 8 || i == 13 || i == 18 || i == 23 {
            '-'
        } else {
            hex_digit(nibble(id, (i - hyphens_before(i)) as nat))
        },
    )
}

/// Text of an identifier as `uuid::Uuid` displays it (`Display` of `Uuid::from_u128`): the
/// hyphenated lowercase notation.
#[verifier::external_body]
pub(crate) fn uuid_text(id: u128) -> (s: String)
    ensures
        s@ == hyphenated_uuid(id),
{
    uuid::Uuid::from_u128(id).to_string()
}

/// RFC 3339 text of the instant `unix_nanos` nanoseconds after the Unix epoch (before it
/// when negative), as the `time` crate formats it, or `None` when the instant is out of its
/// range or cannot be formatted.
pub uninterp spec fn rfc3339_of(unix_nanos: i128) -> Option<Seq<char>>;

/// `time::OffsetDateTime::from_unix_timestamp_nanos`, then `format(&Rfc3339)`; the result is
/// named by `rfc3339_of`. Neither call panics: each reports failure as an `Err`.
#[verifier::external_body]
pub(crate) fn rfc3339_text(unix_nanos: i128) -> (s: Option<String>)
    ensures
        match s {
            Some(text) => rfc3339_of(unix_nanos) == Some(text@),
            None => rfc3339_of(unix_nanos) is None,
        },
{
    time::OffsetDateTime::from_unix_timestamp_nanos(unix_nanos)
        .ok()
        .and_then(|d| d.format(&time::format_description::well_known::Rfc3339).ok())
}

} // verus!
