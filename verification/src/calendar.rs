//! Calendar seconds, the two epochs, and the offset arithmetic.

use vstd::prelude::*;

verus! {

/// Seconds from 1 January 1900 (the protocol's epoch) to 1 January 1970.
pub const NTP_EPOCH_OFFSET: i64 = 2_208_988_800;

/// Every calendar second lies strictly within this many seconds of
/// 1 January 1970: the calendar of `chrono` spans the years -262143 to
/// 262142, which is less than 2^43 seconds either way.
pub const CALENDAR_LIMIT: i64 = 8_796_093_022_208;

/// The modulus of the protocol's 32-bit seconds field.
pub const SECONDS_MODULUS: i64 = 0x1_0000_0000;

/// Whether `unix` seconds since 1 January 1970 name a second of the calendar.
pub open spec fn is_calendar_second(unix: int) -> bool {
    -CALENDAR_LIMIT < unix < CALENDAR_LIMIT
}

/// The protocol-epoch count of the second that is `unix` seconds after
/// 1 January 1970.
pub open spec fn ntp_seconds_of(unix: int) -> int {
    unix + NTP_EPOCH_OFFSET
}

/// The offset learned when the true time was `true_unix` while the local
/// clock read `local_unix`: true time in the protocol's epoch minus the
/// local clock.
pub open spec fn offset_of(true_unix: int, local_unix: int) -> int {
    ntp_seconds_of(true_unix) - local_unix
}

/// The 32-bit seconds value served when the local clock reads `local_unix`
/// and the offset is `offset`: their sum, modulo 2^32.
pub open spec fn true_seconds_at(local_unix: int, offset: int) -> int {
    (local_unix + offset) % (SECONDS_MODULUS as int)
}

/// A calendar instant at one-second resolution, as seconds since
/// 1 January 1970 UTC.
#[derive(Clone, Copy, Debug, PartialEq, Eq, Structural)]
pub struct CalendarTime {
    unix_seconds: i64,
}

impl CalendarTime {
    #[verifier::type_invariant]
    spec fn within_calendar(self) -> bool {
        is_calendar_second(self.unix_seconds as int)
    }

    /// Seconds since 1 January 1970 UTC.
    pub closed spec fn unix(self) -> int {
        self.unix_seconds as int
    }

    /// The instant `unix` seconds after 1 January 1970, if the calendar
    /// has such a second.
    pub fn from_unix_seconds(unix: i64) -> (r: Option<CalendarTime>)
        ensures
            r is Some <==> is_calendar_second(unix as int),
            r matches Some(t) ==> t.unix() == unix,
    {
        if -CALENDAR_LIMIT < unix && unix < CALENDAR_LIMIT {
            Some(CalendarTime { unix_seconds: unix })
        } else {
            None
        }
    }

    /// The instant `unix` seconds after 1 January 1970, for a second that
    /// is known to be of the calendar.
    pub(crate) fn at_calendar_second(unix: i64) -> (t: CalendarTime)
        requires
            is_calendar_second(unix as int),
        ensures
            t.unix() == unix,
    {
        CalendarTime { unix_seconds: unix }
    }

    /// Seconds since 1 January 1970 UTC.
    pub fn unix_seconds(&self) -> (r: i64)
        ensures
            r == self.unix(),
            is_calendar_second(r as int),
    {
        proof {
            use_type_invariant(self);
        }
        self.unix_seconds
    }

    /// Seconds since 1 January 1900 UTC.
    pub fn ntp_seconds(&self) -> (r: i64)
        ensures
            r == ntp_seconds_of(self.unix()),
            is_calendar_second(r - NTP_EPOCH_OFFSET),
    {
        proof {
            use_type_invariant(self);
        }
        self.unix_seconds + NTP_EPOCH_OFFSET
    }
}

/// The offset to store after observing `true_time` while the local clock
/// read `local_now`.
pub fn offset_from_observation(true_time: CalendarTime, local_now: CalendarTime) -> (r: i64)
    ensures
        r == offset_of(true_time.unix(), local_now.unix()),
{
    let ntp_now: i64 = true_time.ntp_seconds();
    let system_now: i64 = local_now.unix_seconds();
    ntp_now - system_now
}

/// The seconds value to serve when the local clock reads `local_now` and the
/// stored offset is `offset`. The sum wraps modulo 2^32; any offset is
/// accepted.
pub fn true_seconds(local_now: CalendarTime, offset: i64) -> (r: u32)
    ensures
        r == true_seconds_at(local_now.unix(), offset as int),
{
    let system_now: i64 = local_now.unix_seconds();
    let sum: i128 = system_now as i128 + offset as i128;
    // 2^64 is a multiple of the modulus and lifts every sum above zero.
    let lifted: i128 = sum + 0x1_0000_0000_0000_0000i128;
    let low: u128 = (lifted as u128) % 0x1_0000_0000u128;
    low as u32
}

/// A read made `elapsed` seconds of local clock after an observation of
/// `true_unix` serves the observed time in the protocol's epoch plus the
/// elapsed seconds, modulo 2^32, whatever the local clock read at the
/// observation.
pub proof fn lemma_read_after_observation(true_unix: int, local_unix: int, elapsed: int)
    ensures
        true_seconds_at(local_unix + elapsed, offset_of(true_unix, local_unix)) == (ntp_seconds_of(
            true_unix,
        ) + elapsed) % (SECONDS_MODULUS as int),
{
}

/// While the observed time and the read both fit the 32-bit field, a read
/// made at most one second after the observation is the observed time plus
/// what elapsed, so at most one second past the observed time.
pub proof fn lemma_read_within_a_second(true_unix: int, local_unix: int, elapsed: int)
    requires
        0 <= elapsed <= 1,
        0 <= ntp_seconds_of(true_unix),
        ntp_seconds_of(true_unix) + elapsed < SECONDS_MODULUS,
    ensures
        true_seconds_at(local_unix + elapsed, offset_of(true_unix, local_unix)) == ntp_seconds_of(
            true_unix,
        ) + elapsed,
        ntp_seconds_of(true_unix) <= true_seconds_at(
            local_unix + elapsed,
            offset_of(true_unix, local_unix),
        ) <= ntp_seconds_of(true_unix) + 1,
{
}

/// With the offset unchanged, a read made `elapsed` seconds later is the
/// earlier read plus `elapsed`, modulo 2^32.
pub proof fn lemma_reads_follow_the_clock(local_unix: int, offset: int, elapsed: int)
    ensures
        true_seconds_at(local_unix + elapsed, offset) == (true_seconds_at(local_unix, offset)
            + elapsed) % (SECONDS_MODULUS as int),
{
}

/// With the offset unchanged, and short of the field's rollover, a later
/// read is larger by exactly the seconds that passed: reads never go back.
pub proof fn lemma_reads_increase(local_unix: int, offset: int, elapsed: int)
    requires
        0 <= elapsed,
        true_seconds_at(local_unix, offset) + elapsed < SECONDS_MODULUS,
    ensures
        true_seconds_at(local_unix + elapsed, offset) == true_seconds_at(local_unix, offset)
            + elapsed,
        true_seconds_at(local_unix + elapsed, offset) >= true_seconds_at(local_unix, offset),
{
}

} // verus!
