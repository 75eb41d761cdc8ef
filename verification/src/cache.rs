//! The offset between true time and the local clock, and the cell through
//! which the tasks of a process share it.

use vstd::prelude::*;
use std::sync::Arc;
use std::sync::atomic::AtomicI64;
use std::sync::atomic::Ordering;
use crate::calendar::{
    CalendarTime, CALENDAR_LIMIT, is_calendar_second, offset_from_observation, offset_of,
    true_seconds, true_seconds_at,
};

verus! {

/// What every reading of the local clock is: a second of the calendar, not
/// before 1970.
pub open spec fn is_clock_reading(unix: int) -> bool {
    0 <= unix && is_calendar_second(unix)
}

/// `chrono::Utc::now().timestamp()`: the local clock, in whole seconds since
/// 1 January 1970. The clock decides the value; whatever it reads is not
/// before 1970 and is a second of the calendar, since `chrono` panics on a
/// clock that is set before 1970 or past its calendar.
#[verifier::external_body]
fn system_unix_seconds() -> (r: i64)
    ensures
        0 <= r < CALENDAR_LIMIT,
{
    chrono::Utc::now().timestamp()
}

/// Reads the local clock.
pub fn local_now() -> (now: CalendarTime)
    ensures
        is_clock_reading(now.unix()),
{
    CalendarTime::at_calendar_second(system_unix_seconds())
}

/// The offset between true time (in the protocol's epoch) and the local
/// clock, in seconds: one scalar, replaced whole at each observation.
///
/// A value of this type is the offset as one holder sees it. The tasks of a
/// process share one through a [`SharedTimeCache`], which hands out such
/// values and takes them back.
#[derive(Clone, Copy, Debug)]
pub struct TimeCache {
    offset: i64,
}

impl TimeCache {
    /// A cache whose first offset comes from `initial_time`, observed now.
    pub fn new(initial_time: CalendarTime) -> (cache: TimeCache)
        ensures
            exists|local: int|
                is_clock_reading(local) && cache.held_offset() == #[trigger] offset_of(
                    initial_time.unix(),
                    local,
                ),
    {
        TimeCache::new_at(initial_time, local_now())
    }

    /// A cache whose first offset comes from `initial_time`, observed when
    /// the local clock read `local_now`.
    pub fn new_at(initial_time: CalendarTime, local_now: CalendarTime) -> (cache: TimeCache)
        ensures
            cache.held_offset() == offset_of(initial_time.unix(), local_now.unix()),
    {
        TimeCache { offset: offset_from_observation(initial_time, local_now) }
    }

    /// The offset in effect.
    pub fn offset(&self) -> (offset: i64)
        ensures
            offset == self.held_offset(),
    {
        self.offset
    }

    /// The current true time: the local clock plus the offset in effect, as
    /// the protocol's 32-bit seconds.
    pub fn get_ntp_timestamp(&self) -> (seconds: u32)
        ensures
            exists|local: int|
                is_clock_reading(local) && seconds == #[trigger] true_seconds_at(
                    local,
                    self.held_offset(),
                ),
    {
        let now: CalendarTime = local_now();
        self.ntp_timestamp_at(now)
    }

    /// The true time when the local clock reads `local_now`.
    pub fn ntp_timestamp_at(&self, local_now: CalendarTime) -> (seconds: u32)
        ensures
            seconds == true_seconds_at(local_now.unix(), self.held_offset()),
    {
        true_seconds(local_now, self.offset)
    }

    /// Records that the true time is `new_time` now: the offset becomes
    /// `new_time` in the protocol's epoch minus the local clock, whatever it
    /// was before.
    pub fn update(&mut self, new_time: CalendarTime)
        ensures
            exists|local: int|
                is_clock_reading(local) && final(self).held_offset() == #[trigger] offset_of(
                    new_time.unix(),
                    local,
                ),
    {
        self.update_at(new_time, local_now())
    }

    /// Records that the true time was `new_time` when the local clock read
    /// `local_now`.
    pub fn update_at(&mut self, new_time: CalendarTime, local_now: CalendarTime)
        ensures
            final(self).held_offset() == offset_of(new_time.unix(), local_now.unix()),
    {
        self.offset = offset_from_observation(new_time, local_now);
    }

    /// The offset that the cache holds.
    pub closed spec fn held_offset(&self) -> int {
        self.offset as int
    }
}

/// The one offset of a process, shared by every handle cloned from the
/// first. The scalar is read and replaced whole, with relaxed ordering, and
/// never locked: a reader sees the offset of some observation, never parts
/// of two.
///
/// What a read returns depends on what the other holders have stored, so
/// nothing is promised of it; all that is computed from an offset is
/// computed on the [`TimeCache`] that a read hands out.
#[derive(Clone)]
pub struct SharedTimeCache {
    cell: Arc<AtomicI64>,
}

impl SharedTimeCache {
    /// Shares `cache`.
    pub fn new(cache: TimeCache) -> (shared: SharedTimeCache) {
        SharedTimeCache { cell: Arc::new(AtomicI64::new(cache.offset())) }
    }

    /// The cache as it stands now.
    pub fn load(&self) -> (cache: TimeCache) {
        TimeCache { offset: self.cell.load(Ordering::Relaxed) }
    }

    /// Replaces the shared offset by that of `cache`.
    pub fn store(&self, cache: TimeCache) {
        self.cell.store(cache.offset(), Ordering::Relaxed)
    }
}

} // verus!
