use vstd::prelude::*;

use crate::error::SysError;

verus! {

/// Nanoseconds in one second.
pub const NANOS_PER_SEC: u128 = 1_000_000_000;

/// A span of time, counted in nanoseconds: the time of a clock, or the
/// distance between two such times.
#[derive(Debug, Clone, Copy, PartialEq, Eq, Structural)]
pub struct TimeSpan {
    pub nanos: u128,
}

impl TimeSpan {
    /// The span of `secs` seconds and `nanos` nanoseconds, nanoseconds
    /// of a second or more carrying into the seconds.
    pub fn new(secs: u64, nanos: u32) -> (t: TimeSpan)
        ensures
            t.nanos == secs * NANOS_PER_SEC + nanos,
    {
        TimeSpan { nanos: (secs as u128) * NANOS_PER_SEC + (nanos as u128) }
    }

    /// The span of `millis` milliseconds.
    pub fn from_millis(millis: u64) -> (t: TimeSpan)
        ensures
            t.nanos == millis * 1_000_000,
    {
        TimeSpan { nanos: (millis as u128) * 1_000_000 }
    }

    /// The time that a `timespec` read from the clock stands for: its
    /// nanosecond field is taken as unsigned, as the clock hands it over.
    pub fn from_timespec(tv_sec: u32, tv_nsec: i32) -> (t: TimeSpan)
        ensures
            t.nanos == tv_sec * NANOS_PER_SEC + (tv_nsec as u32),
    {
        Self::new(tv_sec as u64, tv_nsec as u32)
    }

    /// Whole seconds of the span.
    pub fn whole_secs(&self) -> (s: u128)
        ensures
            s == self.nanos / NANOS_PER_SEC,
    {
        self.nanos / NANOS_PER_SEC
    }

    /// Nanoseconds of the span beyond its whole seconds.
    pub fn subsec_nanos(&self) -> (n: u32)
        ensures
            n == self.nanos % NANOS_PER_SEC,
            n < NANOS_PER_SEC,
    {
        (self.nanos % NANOS_PER_SEC) as u32
    }

    /// The `timespec` that sets a clock to this time: the whole seconds
    /// cut to 32 bits, and the nanoseconds beyond them.
    pub fn to_timespec(&self) -> (ts: (u32, i32))
        ensures
            ts.0 == (self.nanos / NANOS_PER_SEC) as u32,
            ts.1 == self.nanos % NANOS_PER_SEC,
    {
        let secs: u128 = self.whole_secs();
        let nanos: u32 = self.subsec_nanos();
        (secs as u32, nanos as i32)
    }

    /// The span from `earlier` to `self`.
    pub fn since(&self, earlier: &TimeSpan) -> (d: TimeSpan)
        requires
            earlier.nanos <= self.nanos,
        ensures
            d.nanos == self.nanos - earlier.nanos,
            d.nanos + earlier.nanos == self.nanos,
    {
        TimeSpan { nanos: self.nanos - earlier.nanos }
    }

    /// Whether `self` is longer than `other`.
    pub fn longer_than(&self, other: &TimeSpan) -> (b: bool)
        ensures
            b == (self.nanos > other.nanos),
    {
        self.nanos > other.nanos
    }
}

/// A clock of the system, held by its identifier.
pub struct Clock(i32);

impl Clock {
    /// The identifier of the clock.
    pub closed spec fn clock_id(&self) -> i32 {
        self.0
    }

    /// The clock with identifier `id`.
    pub fn new(id: i32) -> (c: Clock)
        ensures
            c.clock_id() == id,
    {
        Clock(id)
    }

    /// The clock's identifier.
    pub fn id(&self) -> (id: i32)
        ensures
            id == self.clock_id(),
    {
        self.0
    }

    /// What reading the clock gives from the status and the `timespec`
    /// that `clock_gettime` returned.
    pub fn reading(err: i32, tv_sec: u32, tv_nsec: i32) -> (res: Result<TimeSpan, SysError>)
        ensures
            err < 0 ==> res == Err::<TimeSpan, SysError>(SysError::ClockGetFailed),
            err >= 0 ==> res == Ok::<TimeSpan, SysError>(
                TimeSpan { nanos: (tv_sec * NANOS_PER_SEC + (tv_nsec as u32)) as u128 },
            ),
    {
        if err < 0 {
            return Err(SysError::ClockGetFailed);
        }
        Ok(TimeSpan::from_timespec(tv_sec, tv_nsec))
    }

    /// What setting the clock gives from the status that `clock_settime`
    /// returned.
    pub fn set_status(err: i32) -> (res: Result<(), SysError>)
        ensures
            err < 0 ==> res == Err::<(), SysError>(SysError::ClockSetFailed),
            err >= 0 ==> res is Ok,
    {
        if err < 0 {
            return Err(SysError::ClockSetFailed);
        }
        Ok(())
    }
}

/// Setting a clock to a time and reading the clock back at once gives
/// that time, for every time whose whole seconds fit the clock's 32 bits.
pub proof fn lemma_timespec_round_trip(t: TimeSpan)
    requires
        t.nanos / NANOS_PER_SEC <= u32::MAX,
    ensures
        ({
            let secs = (t.nanos / NANOS_PER_SEC) as u32;
            let nsec = (t.nanos % NANOS_PER_SEC) as i32;
            secs * NANOS_PER_SEC + (nsec as u32) == t.nanos
        }),
{
}

} // verus!
