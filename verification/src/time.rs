//! Points in time, as seconds and nanoseconds since the Unix epoch (UTC).

use vstd::prelude::*;

verus! {

/// Smallest second that a calendar date can carry (January 1, 262144 BCE,
/// which is astronomical year -262143).
pub const MIN_SECS: i64 = -8_334_601_315_200i64;

/// Largest second that a calendar date can carry (December 31, 262142 CE, 23:59:59).
pub const MAX_SECS: i64 = 8_210_266_876_799i64;

/// Nanoseconds in one second.
pub const NANOS_PER_SEC: i64 = 1_000_000_000i64;

/// A UTC instant: whole seconds since 1970-01-01T00:00:00Z and the
/// nanoseconds into that second.
#[derive(Clone, Copy, Debug, PartialEq, Eq, Structural)]
pub struct Timestamp {
    pub secs: i64,
    pub nanos: u32,
}

impl Timestamp {
    /// The instant lies in the calendar range and carries no leap second.
    pub open spec fn valid(self) -> bool {
        &&& MIN_SECS <= self.secs <= MAX_SECS
        &&& self.nanos < NANOS_PER_SEC
    }

    /// Nanoseconds since the epoch.
    pub open spec fn total_nanos(self) -> int {
        self.secs * NANOS_PER_SEC + self.nanos
    }

    pub fn new(secs: i64, nanos: u32) -> (t: Timestamp)
        ensures
            t.secs == secs,
            t.nanos == nanos,
    {
        Timestamp { secs, nanos }
    }
}

/// Truncating division (rounds toward zero), as integer division does in Rust.
pub open spec fn div_toward_zero(a: int, b: int) -> int
    recommends
        b > 0,
{
    if a >= 0 {
        a / b
    } else {
        -((-a) / b)
    }
}

/// Whole seconds from `earlier` to `later`, rounded toward zero; negative when
/// `later` is before `earlier`.
pub open spec fn whole_seconds_between(later: Timestamp, earlier: Timestamp) -> int {
    div_toward_zero(later.total_nanos() - earlier.total_nanos(), NANOS_PER_SEC as int)
}

/// Whole seconds elapsed from `earlier` to `later`, rounded toward zero.
pub fn seconds_between(later: Timestamp, earlier: Timestamp) -> (r: i64)
    requires
        later.valid(),
        earlier.valid(),
    ensures
        r == whole_seconds_between(later, earlier),
{
    let diff: i128 = (later.secs as i128 - earlier.secs as i128) * 1_000_000_000i128
        + (later.nanos as i128 - earlier.nanos as i128);
    let q: i128 = if diff >= 0 {
        diff / 1_000_000_000i128
    } else {
        -((-diff) / 1_000_000_000i128)
    };
    assert(-20_000_000_000_000i128 <= q <= 20_000_000_000_000i128);
    q as i64
}

/// Where the system clock stands relative to the Unix epoch: a whole
/// number of seconds and nanoseconds after it, or before it.
#[derive(Clone, Copy, Debug, PartialEq, Eq, Structural)]
pub enum ClockReading {
    AtOrAfterEpoch { secs: u64, nanos: u32 },
    BeforeEpoch { secs: u64, nanos: u32 },
}

impl ClockReading {
    /// The nanoseconds are below one second, as in every `Duration`.
    pub open spec fn well_formed(self) -> bool {
        match self {
            ClockReading::AtOrAfterEpoch { nanos, .. } => nanos < NANOS_PER_SEC,
            ClockReading::BeforeEpoch { nanos, .. } => nanos < NANOS_PER_SEC,
        }
    }
}

/// The instant a clock reading stands for, held to the calendar range: a
/// reading past the last representable instant gives that instant, one
/// before the first gives the first.
pub open spec fn reading_instant(r: ClockReading) -> Timestamp {
    match r {
        ClockReading::AtOrAfterEpoch { secs, nanos } => if secs > MAX_SECS {
            Timestamp { secs: MAX_SECS, nanos: 999_999_999 }
        } else {
            Timestamp { secs: secs as i64, nanos }
        },
        ClockReading::BeforeEpoch { secs, nanos } => if secs >= -MIN_SECS {
            Timestamp { secs: MIN_SECS, nanos: 0 }
        } else if nanos == 0 {
            Timestamp { secs: (-secs) as i64, nanos: 0 }
        } else {
            Timestamp { secs: (-secs - 1) as i64, nanos: (NANOS_PER_SEC - nanos) as u32 }
        },
    }
}

/// A reading in the calendar range stands for exactly the instant read: as
/// many nanoseconds after (or before) the epoch as the reading says.
pub proof fn lemma_reading_instant(r: ClockReading)
    requires
        r.well_formed(),
    ensures
        reading_instant(r).valid(),
        match r {
            ClockReading::AtOrAfterEpoch { secs, nanos } => secs <= MAX_SECS
                ==> reading_instant(r).total_nanos() == secs * NANOS_PER_SEC + nanos,
            ClockReading::BeforeEpoch { secs, nanos } => secs < -MIN_SECS
                ==> reading_instant(r).total_nanos() == -(secs * NANOS_PER_SEC + nanos),
        },
{
}

impl Timestamp {
    /// The instant that the clock reading `r` stands for.
    pub fn from_clock_reading(r: ClockReading) -> (t: Timestamp)
        requires
            r.well_formed(),
        ensures
            t == reading_instant(r),
            t.valid(),
    {
        match r {
            ClockReading::AtOrAfterEpoch { secs, nanos } => if secs > 8_210_266_876_799u64 {
                Timestamp { secs: MAX_SECS, nanos: 999_999_999 }
            } else {
                Timestamp { secs: secs as i64, nanos }
            },
            ClockReading::BeforeEpoch { secs, nanos } => if secs >= 8_334_601_315_200u64 {
                Timestamp { secs: MIN_SECS, nanos: 0 }
            } else if nanos == 0 {
                Timestamp { secs: -(secs as i64), nanos: 0 }
            } else {
                Timestamp { secs: -(secs as i64) - 1, nanos: 1_000_000_000u32 - nanos }
            },
        }
    }
}

#[verifier::external_type_specification]
#[verifier::external_body]
pub struct ExSystemTime(std::time::SystemTime);

/// Reads the system clock.
///
/// Calls `std::time::SystemTime::now`. Nothing is claimed of the reading.
#[verifier::external_body]
fn system_time_now() -> std::time::SystemTime {
    std::time::SystemTime::now()
}

/// Where `t` stands relative to the Unix epoch.
///
/// Calls `SystemTime::duration_since(UNIX_EPOCH)`, which gives the time
/// after the epoch, or, as its error, the time before it; either is a
/// `Duration`, taken apart into whole seconds and the nanoseconds beyond
/// them. Claimed: those nanoseconds are below one second, as
/// `Duration::subsec_nanos` documents. The reading itself is not stated.
#[verifier::external_body]
fn offset_from_epoch(t: &std::time::SystemTime) -> (r: ClockReading)
    ensures
        r.well_formed(),
{
    match t.duration_since(std::time::UNIX_EPOCH) {
        Ok(d) => ClockReading::AtOrAfterEpoch { secs: d.as_secs(), nanos: d.subsec_nanos() },
        Err(e) => ClockReading::BeforeEpoch {
            secs: e.duration().as_secs(),
            nanos: e.duration().subsec_nanos(),
        },
    }
}

/// The current time, as the system clock gives it, held to the calendar range.
pub(crate) fn current_time() -> (t: Timestamp)
    ensures
        t.valid(),
{
    let now = system_time_now();
    Timestamp::from_clock_reading(offset_from_epoch(&now))
}

} // verus!
