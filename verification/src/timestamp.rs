//! The instant of a capture: one reading of the wall clock, from which both the
//! number in a file's name and the text drawn on the frame are derived.

use vstd::prelude::*;

verus! {

/// Number of seconds in a day. A time zone is less than a day away from UTC.
pub const DAY_SECONDS: i32 = 86_400;

/// What the wall clock showed when it was read.
#[derive(Clone, Copy, Debug, PartialEq, Eq)]
pub struct ClockReading {
    /// Nanoseconds since the Unix epoch; `None` where the count does not fit 64 bits.
    pub nanos: Option<i64>,
    /// Seconds by which local time is ahead of UTC.
    pub offset_seconds: i32,
}

/// A point in time and the zone in which it is read.
#[derive(Clone, Copy, Debug, PartialEq, Eq)]
pub struct Moment {
    /// Nanoseconds since the Unix epoch.
    pub nanos: i64,
    /// Seconds by which local time is ahead of UTC.
    pub offset_seconds: i32,
}

/// Whether a zone can be so far ahead of UTC.
pub open spec fn zone_exists(offset_seconds: i32) -> bool {
    -DAY_SECONDS < offset_seconds < DAY_SECONDS
}

/// The moment that a reading of the clock stands for, where it stands for one.
pub open spec fn moment_of(reading: ClockReading) -> Option<Moment> {
    match reading.nanos {
        Some(nanos) if zone_exists(reading.offset_seconds) => Some(
            Moment { nanos, offset_seconds: reading.offset_seconds },
        ),
        _ => None,
    }
}

/// The reading of a clock that was not looked at: it stands for no moment.
pub open spec fn unread() -> ClockReading {
    ClockReading { nanos: None, offset_seconds: 0 }
}

/// The RFC 2822 text of a moment, such as `Tue, 1 Jul 2003 10:52:37 +0200`:
/// the date and time `nanos` nanoseconds after the Unix epoch as seen
/// `offset_seconds` ahead of UTC, followed by that offset.
pub uninterp spec fn rfc2822_text(nanos: i64, offset_seconds: i32) -> Seq<char>;

/// Reads the wall clock with chrono's `Local::now` and takes from the value its
/// `timestamp_nanos_opt` and the `local_minus_utc` of its offset.
///
/// Nothing is claimed of the time that is read. The offset is that of a
/// `FixedOffset`, which chrono makes only of offsets strictly within a day of
/// UTC. `Local::now` does not return where the system's clock is set before
/// 1970 or the local zone cannot be found out.
#[verifier::external_body]
pub(crate) fn read_clock() -> (reading: ClockReading)
    ensures
        zone_exists(reading.offset_seconds),
{
    let now = chrono::Local::now();
    ClockReading {
        nanos: now.timestamp_nanos_opt(),
        offset_seconds: now.offset().local_minus_utc(),
    }
}

/// Formats a moment with chrono's `DateTime::to_rfc2822`, on the `DateTime`
/// that `TimeZone::timestamp_nanos` builds in the `FixedOffset` that
/// `FixedOffset::east_opt` gives for `offset_seconds`.
///
/// The text depends on the two arguments alone; the contract gives it its name
/// and says nothing more of it. `east_opt` accepts exactly the offsets that the
/// precondition admits, and every moment that fits 64 bits of nanoseconds
/// lies in a year of four digits, which is all that `to_rfc2822` asks for.
#[verifier::external_body]
fn rfc2822_label(nanos: i64, offset_seconds: i32) -> (label: String)
    requires
        zone_exists(offset_seconds),
    ensures
        label@ == rfc2822_text(nanos, offset_seconds),
{
    let zone = chrono::FixedOffset::east_opt(offset_seconds).unwrap();
    chrono::TimeZone::timestamp_nanos(&zone, nanos).to_rfc2822()
}

/// The moment at which a frame was accepted. It is taken from the clock once;
/// the number for the file's name and the text for the frame both come from it.
#[derive(Clone, Copy, Debug, PartialEq, Eq)]
pub struct CaptureTimestamp {
    nanos: i64,
    offset_seconds: i32,
}

impl View for CaptureTimestamp {
    type V = Moment;

    closed spec fn view(&self) -> Moment {
        Moment { nanos: self.nanos, offset_seconds: self.offset_seconds }
    }
}

impl CaptureTimestamp {
    #[verifier::type_invariant]
    spec fn in_a_zone(self) -> bool {
        zone_exists(self.offset_seconds)
    }

    /// The text drawn on the frame.
    pub open spec fn label_text(self) -> Seq<char> {
        rfc2822_text(self@.nanos, self@.offset_seconds)
    }

    /// The timestamp of a moment, unless no zone is `offset_seconds` ahead of UTC.
    pub fn new(nanos: i64, offset_seconds: i32) -> (stamp: Option<CaptureTimestamp>)
        ensures
            stamp is Some <==> zone_exists(offset_seconds),
            stamp matches Some(t) ==> t@ == (Moment { nanos, offset_seconds }),
    {
        if -DAY_SECONDS < offset_seconds && offset_seconds < DAY_SECONDS {
            Some(CaptureTimestamp { nanos, offset_seconds })
        } else {
            None
        }
    }

    /// The timestamp that a reading of the clock stands for, where it stands for one.
    pub fn from_reading(reading: ClockReading) -> (stamp: Option<CaptureTimestamp>)
        ensures
            stamp is Some <==> moment_of(reading) is Some,
            stamp matches Some(t) ==> moment_of(reading) == Some(t@),
    {
        match reading.nanos {
            Some(nanos) => CaptureTimestamp::new(nanos, reading.offset_seconds),
            None => None,
        }
    }

    /// Nanoseconds since the Unix epoch.
    pub fn nanos(&self) -> (nanos: i64)
        ensures
            nanos == self@.nanos,
    {
        self.nanos
    }

    /// Seconds by which the zone of the moment is ahead of UTC.
    pub fn offset_seconds(&self) -> (offset_seconds: i32)
        ensures
            offset_seconds == self@.offset_seconds,
            zone_exists(offset_seconds),
    {
        proof {
            use_type_invariant(self);
        }
        self.offset_seconds
    }

    /// The text of the moment for the human eye.
    pub fn label(&self) -> (label: String)
        ensures
            label@ == self.label_text(),
    {
        proof {
            use_type_invariant(self);
        }
        rfc2822_label(self.nanos, self.offset_seconds)
    }
}

} // verus!
