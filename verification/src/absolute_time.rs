//! Turning instants of the monotonic clock into points of wall-clock time.
//!
//! All times are whole nanoseconds. A bridge is calibrated once, from one
//! reading of both clocks; every conversion after that adds the same offset.

use vstd::prelude::*;

verus! {

/// One reading of the clocks: the monotonic clock, and the wall clock where the
/// machine has one (nanoseconds since the Unix epoch).
#[derive(Clone, Copy, Debug, PartialEq, Eq)]
pub struct ClockReading {
    pub monotonic: u64,
    pub wall: Option<u64>,
}

/// A point in time. With `relative_only` set it counts from the origin of the
/// monotonic clock, otherwise from the Unix epoch.
#[derive(Clone, Copy, Debug, PartialEq, Eq)]
pub struct AbsoluteTime {
    pub nanos: i128,
    pub relative_only: bool,
}

/// The offset between the two clocks, fixed by the one reading of them that
/// it was taken from.
#[derive(Clone, Copy, Debug, PartialEq, Eq)]
pub struct Calibration {
    /// The reading that the offset was taken from.
    pub reference: ClockReading,
}

/// The offset that a reading yields: wall clock minus monotonic clock, or zero
/// where there is no wall clock.
pub open spec fn reading_offset(now: ClockReading) -> int {
    match now.wall {
        Some(wall) => wall - now.monotonic,
        None => 0,
    }
}

impl Calibration {
    /// The nanoseconds to add to a monotonic instant.
    pub open spec fn offset_nanos(&self) -> int {
        reading_offset(self.reference)
    }

    /// Whether converted times stay on the monotonic clock.
    pub open spec fn is_relative_only(&self) -> bool {
        self.reference.wall is None
    }

    /// The calibration that the reading `now` yields.
    pub open spec fn of(now: ClockReading) -> Calibration {
        Calibration { reference: now }
    }

    /// Takes the offset from one reading of both clocks. Without a wall clock
    /// the offset is zero and the result is marked relative-only.
    pub fn from_reading(now: ClockReading) -> (calibration: Self)
        ensures
            calibration == Self::of(now),
    {
        Calibration { reference: now }
    }

    /// The offset in nanoseconds.
    pub fn offset(&self) -> (offset: i128)
        ensures
            offset == self.offset_nanos(),
    {
        match self.reference.wall {
            Some(wall) => wall as i128 - self.reference.monotonic as i128,
            None => 0,
        }
    }

    /// Whether converted times stay on the monotonic clock.
    pub fn relative_only(&self) -> (flag: bool)
        ensures
            flag == self.is_relative_only(),
    {
        self.reference.wall.is_none()
    }

    /// Converts a monotonic instant: the instant plus the offset.
    pub fn to_absolute(&self, instant: u64) -> (time: AbsoluteTime)
        ensures
            time.nanos == instant + self.offset_nanos(),
            time.relative_only == self.is_relative_only(),
    {
        AbsoluteTime { nanos: instant as i128 + self.offset(), relative_only: self.relative_only() }
    }
}

/// The calibration in force once a bridge holding `installed` has been asked
/// to calibrate from the reading `now`: an installed one stays.
pub open spec fn first_wins(installed: Option<Calibration>, now: ClockReading) -> Calibration {
    match installed {
        Some(calibration) => calibration,
        None => Calibration::of(now),
    }
}

/// The write-once cell that holds the process's calibration.
#[derive(Debug)]
pub struct AbsoluteTimeBridge {
    installed: Option<Calibration>,
}

impl AbsoluteTimeBridge {
    /// The calibration in force, if the bridge has been calibrated.
    pub closed spec fn calibration(&self) -> Option<Calibration> {
        self.installed
    }

    /// A bridge that has not been calibrated yet.
    pub fn new() -> (bridge: Self)
        ensures
            bridge.calibration() is None,
    {
        AbsoluteTimeBridge { installed: None }
    }

    /// The calibration in force, if the bridge has been calibrated.
    pub fn installed(&self) -> (installed: Option<Calibration>)
        ensures
            installed == self.calibration(),
    {
        self.installed
    }

    /// Calibrates the bridge from `now` unless it is calibrated already, and
    /// returns the calibration in force. The reading of a later call is
    /// ignored.
    pub fn calibrate_once(&mut self, now: ClockReading) -> (calibration: Calibration)
        ensures
            calibration == first_wins(old(self).calibration(), now),
            final(self).calibration() == Some(calibration),
    {
        match self.installed {
            Some(calibration) => calibration,
            None => {
                let calibration = Calibration::from_reading(now);
                self.installed = Some(calibration);
                calibration
            },
        }
    }

    /// Converts a monotonic instant, calibrating from `now` first if this is
    /// the bridge's first use.
    pub fn to_absolute(&mut self, instant: u64, now: ClockReading) -> (time: AbsoluteTime)
        ensures
            final(self).calibration() == Some(first_wins(old(self).calibration(), now)),
            time.nanos == instant + first_wins(old(self).calibration(), now).offset_nanos(),
            time.relative_only == first_wins(old(self).calibration(), now).is_relative_only(),
    {
        let calibration = self.calibrate_once(now);
        calibration.to_absolute(instant)
    }
}

/// Calibration is idempotent: once a bridge has been calibrated, a further
/// calibration, from whatever reading, leaves the calibration in force as it
/// is.
pub proof fn lemma_calibration_is_idempotent(
    installed: Option<Calibration>,
    first: ClockReading,
    second: ClockReading,
)
    ensures
        first_wins(Some(first_wins(installed, first)), second) == first_wins(installed, first),
        installed is None ==> first_wins(installed, first) == Calibration::of(first),
{
}

} // verus!
