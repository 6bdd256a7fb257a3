//! Wall-clock instants, counted from the Unix epoch.

use crate::clock::since_unix_epoch;
use crate::clock::subsec_nanos_of;
use crate::clock::time_short_of;
use crate::clock::time_since_unix_epoch;
use crate::clock::whole_secs_of;
use std::cmp::Ordering;
use std::time::SystemTime;
use vstd::prelude::*;

verus! {

/// Nanoseconds in one second.
pub const NANOS_PER_SEC: u32 = 1_000_000_000;

/// How far apart two instants are in whole seconds, by their nanosecond
/// counts: nothing when `later` lies before `earlier`, else the distance
/// rounded down to the second.
pub open spec fn whole_secs_between(later: int, earlier: int) -> Option<int> {
    if later >= earlier {
        Some((later - earlier) / (NANOS_PER_SEC as int))
    } else {
        None
    }
}

/// The nanosecond count of the latest instant a [`Timestamp`] can hold.
pub open spec fn latest_nanos() -> int {
    i64::MAX * NANOS_PER_SEC + (NANOS_PER_SEC - 1)
}

/// The nanosecond count of the earliest instant a [`Timestamp`] can hold.
pub open spec fn earliest_nanos() -> int {
    i64::MIN * NANOS_PER_SEC
}

/// `nanos` where a [`Timestamp`] can hold it, else the nearest count that
/// one can hold.
pub open spec fn nearest_held(nanos: int) -> int {
    if nanos < earliest_nanos() {
        earliest_nanos()
    } else if nanos > latest_nanos() {
        latest_nanos()
    } else {
        nanos
    }
}

/// Nanoseconds in a stretch of `secs` whole seconds and `subsec_nanos`
/// nanoseconds.
pub open spec fn nanos_in(secs: u64, subsec_nanos: u32) -> int {
    secs * NANOS_PER_SEC + subsec_nanos
}

/// The instant at which a reading of the system clock was taken, in
/// nanoseconds since the Unix epoch, as a [`Timestamp`] holds it: so far
/// after the epoch as the clock says the reading was taken after it, or
/// so far before the epoch as the clock says the reading fell short of
/// it, and the nearest count that can be held where that one cannot.
pub open spec fn instant_of(reading: SystemTime) -> int {
    match time_since_unix_epoch(reading) {
        Ok(past) => nearest_held(nanos_in(whole_secs_of(past), subsec_nanos_of(past))),
        Err(ahead) => nearest_held(
            -nanos_in(whole_secs_of(time_short_of(ahead)), subsec_nanos_of(time_short_of(ahead))),
        ),
    }
}

/// An instant of wall-clock time with nanosecond resolution.
///
/// Its view is the number of nanoseconds from the Unix epoch to the
/// instant, negative for an instant before the epoch.
#[derive(Clone, Copy, PartialEq, Eq, Structural, Ord, Hash, Debug)]
pub struct Timestamp {
    secs: i64,
    nanos: u32,
}

impl View for Timestamp {
    type V = int;

    closed spec fn view(&self) -> int {
        self.secs * NANOS_PER_SEC + self.nanos
    }
}

impl PartialOrd for Timestamp {
    fn partial_cmp(&self, other: &Self) -> (order: Option<Ordering>) {
        if other.is_after(self) {
            Some(Ordering::Less)
        } else if self.is_after(other) {
            Some(Ordering::Greater)
        } else {
            Some(Ordering::Equal)
        }
    }
}

impl vstd::std_specs::cmp::PartialOrdSpecImpl for Timestamp {
    open spec fn obeys_partial_cmp_spec() -> bool {
        true
    }

    open spec fn partial_cmp_spec(&self, other: &Self) -> Option<Ordering> {
        if self@ < other@ {
            Some(Ordering::Less)
        } else if self@ > other@ {
            Some(Ordering::Greater)
        } else {
            Some(Ordering::Equal)
        }
    }
}

impl Timestamp {
    #[verifier::type_invariant]
    spec fn subsecond_part_is_below_a_second(self) -> bool {
        self.nanos < NANOS_PER_SEC
    }

    /// The instant `secs` whole seconds and `subsec_nanos` nanoseconds
    /// after the Unix epoch, where `secs` may be negative. There is none
    /// when `subsec_nanos` amounts to a second or more.
    pub fn new(secs: i64, subsec_nanos: u32) -> (made: Option<Timestamp>)
        ensures
            made is Some <==> subsec_nanos < NANOS_PER_SEC,
            made matches Some(t) ==> t@ == secs * NANOS_PER_SEC + subsec_nanos,
    {
        if subsec_nanos < NANOS_PER_SEC {
            Some(Timestamp { secs, nanos: subsec_nanos })
        } else {
            None
        }
    }

    /// The Unix epoch itself.
    pub fn unix_epoch() -> (t: Timestamp)
        ensures
            t@ == 0,
    {
        Timestamp { secs: 0, nanos: 0 }
    }

    /// The instant that lies `secs` seconds and `subsec_nanos` nanoseconds
    /// after the Unix epoch, or the latest instant that can be held where
    /// that one cannot.
    pub fn after_epoch(secs: u64, subsec_nanos: u32) -> (t: Timestamp)
        requires
            subsec_nanos < NANOS_PER_SEC,
        ensures
            t@ == nearest_held(secs * NANOS_PER_SEC + subsec_nanos),
    {
        if secs > i64::MAX as u64 {
            Timestamp { secs: i64::MAX, nanos: NANOS_PER_SEC - 1 }
        } else {
            Timestamp { secs: secs as i64, nanos: subsec_nanos }
        }
    }

    /// The instant that lies `secs` seconds and `subsec_nanos` nanoseconds
    /// before the Unix epoch, or the earliest instant that can be held
    /// where that one cannot.
    pub fn before_epoch(secs: u64, subsec_nanos: u32) -> (t: Timestamp)
        requires
            subsec_nanos < NANOS_PER_SEC,
        ensures
            t@ == nearest_held(-(secs * NANOS_PER_SEC + subsec_nanos)),
    {
        let floor: i128 = if subsec_nanos == 0 {
            -(secs as i128)
        } else {
            -(secs as i128) - 1
        };
        if floor < i64::MIN as i128 {
            Timestamp { secs: i64::MIN, nanos: 0 }
        } else if subsec_nanos == 0 {
            Timestamp { secs: floor as i64, nanos: 0 }
        } else {
            Timestamp { secs: floor as i64, nanos: NANOS_PER_SEC - subsec_nanos }
        }
    }

    /// Whether this is the instant of some reading of the system clock.
    pub open spec fn read_from_clock(&self) -> bool {
        exists|reading: SystemTime| self@ == #[trigger] instant_of(reading)
    }

    /// The instant at which a reading of the system clock was taken, or
    /// the nearest instant that can be held where the reading lies beyond
    /// every one that can.
    pub fn from_system_time(reading: &SystemTime) -> (t: Timestamp)
        ensures
            t@ == instant_of(*reading),
    {
        match since_unix_epoch(reading) {
            Ok(past) => Timestamp::after_epoch(past.as_secs(), past.subsec_nanos()),
            Err(ahead) => {
                let short = ahead.duration();
                Timestamp::before_epoch(short.as_secs(), short.subsec_nanos())
            },
        }
    }

    /// What the system clock shows at the moment of the call. Two calls
    /// may give any two instants: the clock can be set back between them.
    pub fn now() -> (t: Timestamp)
        ensures
            t.read_from_clock(),
    {
        let reading = SystemTime::now();
        Timestamp::from_system_time(&reading)
    }

    /// Whole seconds from the Unix epoch to this instant, rounded towards
    /// the earlier second; negative before the epoch.
    pub fn secs(&self) -> (secs: i64)
        ensures
            secs == self@ / (NANOS_PER_SEC as int),
    {
        proof {
            use_type_invariant(self);
        }
        self.secs
    }

    /// The nanoseconds by which this instant lies past its whole second.
    pub fn subsec_nanos(&self) -> (nanos: u32)
        ensures
            nanos == self@ % (NANOS_PER_SEC as int),
            nanos < NANOS_PER_SEC,
    {
        proof {
            use_type_invariant(self);
        }
        self.nanos
    }

    /// Whole seconds from the Unix epoch to this instant; none for an
    /// instant before the epoch.
    pub fn unix_secs(&self) -> (secs: Option<u64>)
        ensures
            match secs {
                Some(s) => whole_secs_between(self@, 0) == Some(s as int),
                None => whole_secs_between(self@, 0) is None,
            },
    {
        proof {
            use_type_invariant(self);
        }
        if self.secs >= 0 {
            Some(self.secs as u64)
        } else {
            None
        }
    }

    /// Whether this instant lies strictly after `other`.
    pub fn is_after(&self, other: &Timestamp) -> (later: bool)
        ensures
            later == (self@ > other@),
    {
        proof {
            use_type_invariant(self);
            use_type_invariant(other);
        }
        self.secs > other.secs || (self.secs == other.secs && self.nanos > other.nanos)
    }

    /// The time that passed from `earlier` to this instant, as whole
    /// seconds and the nanoseconds beyond them; none when `earlier` in
    /// fact lies after it.
    pub fn time_since(&self, earlier: &Timestamp) -> (elapsed: Option<(u64, u32)>)
        ensures
            match elapsed {
                Some((secs, subsec_nanos)) => {
                    &&& subsec_nanos < NANOS_PER_SEC
                    &&& self@ - earlier@ == secs * NANOS_PER_SEC + subsec_nanos
                },
                None => self@ < earlier@,
            },
    {
        proof {
            use_type_invariant(self);
            use_type_invariant(earlier);
        }
        if earlier.is_after(self) {
            return None;
        }
        let apart: i128 = self.secs as i128 - earlier.secs as i128;
        if self.nanos >= earlier.nanos {
            Some((apart as u64, self.nanos - earlier.nanos))
        } else {
            Some(((apart - 1) as u64, NANOS_PER_SEC - (earlier.nanos - self.nanos)))
        }
    }

    /// Whole seconds that passed from `earlier` to this instant; none
    /// when `earlier` in fact lies after it.
    pub fn secs_since(&self, earlier: &Timestamp) -> (elapsed: Option<u64>)
        ensures
            match elapsed {
                Some(s) => whole_secs_between(self@, earlier@) == Some(s as int),
                None => whole_secs_between(self@, earlier@) is None,
            },
    {
        match self.time_since(earlier) {
            Some((secs, _)) => Some(secs),
            None => None,
        }
    }
}

} // verus!
