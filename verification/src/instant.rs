use vstd::prelude::*;
use vstd::std_specs::ops::AddSpecImpl;
use std::ops::Add;
use crate::interval::Interval;

verus! {

/// A reading of a monotonic clock: the nanoseconds that have passed since an
/// epoch the embedder chooses once and keeps for every reading it hands in.
#[derive(Debug, Clone, Copy, PartialEq, Eq, PartialOrd, Ord, Structural)]
pub struct Instant(u64);

impl Instant {
    /// Nanoseconds between the epoch and this instant.
    pub closed spec fn nanos(self) -> u64 {
        self.0
    }

    /// The instant that lies the given number of nanoseconds after the epoch.
    pub closed spec fn of_nanos(nanoseconds: u64) -> Instant {
        Instant(nanoseconds)
    }

    /// Whether the instant `interval` later can still be counted.
    pub open spec fn can_add(self, interval: Interval) -> bool {
        self.nanos() + interval.nanos() <= u64::MAX
    }

    /// An instant is known by its distance from the epoch.
    pub broadcast proof fn lemma_of_nanos(nanoseconds: u64)
        ensures
            #[trigger] Self::of_nanos(nanoseconds).nanos() == nanoseconds,
    {
    }

    /// Two instants at one distance from the epoch are the same instant.
    pub proof fn lemma_same_reading(self, other: Instant)
        ensures
            self.nanos() == other.nanos() <==> self == other,
    {
    }

    /// The instant that lies the given number of nanoseconds after the epoch.
    pub fn from_nanos(nanoseconds: u64) -> (instant: Self)
        ensures
            instant.nanos() == nanoseconds,
            instant == Self::of_nanos(nanoseconds),
    {
        Instant(nanoseconds)
    }

    /// Nanoseconds between the epoch and this instant.
    pub fn as_nanos(self) -> (nanoseconds: u64)
        ensures
            nanoseconds == self.nanos(),
    {
        self.0
    }

    /// Whether the clock, reading `self`, has reached `deadline`.
    pub fn has_reached(self, deadline: Instant) -> (reached: bool)
        ensures
            reached == (self.nanos() >= deadline.nanos()),
    {
        self.0 >= deadline.0
    }

    /// The instant `interval` later, or `None` where it lies beyond what the
    /// counter holds.
    pub fn checked_add(self, interval: Interval) -> (later: Option<Instant>)
        ensures
            self.can_add(interval) ==> later == Some(
                Self::of_nanos((self.nanos() + interval.nanos()) as u64),
            ),
            !self.can_add(interval) ==> later.is_none(),
            later.is_some() ==> later.unwrap().nanos() == self.nanos() + interval.nanos(),
    {
        match interval.checked_nanos() {
            Some(delay) => match self.0.checked_add(delay) {
                Some(nanoseconds) => Some(Instant(nanoseconds)),
                None => None,
            },
            None => None,
        }
    }
}

impl Add<Interval> for Instant {
    type Output = Instant;

    /// The instant `rhs` later.
    fn add(self, rhs: Interval) -> (later: Instant)
        ensures
            later.nanos() == self.nanos() + rhs.nanos(),
    {
        let delay = rhs.checked_nanos();
        assert(delay.is_some());
        Instant(self.0 + delay.unwrap())
    }
}

impl AddSpecImpl<Interval> for Instant {
    open spec fn obeys_add_spec() -> bool {
        true
    }

    open spec fn add_req(self, rhs: Interval) -> bool {
        self.can_add(rhs)
    }

    open spec fn add_spec(self, rhs: Interval) -> Instant {
        Self::of_nanos((self.nanos() + rhs.nanos()) as u64)
    }
}

} // verus!
