//! Points in time, and the wall clock.

use vstd::prelude::*;

verus! {

/// A point in time: whole seconds since 1970-01-01 00:00:00 UTC, and the
/// nanoseconds past that second. Points are ordered by the seconds first.
#[derive(Clone, Copy, Debug, PartialEq, Eq, Structural, PartialOrd, Ord, Hash)]
pub struct Timestamp {
    pub secs: i64,
    pub nanos: u32,
}

impl Timestamp {
    /// Whether `self` lies strictly after `other`.
    pub open spec fn is_after(self, other: Timestamp) -> bool {
        self.secs > other.secs || (self.secs == other.secs && self.nanos > other.nanos)
    }

    /// Whether `self` lies strictly after `other`, where there is an `other`.
    pub open spec fn is_after_any(self, other: Option<Timestamp>) -> bool {
        match other {
            Some(t) => self.is_after(t),
            None => true,
        }
    }

    /// The point `nanos` nanoseconds past second `secs`.
    pub fn new(secs: i64, nanos: u32) -> (t: Timestamp)
        ensures
            t.secs == secs,
            t.nanos == nanos,
    {
        Timestamp { secs, nanos }
    }

    /// Whether `self` lies strictly after `other`.
    pub fn later_than(&self, other: &Timestamp) -> (later: bool)
        ensures
            later == self.is_after(*other),
    {
        self.secs > other.secs || (self.secs == other.secs && self.nanos > other.nanos)
    }
}

/// The current time, read from `chrono::Utc::now`, as the seconds and
/// sub-second nanoseconds that `DateTime::timestamp` and
/// `DateTime::timestamp_subsec_nanos` give for it. Nothing is claimed of the
/// value: the system clock may stand still or be set back between two calls.
/// The outside call itself panics on a system clock set before 1970.
#[verifier::external_body]
pub(crate) fn now() -> Timestamp {
    let t = chrono::Utc::now();
    Timestamp { secs: t.timestamp(), nanos: t.timestamp_subsec_nanos() }
}

/// The order of points in time is strict: no point lies after itself, and
/// of two points at most one lies after the other.
pub proof fn lemma_is_after_asymmetric(a: Timestamp, b: Timestamp)
    ensures
        !a.is_after(a),
        a.is_after(b) ==> !b.is_after(a),
{
}

/// The order of points in time is transitive.
pub proof fn lemma_is_after_transitive(a: Timestamp, b: Timestamp, c: Timestamp)
    requires
        a.is_after(b),
        b.is_after(c),
    ensures
        a.is_after(c),
{
}

} // verus!
