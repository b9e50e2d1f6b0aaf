//! Non-negative spans of time with nanosecond precision, and the two
//! operations on them that are delegated to `chrono`.

use vstd::prelude::*;

verus! {

/// Nanoseconds in one second.
pub const NANOS_PER_SEC: u32 = 1_000_000_000;

/// The whole seconds of the longest span that `chrono` can hold.
pub const MAX_DELTA_SECS: u64 = 9_223_372_036_854_775;

/// The nanoseconds beyond the whole seconds of that span.
pub const MAX_DELTA_SUBSEC_NANOS: u32 = 807_000_000;

/// The longest span that `chrono` can hold, in nanoseconds: `i64::MAX`
/// milliseconds.
pub open spec fn max_delta_nanos() -> int {
    9_223_372_036_854_775_807int * 1_000_000
}

/// A non-negative span of time: whole seconds and the nanoseconds beyond
/// them. It stands for a length of time (a progress, an elapsed time) and for
/// a reading of the process's monotonic clock, counted from its start.
#[derive(Clone, Copy, Debug, PartialEq, Eq, Structural)]
pub struct TimeSpan {
    pub secs: u64,
    pub nanos: u32,
}

impl View for TimeSpan {
    type V = int;

    /// The span in nanoseconds.
    open spec fn view(&self) -> int {
        self.secs * 1_000_000_000 + self.nanos
    }
}

impl TimeSpan {
    /// The nanosecond part is below one second.
    pub open spec fn wf(&self) -> bool {
        self.nanos < 1_000_000_000
    }

    /// Well formed, and no longer than `chrono` can hold.
    pub open spec fn in_delta_range(&self) -> bool {
        self.wf() && self@ <= max_delta_nanos()
    }

    /// The span of `secs` seconds and `nanos` nanoseconds, or `None` where
    /// `nanos` is a second or more.
    pub fn new(secs: u64, nanos: u32) -> (r: Option<TimeSpan>)
        ensures
            r == if nanos < 1_000_000_000 {
                Some(TimeSpan { secs, nanos })
            } else {
                None::<TimeSpan>
            },
    {
        if nanos < NANOS_PER_SEC {
            Some(TimeSpan { secs, nanos })
        } else {
            None
        }
    }

    /// Whether the span is well formed.
    pub fn is_wf(&self) -> (r: bool)
        ensures
            r == self.wf(),
    {
        self.nanos < NANOS_PER_SEC
    }

    /// Whether the span is well formed and no longer than `chrono` can hold.
    pub fn fits_delta(&self) -> (r: bool)
        ensures
            r == self.in_delta_range(),
    {
        self.nanos < NANOS_PER_SEC && (self.secs < MAX_DELTA_SECS || (self.secs == MAX_DELTA_SECS
            && self.nanos <= MAX_DELTA_SUBSEC_NANOS))
    }

    /// The empty span.
    pub fn zero() -> (r: TimeSpan)
        ensures
            r.wf(),
            r@ == 0,
            r == (TimeSpan { secs: 0, nanos: 0 }),
    {
        TimeSpan { secs: 0, nanos: 0 }
    }

    /// A span of whole milliseconds.
    pub fn from_millis(ms: u64) -> (r: TimeSpan)
        ensures
            r.wf(),
            r@ == ms * 1_000_000,
    {
        let sub: u64 = ms % 1000;
        let nanos: u32 = (sub * 1_000_000) as u32;
        TimeSpan { secs: ms / 1000, nanos }
    }

    /// Whether `self` is strictly shorter than `other`.
    pub fn is_before(&self, other: &TimeSpan) -> (r: bool)
        requires
            self.wf(),
            other.wf(),
        ensures
            r == (self@ < other@),
    {
        self.secs < other.secs || (self.secs == other.secs && self.nanos < other.nanos)
    }

    /// `self - earlier`, or the empty span where `earlier` is the longer one:
    /// the time that has passed on a monotonic clock between two readings.
    pub fn saturating_sub(&self, earlier: &TimeSpan) -> (r: TimeSpan)
        requires
            self.wf(),
            earlier.wf(),
        ensures
            r.wf(),
            r@ == elapsed_nanos(*earlier, *self),
    {
        if self.is_before(earlier) {
            TimeSpan { secs: 0, nanos: 0 }
        } else if self.nanos >= earlier.nanos {
            TimeSpan { secs: self.secs - earlier.secs, nanos: self.nanos - earlier.nanos }
        } else {
            TimeSpan {
                secs: self.secs - earlier.secs - 1,
                nanos: self.nanos + (NANOS_PER_SEC - earlier.nanos),
            }
        }
    }

    /// The span as a `chrono` length of time: `self` where `chrono` can hold
    /// it, `None` where it is too long.
    pub fn to_delta(&self) -> (r: Option<TimeSpan>)
        requires
            self.wf(),
        ensures
            r == if self@ <= max_delta_nanos() {
                Some(*self)
            } else {
                None::<TimeSpan>
            },
    {
        let r = delta_from_std(*self);
        proof {
            if let Some(d) = r {
                lemma_span_determined(d, *self);
            }
        }
        r
    }

    /// The sum of two lengths of time, or `None` where `chrono` cannot hold
    /// it.
    pub fn checked_add(&self, other: &TimeSpan) -> (r: Option<TimeSpan>)
        requires
            self.in_delta_range(),
            other.in_delta_range(),
        ensures
            r.is_some() == (self@ + other@ <= max_delta_nanos()),
            r matches Some(s) ==> s.in_delta_range() && s@ == self@ + other@,
    {
        delta_checked_add(*self, *other)
    }
}

/// The nanoseconds that pass on a monotonic clock from the reading `earlier`
/// to the reading `now`: nothing where `now` is not the later one.
pub open spec fn elapsed_nanos(earlier: TimeSpan, now: TimeSpan) -> int {
    if now@ >= earlier@ {
        now@ - earlier@
    } else {
        0
    }
}

/// Two well-formed spans of the same length are the same span.
pub proof fn lemma_span_determined(a: TimeSpan, b: TimeSpan)
    requires
        a.wf(),
        b.wf(),
        a@ == b@,
    ensures
        a == b,
{
}

/// Calls `chrono::TimeDelta::from_std` on the `std::time::Duration` of
/// `d.secs` seconds and `d.nanos` nanoseconds. `chrono` accepts a duration
/// exactly when it is at most `i64::MAX` milliseconds long, and then keeps
/// its seconds and nanoseconds as they are.
#[verifier::external_body]
fn delta_from_std(d: TimeSpan) -> (r: Option<TimeSpan>)
    requires
        d.wf(),
    ensures
        r.is_some() == (d@ <= max_delta_nanos()),
        r matches Some(s) ==> s.wf() && s@ == d@,
{
    chrono::TimeDelta::from_std(std::time::Duration::new(d.secs, d.nanos)).ok().map(
        |t| TimeSpan { secs: t.num_seconds() as u64, nanos: t.subsec_nanos() as u32 },
    )
}

/// Calls `chrono::TimeDelta::checked_add` on two non-negative lengths of
/// time. `chrono` adds seconds and nanoseconds with carry, and returns
/// `None` exactly when the sum is longer than `i64::MAX` milliseconds.
#[verifier::external_body]
fn delta_checked_add(a: TimeSpan, b: TimeSpan) -> (r: Option<TimeSpan>)
    requires
        a.in_delta_range(),
        b.in_delta_range(),
    ensures
        r.is_some() == (a@ + b@ <= max_delta_nanos()),
        r matches Some(s) ==> s.in_delta_range() && s@ == a@ + b@,
{
    let x = chrono::TimeDelta::new(a.secs as i64, a.nanos)?;
    let y = chrono::TimeDelta::new(b.secs as i64, b.nanos)?;
    x.checked_add(&y).map(
        |t| TimeSpan { secs: t.num_seconds() as u64, nanos: t.subsec_nanos() as u32 },
    )
}

} // verus!
