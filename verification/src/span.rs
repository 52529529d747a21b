//! Lengths of time with nanosecond precision, and points in time.
use vstd::prelude::*;

verus! {

/// Nanoseconds in a second.
pub const NANOS_PER_SEC: u32 = 1_000_000_000;

/// A length of time: whole seconds and the nanoseconds beyond them
/// (the model of `std::time::Duration`).
#[derive(Debug, Clone, Copy, PartialEq, Eq)]
pub struct Span {
    secs: u64,
    nanos: u32,
}

impl View for Span {
    type V = nat;

    /// The length in nanoseconds.
    closed spec fn view(&self) -> nat {
        (self.secs * 1_000_000_000 + self.nanos) as nat
    }
}

impl Span {
    #[verifier::type_invariant]
    spec fn inv(self) -> bool {
        self.nanos < NANOS_PER_SEC
    }

    /// The whole seconds of a length in nanoseconds.
    pub open spec fn secs_of(n: nat) -> nat {
        n / 1_000_000_000
    }

    /// The largest length a span can hold.
    pub open spec fn max_nanos() -> nat {
        (u64::MAX as nat) * 1_000_000_000 + 999_999_999
    }

    /// `secs` seconds and `nanos` nanoseconds; nanoseconds beyond a second carry
    /// into the seconds (`Duration::new`, which panics when the seconds overflow).
    pub fn new(secs: u64, nanos: u32) -> (s: Span)
        requires
            secs + nanos / 1_000_000_000 <= u64::MAX,
        ensures
            s@ == secs * 1_000_000_000 + nanos,
            s@ <= Self::max_nanos(),
    {
        let extra = (nanos / NANOS_PER_SEC) as u64;
        let rest = nanos % NANOS_PER_SEC;
        assert(nanos == extra * 1_000_000_000 + rest);
        Span { secs: secs + extra, nanos: rest }
    }

    /// A span of `secs` seconds (`Duration::from_secs`).
    pub fn from_secs(secs: u64) -> (s: Span)
        ensures
            s@ == secs * 1_000_000_000,
    {
        Span { secs, nanos: 0 }
    }

    /// A span of `ms` milliseconds (`Duration::from_millis`).
    pub fn from_millis(ms: u64) -> (s: Span)
        ensures
            s@ == ms * 1_000_000,
    {
        let secs = ms / 1000;
        let rest = (ms % 1000) as u32;
        assert(ms == secs * 1000 + rest);
        let nanos = rest * 1_000_000;
        assert(secs * 1_000_000_000 + nanos == ms * 1_000_000) by (nonlinear_arith)
            requires
                ms == secs * 1000 + rest,
                nanos == rest * 1_000_000,
        ;
        Span { secs, nanos }
    }

    /// The empty span.
    pub fn zero() -> (s: Span)
        ensures
            s@ == 0,
    {
        Span { secs: 0, nanos: 0 }
    }

    /// Whole seconds (`Duration::as_secs`).
    pub fn as_secs(&self) -> (r: u64)
        ensures
            r == Self::secs_of(self@),
    {
        proof {
            use_type_invariant(self);
        }
        let r = self.secs;
        assert((self.secs * 1_000_000_000 + self.nanos) / 1_000_000_000 == self.secs as int) by (nonlinear_arith)
            requires
                self.nanos < 1_000_000_000,
        ;
        r
    }

    /// Nanoseconds beyond the whole seconds (`Duration::subsec_nanos`).
    pub fn subsec_nanos(&self) -> (r: u32)
        ensures
            r == self@ % 1_000_000_000,
    {
        proof {
            use_type_invariant(self);
        }
        assert((self.secs * 1_000_000_000 + self.nanos) % 1_000_000_000 == self.nanos as int) by (nonlinear_arith)
            requires
                self.nanos < 1_000_000_000,
        ;
        self.nanos
    }

    /// Whole milliseconds (`Duration::as_millis`).
    pub fn as_millis(&self) -> (r: u128)
        ensures
            r == self@ / 1_000_000,
    {
        proof {
            use_type_invariant(self);
        }
        let r = self.secs as u128 * 1000 + (self.nanos / 1_000_000) as u128;
        assert((self.secs * 1_000_000_000 + self.nanos) / 1_000_000 == self.secs * 1000 + self.nanos / 1_000_000) by (nonlinear_arith)
            requires
                self.nanos < 1_000_000_000,
        ;
        r
    }

    /// Whether `self` is shorter than `other`.
    pub fn lt(&self, other: &Span) -> (r: bool)
        ensures
            r == (self@ < other@),
    {
        proof {
            use_type_invariant(self);
            use_type_invariant(other);
        }
        self.secs < other.secs || (self.secs == other.secs && self.nanos < other.nanos)
    }

    /// `self - other`, for `other` no longer than `self`.
    pub fn minus(&self, other: &Span) -> (r: Span)
        requires
            other@ <= self@,
        ensures
            r@ == self@ - other@,
    {
        proof {
            use_type_invariant(self);
            use_type_invariant(other);
        }
        if self.nanos >= other.nanos {
            Span { secs: self.secs - other.secs, nanos: self.nanos - other.nanos }
        } else {
            Span { secs: self.secs - other.secs - 1, nanos: self.nanos + NANOS_PER_SEC - other.nanos }
        }
    }

    /// The distance between two spans, whichever is longer.
    pub fn distance(&self, other: &Span) -> (r: Span)
        ensures
            r@ == if self@ >= other@ { self@ - other@ } else { other@ - self@ },
    {
        if other.lt(self) {
            self.minus(other)
        } else {
            other.minus(self)
        }
    }
}

/// A point in time: whole seconds since the Unix epoch (negative before it,
/// rounded down) and the nanoseconds beyond them.
#[derive(Debug, Clone, Copy, PartialEq, Eq)]
pub struct Timestamp {
    pub secs: i128,
    pub nanos: u32,
}

/// A point in time as nanoseconds since the Unix epoch.
pub open spec fn timestamp_nanos(t: Timestamp) -> int {
    t.secs * 1_000_000_000 + t.nanos
}

/// A reading of the clock as nanoseconds since the Unix epoch: `Ok` holds the
/// seconds and nanoseconds after the epoch, `Err` those before it.
pub open spec fn reading_nanos(r: Result<(u64, u32), (u64, u32)>) -> int {
    match r {
        Ok((s, n)) => s * 1_000_000_000 + n,
        Err((s, n)) => -(s * 1_000_000_000 + n),
    }
}

/// Whether the nanoseconds of a clock reading are below a second.
pub open spec fn reading_wf(r: Result<(u64, u32), (u64, u32)>) -> bool {
    match r {
        Ok((_, n)) => n < NANOS_PER_SEC,
        Err((_, n)) => n < NANOS_PER_SEC,
    }
}

/// The system clock's distance from the Unix epoch
/// (`SystemTime::now().duration_since(UNIX_EPOCH)`): `Ok` with the seconds and
/// nanoseconds after the epoch, or `Err` with how far before the epoch the
/// clock is (`SystemTimeError::duration`), each as `Duration::as_secs` and
/// `Duration::subsec_nanos`. The clock decides the value: of it only that the
/// nanoseconds are below a second is claimed.
#[verifier::external_body]
fn clock_since_epoch() -> (r: Result<(u64, u32), (u64, u32)>)
    ensures
        reading_wf(r),
{
    match std::time::SystemTime::now().duration_since(std::time::UNIX_EPOCH) {
        Ok(d) => Ok((d.as_secs(), d.subsec_nanos())),
        Err(e) => Err((e.duration().as_secs(), e.duration().subsec_nanos())),
    }
}

/// The point in time of a clock reading.
pub fn timestamp_of(reading: Result<(u64, u32), (u64, u32)>) -> (t: Timestamp)
    requires
        reading_wf(reading),
    ensures
        timestamp_nanos(t) == reading_nanos(reading),
        t.nanos < NANOS_PER_SEC,
{
    match reading {
        Ok((s, n)) => Timestamp { secs: s as i128, nanos: n },
        Err((s, n)) => {
            if n == 0 {
                Timestamp { secs: -(s as i128), nanos: 0 }
            } else {
                Timestamp { secs: -(s as i128) - 1, nanos: NANOS_PER_SEC - n }
            }
        },
    }
}

/// The current time, read from the system clock; a clock set before 1970
/// gives a point before the epoch. The clock decides the value.
pub fn now() -> (t: Timestamp)
    ensures
        t.nanos < NANOS_PER_SEC,
{
    timestamp_of(clock_since_epoch())
}

} // verus!

verus! {

/// A span made from milliseconds gives those milliseconds back.
pub proof fn law_millis_round_trip(ms: u64)
    ensures
        (ms * 1_000_000) as nat / 1_000_000 == ms,
{
}

/// A span made from seconds gives those seconds back.
pub proof fn law_secs_round_trip(secs: u64)
    ensures
        Span::secs_of((secs * 1_000_000_000) as nat) == secs,
{
}

} // verus!
