//! Spans of time.

use vstd::prelude::*;

verus! {

/// Nanoseconds in a second.
pub const NANOS_PER_SEC: u32 = 1_000_000_000;

/// A span of time: whole seconds, and the nanoseconds beyond them.
///
/// The fields are plain integers, so that contracts can speak of the span
/// itself. Its view is the span in nanoseconds.
#[derive(Debug, Clone, Copy, PartialEq, Eq, Structural)]
pub struct Duration {
    secs: u64,
    nanos: u32,
}

impl View for Duration {
    type V = nat;

    closed spec fn view(&self) -> nat {
        (self.secs * NANOS_PER_SEC + self.nanos) as nat
    }
}

impl Duration {
    #[verifier::type_invariant]
    spec fn wf(self) -> bool {
        self.nanos < NANOS_PER_SEC
    }

    /// A span of `secs` seconds and `nanos` nanoseconds. Nanoseconds that make
    /// up whole seconds are carried over into the seconds.
    pub fn new(secs: u64, nanos: u32) -> (r: Duration)
        requires
            secs + nanos / NANOS_PER_SEC <= u64::MAX,
        ensures
            r@ == secs * NANOS_PER_SEC + nanos,
    {
        let carried: u32 = nanos / NANOS_PER_SEC;
        let whole: u64 = carried as u64;
        Duration { secs: secs + whole, nanos: nanos % NANOS_PER_SEC }
    }

    /// A span of `secs` seconds.
    pub fn from_secs(secs: u64) -> (r: Duration)
        ensures
            r@ == secs * NANOS_PER_SEC,
    {
        Duration { secs, nanos: 0 }
    }

    /// Whether the span is empty.
    pub fn is_zero(&self) -> (r: bool)
        ensures
            r == (self@ == 0),
    {
        self.secs == 0 && self.nanos == 0
    }

    /// The whole seconds of the span.
    pub fn as_secs(&self) -> (r: u64)
        ensures
            r == self@ / (NANOS_PER_SEC as nat),
    {
        proof {
            use_type_invariant(self);
        }
        self.secs
    }

    /// The nanoseconds of the span beyond its whole seconds.
    pub fn subsec_nanos(&self) -> (r: u32)
        ensures
            r == self@ % (NANOS_PER_SEC as nat),
    {
        proof {
            use_type_invariant(self);
        }
        self.nanos
    }
}

/// Seconds and nanoseconds below a second come out of a span as they went in, and
/// the span is empty exactly when both are zero.
pub proof fn law_parts_come_out_as_they_went_in(span: nat, secs: u64, nanos: u32)
    requires
        nanos < 1_000_000_000,
        span == secs * NANOS_PER_SEC + nanos,
    ensures
        span / (NANOS_PER_SEC as nat) == secs,
        span % (NANOS_PER_SEC as nat) == nanos,
        span == 0 <==> secs == 0 && nanos == 0,
        span >= secs * 1_000_000_000,
{
}

/// A span is made up of its whole seconds, of a billion nanoseconds each, and the
/// nanoseconds beyond them: nothing of it is lost.
pub proof fn law_span_is_its_parts(span: nat)
    ensures
        span == (span / (NANOS_PER_SEC as nat)) * 1_000_000_000 + span % (NANOS_PER_SEC as nat),
        span % (NANOS_PER_SEC as nat) < 1_000_000_000,
{
}

} // verus!
