//! A non-negative span of time with nanosecond resolution.

use vstd::prelude::*;

verus! {

/// Nanoseconds in one second.
pub const NANOS_PER_SEC: u32 = 1_000_000_000;

/// Nanoseconds in one millisecond.
pub const NANOS_PER_MILLI: u32 = 1_000_000;

/// A span of time: whole seconds and the nanoseconds beyond them.
///
/// The nanosecond field always stays below one second, so two spans are equal
/// exactly when they last equally long.
#[derive(Clone, Copy, Debug, PartialEq, Eq, Structural)]
pub struct Duration {
    secs: u64,
    nanos: u32,
}

impl View for Duration {
    type V = nat;

    /// The length of the span in nanoseconds.
    closed spec fn view(&self) -> nat {
        (self.secs as nat) * (NANOS_PER_SEC as nat) + (self.nanos as nat)
    }
}

impl Duration {
    #[verifier::type_invariant]
    spec fn wf(self) -> bool {
        self.nanos < NANOS_PER_SEC
    }

    /// The whole seconds of a span of `n` nanoseconds.
    pub open spec fn secs_of(n: nat) -> nat {
        n / (NANOS_PER_SEC as nat)
    }

    /// The whole milliseconds beyond the last whole second of a span of `n`
    /// nanoseconds.
    pub open spec fn millis_of(n: nat) -> nat {
        (n % (NANOS_PER_SEC as nat)) / (NANOS_PER_MILLI as nat)
    }

    /// The span of `secs` seconds and `nanos` nanoseconds, or `None` when
    /// `nanos` reaches a full second.
    pub fn new(secs: u64, nanos: u32) -> (r: Option<Duration>)
        ensures
            r is Some <==> nanos < NANOS_PER_SEC,
            r matches Some(d) ==> d@ == secs * NANOS_PER_SEC + nanos,
    {
        if nanos < NANOS_PER_SEC {
            Some(Duration { secs, nanos })
        } else {
            None
        }
    }

    /// The empty span.
    pub fn zero() -> (d: Duration)
        ensures
            d@ == 0,
    {
        Duration { secs: 0, nanos: 0 }
    }

    /// The span of `secs` whole seconds.
    pub fn from_secs(secs: u64) -> (d: Duration)
        ensures
            d@ == secs * NANOS_PER_SEC,
    {
        Duration { secs, nanos: 0 }
    }

    /// The span of `millis` milliseconds.
    pub fn from_millis(millis: u64) -> (d: Duration)
        ensures
            d@ == millis * NANOS_PER_MILLI,
    {
        let secs: u64 = millis / 1000;
        let rest: u64 = millis % 1000;
        let nanos: u32 = (rest as u32) * NANOS_PER_MILLI;
        Duration { secs, nanos }
    }

    /// The whole seconds of the span.
    pub fn as_secs(&self) -> (s: u64)
        ensures
            s == Self::secs_of(self@),
    {
        proof {
            use_type_invariant(self);
            lemma_split(self.secs as nat, self.nanos as nat);
        }
        self.secs
    }

    /// The whole milliseconds beyond the last whole second, below 1000.
    pub fn subsec_millis(&self) -> (m: u32)
        ensures
            m == Self::millis_of(self@),
            m < 1000,
    {
        proof {
            use_type_invariant(self);
            lemma_split(self.secs as nat, self.nanos as nat);
        }
        self.nanos / NANOS_PER_MILLI
    }

    /// The nanoseconds beyond the last whole second.
    pub fn subsec_nanos(&self) -> (n: u32)
        ensures
            n == self@ % (NANOS_PER_SEC as nat),
            n < NANOS_PER_SEC,
    {
        proof {
            use_type_invariant(self);
            lemma_split(self.secs as nat, self.nanos as nat);
        }
        self.nanos
    }

    /// Whether this span lasts at least as long as `other`.
    pub fn ge(&self, other: &Duration) -> (b: bool)
        ensures
            b == (self@ >= other@),
    {
        proof {
            use_type_invariant(self);
            use_type_invariant(other);
            lemma_order(self.secs as nat, self.nanos as nat, other.secs as nat, other.nanos as nat);
        }
        self.secs > other.secs || (self.secs == other.secs && self.nanos >= other.nanos)
    }

    /// What is left of this span once `other` has passed; the empty span when
    /// `other` is the longer one.
    pub fn saturating_sub(&self, other: &Duration) -> (d: Duration)
        ensures
            d@ == if self@ >= other@ { self@ - other@ } else { 0 },
    {
        proof {
            use_type_invariant(self);
            use_type_invariant(other);
            lemma_order(self.secs as nat, self.nanos as nat, other.secs as nat, other.nanos as nat);
        }
        if self.secs > other.secs || (self.secs == other.secs && self.nanos >= other.nanos) {
            if self.nanos >= other.nanos {
                Duration { secs: self.secs - other.secs, nanos: self.nanos - other.nanos }
            } else {
                Duration {
                    secs: self.secs - other.secs - 1,
                    nanos: self.nanos + NANOS_PER_SEC - other.nanos,
                }
            }
        } else {
            Duration { secs: 0, nanos: 0 }
        }
    }
}

/// A count of nanoseconds written as seconds and a remainder below one second
/// splits back into exactly those two parts.
pub(crate) proof fn lemma_split(secs: nat, nanos: nat)
    requires
        nanos < NANOS_PER_SEC,
    ensures
        (secs * (NANOS_PER_SEC as nat) + nanos) / (NANOS_PER_SEC as nat) == secs,
        (secs * (NANOS_PER_SEC as nat) + nanos) % (NANOS_PER_SEC as nat) == nanos,
{
    vstd::arithmetic::div_mod::lemma_fundamental_div_mod_converse(
        (secs * (NANOS_PER_SEC as nat) + nanos) as int,
        NANOS_PER_SEC as int,
        secs as int,
        nanos as int,
    );
}

/// Spans order by their seconds first and by the remainder second.
proof fn lemma_order(s1: nat, n1: nat, s2: nat, n2: nat)
    requires
        n1 < NANOS_PER_SEC,
        n2 < NANOS_PER_SEC,
    ensures
        (s1 * (NANOS_PER_SEC as nat) + n1 >= s2 * (NANOS_PER_SEC as nat) + n2) <==> (s1 > s2 || (s1
            == s2 && n1 >= n2)),
{
    assert(s1 > s2 ==> s1 * (NANOS_PER_SEC as nat) >= (s2 + 1) * (NANOS_PER_SEC as nat))
        by (nonlinear_arith);
    assert(s1 < s2 ==> (s1 + 1) * (NANOS_PER_SEC as nat) <= s2 * (NANOS_PER_SEC as nat))
        by (nonlinear_arith);
    assert((s2 + 1) * (NANOS_PER_SEC as nat) == s2 * (NANOS_PER_SEC as nat) + NANOS_PER_SEC)
        by (nonlinear_arith);
    assert((s1 + 1) * (NANOS_PER_SEC as nat) == s1 * (NANOS_PER_SEC as nat) + NANOS_PER_SEC)
        by (nonlinear_arith);
}

} // verus!
