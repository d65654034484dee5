//! Plain carriers for quantities the library passes through without
//! computing on them, and for lengths of time.

use vstd::prelude::*;

verus! {

/// A real number in IEEE-754 double precision, held as its 64-bit pattern.
///
/// The library never does arithmetic on such a value: it takes it from the
/// command and places it in a request unchanged.
#[derive(Clone, Copy, Debug, PartialEq, Eq, Structural)]
pub struct Scalar {
    pub bits: u64,
}

/// A length of time: whole seconds and the nanoseconds beyond them.
#[derive(Clone, Copy, Debug, PartialEq, Eq, Structural)]
pub struct Span {
    pub secs: u64,
    pub nanos: u32,
}

/// Nanoseconds in one second.
pub const NANOS_PER_SEC: u32 = 1_000_000_000;

/// Nanoseconds in one millisecond.
pub const NANOS_PER_MILLI: u32 = 1_000_000;

impl Span {
    /// The sub-second part is less than one second.
    pub open spec fn wf(&self) -> bool {
        self.nanos < NANOS_PER_SEC
    }

    /// The whole length in nanoseconds.
    pub open spec fn total_nanos(&self) -> nat {
        (self.secs as nat) * (NANOS_PER_SEC as nat) + (self.nanos as nat)
    }

    /// The length in milliseconds, fractions dropped.
    pub open spec fn whole_millis(&self) -> nat {
        (self.secs as nat) * 1000 + (self.nanos as nat) / (NANOS_PER_MILLI as nat)
    }

    /// Builds a span from its two parts; `None` when `nanos` is a full
    /// second or more.
    pub fn from_parts(secs: u64, nanos: u32) -> (r: Option<Span>)
        ensures
            nanos < NANOS_PER_SEC ==> r == Some(Span { secs, nanos }),
            nanos >= NANOS_PER_SEC ==> r.is_none(),
            r.is_some() ==> r.unwrap().wf(),
    {
        if nanos < NANOS_PER_SEC {
            Some(Span { secs, nanos })
        } else {
            None
        }
    }

    /// The length in milliseconds, fractions dropped.
    pub fn as_millis(&self) -> (r: u128)
        ensures
            r == self.whole_millis(),
            self.wf() ==> r == self.total_nanos() / (NANOS_PER_MILLI as nat),
    {
        proof {
            if self.wf() {
                lemma_millis_of_nanos(*self);
            }
        }
        let secs: u128 = self.secs as u128;
        let sub: u128 = (self.nanos / NANOS_PER_MILLI) as u128;
        secs * 1000 + sub
    }
}

/// For a well-formed span, the milliseconds are the nanoseconds divided by
/// a million, rounded down.
pub proof fn lemma_millis_of_nanos(s: Span)
    requires
        s.wf(),
    ensures
        s.whole_millis() == s.total_nanos() / (NANOS_PER_MILLI as nat),
{
    let n = s.nanos as int;
    let k = s.secs as int;
    assert((k * 1_000_000_000 + n) / 1_000_000 == k * 1000 + n / 1_000_000) by {
        assert(k * 1_000_000_000 == (k * 1000) * 1_000_000) by (nonlinear_arith);
        vstd::arithmetic::div_mod::lemma_fundamental_div_mod(n, 1_000_000);
        vstd::arithmetic::div_mod::lemma_div_multiples_vanish_fancy(k * 1000 + n / 1_000_000, n % 1_000_000, 1_000_000);
        assert(1_000_000 * (k * 1000 + n / 1_000_000) + n % 1_000_000 == k * 1_000_000_000 + n) by (nonlinear_arith)
            requires n == 1_000_000 * (n / 1_000_000) + n % 1_000_000;
    }
}

} // verus!
