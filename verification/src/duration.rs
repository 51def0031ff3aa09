//! Spans of in-game time, counted in whole nanoseconds.

use vstd::prelude::*;
use vstd::laws_eq::obeys_concrete_eq;
use vstd::std_specs::cmp::PartialEqSpec;

verus! {

/// Nanoseconds in one second.
pub const NANOS_PER_SECOND: u128 = 1_000_000_000;

/// Ticks of the in-game clock in one second.
pub const FRAMES_PER_SECOND: u64 = 30;

/// The nanoseconds that `frames` ticks of the in-game clock last: the whole
/// seconds, and of the remaining ticks the whole nanoseconds.
pub open spec fn nanos_of_frames(frames: nat) -> nat {
    (frames / 30) * 1_000_000_000 + ((frames % 30) * 1_000_000_000) / 30
}

/// More ticks last longer: comparing two readings of the in-game clock as
/// spans is comparing them as tick counts.
pub proof fn lemma_nanos_of_frames_increasing(earlier: nat, later: nat)
    requires
        earlier < later,
    ensures
        nanos_of_frames(earlier) < nanos_of_frames(later),
{
}

/// A span of time. Its view is the number of nanoseconds it lasts.
#[derive(Debug)]
pub struct Duration {
    nanos: u128,
}

impl View for Duration {
    type V = nat;

    closed spec fn view(&self) -> nat {
        self.nanos as nat
    }
}

impl Clone for Duration {
    fn clone(&self) -> (r: Self)
        ensures
            r == *self,
    {
        *self
    }
}

impl Copy for Duration {

}

impl PartialEq for Duration {
    fn eq(&self, other: &Self) -> (r: bool) {
        self.nanos == other.nanos
    }
}

impl Eq for Duration {

}

impl vstd::std_specs::cmp::PartialEqSpecImpl for Duration {
    open spec fn obeys_eq_spec() -> bool {
        true
    }

    open spec fn eq_spec(&self, other: &Self) -> bool {
        self@ == other@
    }
}

impl Duration {
    /// Two spans that last equally long are the same span.
    pub proof fn lemma_view_injective(a: Duration, b: Duration)
        ensures
            a@ == b@ <==> a == b,
    {
    }

    /// `==` on spans is equality of the spans.
    pub proof fn lemma_obeys_concrete_eq()
        ensures
            obeys_concrete_eq::<Duration>(),
    {
        reveal(obeys_concrete_eq);
        assert forall|x: Duration, y: Duration| x.eq_spec(&y) <==> x == y by {
            Self::lemma_view_injective(x, y);
        }
    }

    /// Every span fits the machine representation.
    pub proof fn lemma_bounded(self)
        ensures
            self@ <= u128::MAX,
    {
    }

    /// The span that lasts `nanos` nanoseconds, for a number that fits the
    /// machine representation.
    pub closed spec fn lasting(nanos: int) -> Duration {
        Duration { nanos: nanos as u128 }
    }

    /// `lasting` gives the one span of the length asked for.
    pub proof fn lemma_lasting(self)
        ensures
            Duration::lasting(self@ as int) == self,
    {
    }

    /// A span of every length that fits the machine representation exists.
    pub proof fn lemma_lasting_view(nanos: int)
        requires
            0 <= nanos <= u128::MAX,
        ensures
            Duration::lasting(nanos)@ == nanos,
    {
    }

    /// The empty span.
    pub fn zero() -> (d: Self)
        ensures
            d@ == 0,
    {
        Duration { nanos: 0 }
    }

    /// The span that lasts `nanos` nanoseconds.
    pub fn from_nanos(nanos: u128) -> (d: Self)
        ensures
            d@ == nanos,
    {
        Duration { nanos }
    }

    /// The span that `frames` ticks of the in-game clock last.
    pub fn from_frames(frames: u64) -> (d: Self)
        ensures
            d@ == nanos_of_frames(frames as nat),
    {
        let seconds: u128 = (frames / FRAMES_PER_SECOND) as u128;
        let rest: u128 = (frames % FRAMES_PER_SECOND) as u128;
        let fraction: u128 = rest * NANOS_PER_SECOND / (FRAMES_PER_SECOND as u128);
        Duration { nanos: seconds * NANOS_PER_SECOND + fraction }
    }

    /// The length of the span in nanoseconds.
    pub fn as_nanos(&self) -> (n: u128)
        ensures
            n == self@,
    {
        self.nanos
    }

    /// The whole seconds of the span.
    pub fn whole_seconds(&self) -> (s: u128)
        ensures
            s == self@ / 1_000_000_000,
    {
        self.nanos / NANOS_PER_SECOND
    }

    /// The nanoseconds of the span beyond its whole seconds.
    pub fn subsec_nanos(&self) -> (n: u32)
        ensures
            n == self@ % 1_000_000_000,
    {
        (self.nanos % NANOS_PER_SECOND) as u32
    }

    /// The sum of two spans, unless it exceeds the machine representation.
    pub fn checked_add(self, rhs: Duration) -> (sum: Option<Duration>)
        ensures
            sum is Some <==> self@ + rhs@ <= u128::MAX,
            sum matches Some(d) ==> d@ == self@ + rhs@,
    {
        match self.nanos.checked_add(rhs.nanos) {
            Some(nanos) => Some(Duration { nanos }),
            None => None,
        }
    }
}

} // verus!
