//! Change-tracking cells: the last two observed values of one signal.

use vstd::prelude::*;
use vstd::laws_eq::obeys_concrete_eq;
use vstd::std_specs::cmp::PartialEqSpec;

verus! {

/// The previous and the current observation of a signal.
#[derive(Debug, PartialEq, Eq)]
pub struct Pair<T> {
    pub old: T,
    pub current: T,
}

impl<T: Copy> Clone for Pair<T> {
    fn clone(&self) -> (r: Self)
        ensures
            r == *self,
    {
        *self
    }
}

impl<T: Copy> Copy for Pair<T> {

}

impl<T> Pair<T> {
    /// The two observations differ.
    pub open spec fn has_changed(self) -> bool {
        self.old != self.current
    }

    /// The signal has just arrived at `value`.
    pub open spec fn has_changed_to(self, value: T) -> bool {
        self.current == value && self.old != value
    }

    /// The signal has just left `value`.
    pub open spec fn has_changed_from(self, value: T) -> bool {
        self.old == value && self.current != value
    }

    /// The current observation satisfies `pred` and the previous one did not.
    pub open spec fn has_entered(self, pred: spec_fn(T) -> bool) -> bool {
        pred(self.current) && !pred(self.old)
    }

    /// Detects the transition into satisfying `pred`.
    ///
    /// `pred` is asked about the previous observation first and about the
    /// current one only if the previous one did not satisfy it. The result is
    /// stated over the outcomes that `pred` admits, so that for a `pred` that
    /// computes a spec predicate it is [`Pair::has_entered`] of that predicate.
    pub fn check<F: Fn(&T) -> bool>(&self, pred: F) -> (r: bool)
        requires
            call_requires(pred, (&self.old,)),
            call_requires(pred, (&self.current,)),
        ensures
            r ==> call_ensures(pred, (&self.old,), false) && call_ensures(
                pred,
                (&self.current,),
                true,
            ),
            !r ==> call_ensures(pred, (&self.old,), true) || call_ensures(
                pred,
                (&self.current,),
                false,
            ),
    {
        !pred(&self.old) && pred(&self.current)
    }
}

/// For a `pred` that computes the spec predicate `holds`, what
/// [`Pair::check`] returns is that the pair has entered `holds`.
pub proof fn lemma_check_detects_entering<T, F: Fn(&T) -> bool>(
    pair: Pair<T>,
    pred: F,
    holds: spec_fn(T) -> bool,
    r: bool,
)
    requires
        forall|value: &T, answer: bool|
            call_ensures(pred, (value,), answer) ==> answer == holds(*value),
        r ==> call_ensures(pred, (&pair.old,), false) && call_ensures(pred, (&pair.current,), true),
        !r ==> call_ensures(pred, (&pair.old,), true) || call_ensures(
            pred,
            (&pair.current,),
            false,
        ),
    ensures
        r == pair.has_entered(holds),
{
}

impl<T: PartialEq> Pair<T> {
    /// Whether the two observations differ. The result is stated for types
    /// whose `==` is equality of values.
    pub fn changed(&self) -> (r: bool)
        ensures
            T::obeys_eq_spec() ==> r == !self.old.eq_spec(&self.current),
            obeys_concrete_eq::<T>() ==> r == self.has_changed(),
    {
        proof {
            reveal(obeys_concrete_eq);
        }
        self.old != self.current
    }

    /// Whether the signal has just arrived at `value`.
    pub fn changed_to(&self, value: &T) -> (r: bool)
        ensures
            T::obeys_eq_spec() ==> r == (self.current.eq_spec(value) && !self.old.eq_spec(value)),
            obeys_concrete_eq::<T>() ==> r == self.has_changed_to(*value),
    {
        proof {
            reveal(obeys_concrete_eq);
        }
        self.current == *value && self.old != *value
    }

    /// Whether the signal has just left `value`.
    pub fn changed_from(&self, value: &T) -> (r: bool)
        ensures
            T::obeys_eq_spec() ==> r == (self.old.eq_spec(value) && !self.current.eq_spec(value)),
            obeys_concrete_eq::<T>() ==> r == self.has_changed_from(*value),
    {
        proof {
            reveal(obeys_concrete_eq);
        }
        self.old == *value && self.current != *value
    }
}

/// A cell that remembers at most the last two observations of a signal.
#[derive(Debug, PartialEq, Eq)]
pub struct Watcher<T> {
    pub pair: Option<Pair<T>>,
}

impl<T: Copy> Clone for Watcher<T> {
    fn clone(&self) -> (r: Self)
        ensures
            r == *self,
    {
        *self
    }
}

impl<T: Copy> Copy for Watcher<T> {

}

/// The pair that a cell holds after observing `value`, given what it held:
/// the current value moves to `old`, and a first observation fills both.
pub open spec fn observe<T>(held: Option<Pair<T>>, value: T) -> Pair<T> {
    match held {
        Some(p) => Pair { old: p.current, current: value },
        None => Pair { old: value, current: value },
    }
}

/// What a cell holds after a reading that may have failed: a failed reading
/// leaves it as it was.
pub open spec fn observe_if_read<T>(held: Option<Pair<T>>, reading: Option<T>) -> Option<Pair<T>> {
    match reading {
        Some(value) => Some(observe(held, value)),
        None => held,
    }
}

impl<T: Copy> Default for Watcher<T> {
    fn default() -> (w: Self)
        ensures
            w.pair is None,
    {
        Watcher { pair: None }
    }
}

/// A reading that failed leaves what the cell holds untouched.
pub proof fn lemma_failed_reading_freezes<T>(held: Option<Pair<T>>)
    ensures
        observe_if_read(held, None) == held,
{
}

/// An observation moves the current value of the held pair to `old` and
/// becomes the current value itself, whether the reading could have failed or
/// not.
pub proof fn lemma_observation_shifts<T>(held: Pair<T>, value: T)
    ensures
        observe(Some(held), value) == (Pair { old: held.current, current: value }),
        observe_if_read(Some(held), Some(value)) == Some(
            Pair { old: held.current, current: value },
        ),
{
}

/// The first observation fills both places of the pair, so that nothing
/// appears to have changed.
pub proof fn lemma_first_observation<T>(value: T)
    ensures
        observe(None, value) == (Pair { old: value, current: value }),
        observe_if_read(None, Some(value)) == Some(Pair { old: value, current: value }),
        !observe(None, value).has_changed(),
{
}

impl<T: Copy> Watcher<T> {
    /// A cell that has observed nothing.
    pub fn new() -> (w: Self)
        ensures
            w.pair is None,
    {
        Watcher { pair: None }
    }

    /// Observes `reading` if there is one, and stays as it is if there is none.
    pub fn update(&mut self, reading: Option<T>)
        ensures
            final(self).pair == observe_if_read(old(self).pair, reading),
    {
        match reading {
            Some(value) => self.update_infallible(value),
            None => {},
        }
    }

    /// Observes `value`.
    pub fn update_infallible(&mut self, value: T)
        ensures
            final(self).pair == Some(observe(old(self).pair, value)),
    {
        let previous = match self.pair {
            Some(p) => p.current,
            None => value,
        };
        self.pair = Some(Pair { old: previous, current: value });
    }
}

} // verus!
