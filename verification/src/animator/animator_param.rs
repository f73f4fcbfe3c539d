use vstd::prelude::*;
use core::ops::RangeInclusive;

verus! {

/// The lower and upper bound of a parameter, with the bounds it was made
/// with to go back to.
#[derive(Debug)]
pub struct RangeHolder<T> {
    pub lower: T,
    pub upper: T,
    pub default: (T, T),
}

impl<T: Clone> RangeHolder<T> {
    /// Bounds `lower..=upper`, remembered as the defaults.
    pub fn new(lower: T, upper: T) -> (r: Self)
        ensures
            cloned::<T>(lower, r.lower),
            cloned::<T>(upper, r.upper),
            r.default == (lower, upper),
    {
        Self {
            lower: lower.clone(),
            upper: upper.clone(),
            default: (lower, upper),
        }
    }

    /// The bounds as an inclusive range.
    pub fn as_range(&self) -> (r: RangeInclusive<T>)
        ensures
            cloned::<T>(self.lower, r@.start),
            cloned::<T>(self.upper, r@.end),
            !r@.exhausted,
    {
        RangeInclusive::new(self.lower.clone(), self.upper.clone())
    }

    /// Puts the bounds back to the ones the holder was made with.
    pub fn reset(&mut self)
        ensures
            cloned::<T>(old(self).default.0, final(self).lower),
            cloned::<T>(old(self).default.1, final(self).upper),
            final(self).default == old(self).default,
    {
        self.lower = self.default.0.clone();
        self.upper = self.default.1.clone();
    }
}

/// For a type whose `clone` gives back an equal value: a holder made by
/// `new(lower, upper)` (`made`), whose bounds were then set to anything
/// (`changed`), is back at `lower..=upper` after `reset` (`once`), with
/// its defaults kept and `as_range` giving `lower..=upper` (`range`); a
/// second `reset` (`twice`) changes nothing.
pub proof fn lemma_reset_restores<T: Clone>(
    lower: T,
    upper: T,
    made: RangeHolder<T>,
    changed: RangeHolder<T>,
    once: RangeHolder<T>,
    range: RangeInclusive<T>,
    twice: RangeHolder<T>,
)
    requires
        forall|a: T, b: T| #[trigger] cloned::<T>(a, b) ==> a == b,
        cloned::<T>(lower, made.lower),
        cloned::<T>(upper, made.upper),
        made.default == (lower, upper),
        changed.default == made.default,
        cloned::<T>(changed.default.0, once.lower),
        cloned::<T>(changed.default.1, once.upper),
        once.default == changed.default,
        cloned::<T>(once.lower, range@.start),
        cloned::<T>(once.upper, range@.end),
        cloned::<T>(once.default.0, twice.lower),
        cloned::<T>(once.default.1, twice.upper),
        twice.default == once.default,
    ensures
        once.lower == lower,
        once.upper == upper,
        once.default == (lower, upper),
        range@.start == lower,
        range@.end == upper,
        twice == once,
{
}

/// A parameter with a value, the value it starts with, its bounds and
/// its label.
#[derive(Debug)]
pub struct ConstantParam<T> {
    pub value: T,
    pub default: T,
    pub range: RangeHolder<T>,
    pub display_text: String,
}

impl<T: Clone> ConstantParam<T> {
    /// A parameter at `default`, bounded by `lower..=upper`, labelled `desc`.
    pub fn new(default: T, lower: T, upper: T, desc: &str) -> (p: Self)
        ensures
            cloned::<T>(default, p.value),
            p.default == default,
            cloned::<T>(upper, p.range.upper),
            p.range.default.1 == upper,
            cloned::<T>(lower, p.range.default.0),
            cloned::<T>(p.range.default.0, p.range.lower),
            p.display_text@ == desc@,
    {
        let lower_copy = lower.clone();
        Self {
            value: default.clone(),
            default,
            range: RangeHolder::new(lower_copy, upper),
            display_text: String::from_str(desc),
        }
    }

    /// Puts the value back to its default.
    pub fn reset(&mut self)
        ensures
            cloned::<T>(old(self).default, final(self).value),
            final(self).default == old(self).default,
            final(self).range == old(self).range,
            final(self).display_text == old(self).display_text,
    {
        self.value = self.default.clone();
    }
}

} // verus!
