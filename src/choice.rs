//! The three hand signs and the cyclic relation that decides who wins.
use std::cmp::Ordering;
use vstd::prelude::*;

verus! {

/// One of the three playable hand signs.
#[derive(Debug, Clone, Copy, PartialEq, Eq, Structural)]
pub enum Choice {
    Paper,
    Rock,
    Scissors,
}

/// `a` beats `b`: Scissors beats Paper, Paper beats Rock, Rock beats Scissors.
pub open spec fn beats(a: Choice, b: Choice) -> bool {
    ||| a == Choice::Scissors && b == Choice::Paper
    ||| a == Choice::Paper && b == Choice::Rock
    ||| a == Choice::Rock && b == Choice::Scissors
}

/// The dominance of `a` over `b`: `Equal` for the same sign, `Greater` when
/// `a` beats `b`, `Less` when `b` beats `a`.
pub open spec fn dominance(a: Choice, b: Choice) -> Ordering {
    if a == b {
        Ordering::Equal
    } else if beats(a, b) {
        Ordering::Greater
    } else {
        Ordering::Less
    }
}

/// The ordering seen from the other side.
pub open spec fn inverse(o: Ordering) -> Ordering {
    match o {
        Ordering::Less => Ordering::Greater,
        Ordering::Equal => Ordering::Equal,
        Ordering::Greater => Ordering::Less,
    }
}

impl Choice {
    /// Compares two signs by dominance, case by case over all nine pairs.
    pub fn compare(&self, other: &Choice) -> (r: Ordering)
        ensures
            r == dominance(*self, *other),
    {
        match self {
            Choice::Scissors => match other {
                Choice::Scissors => Ordering::Equal,
                Choice::Paper => Ordering::Greater,
                Choice::Rock => Ordering::Less,
            },
            Choice::Rock => match other {
                Choice::Scissors => Ordering::Greater,
                Choice::Rock => Ordering::Equal,
                Choice::Paper => Ordering::Less,
            },
            Choice::Paper => match other {
                Choice::Scissors => Ordering::Less,
                Choice::Rock => Ordering::Greater,
                Choice::Paper => Ordering::Equal,
            },
        }
    }
}

impl PartialOrd for Choice {
    fn partial_cmp(&self, other: &Choice) -> (r: Option<Ordering>) {
        Some(self.compare(other))
    }
}

impl vstd::std_specs::cmp::PartialOrdSpecImpl for Choice {
    open spec fn obeys_partial_cmp_spec() -> bool {
        true
    }

    open spec fn partial_cmp_spec(&self, other: &Choice) -> Option<Ordering> {
        Some(dominance(*self, *other))
    }
}

/// Every sign is equal to itself.
pub proof fn lemma_dominance_reflexive(x: Choice)
    ensures
        dominance(x, x) == Ordering::Equal,
{
}

/// Dominance is antisymmetric: comparing `x` with `y` gives the inverse of
/// comparing `y` with `x`.
pub proof fn lemma_dominance_antisymmetric(x: Choice, y: Choice)
    ensures
        dominance(x, y) == inverse(dominance(y, x)),
{
}

} // verus!
