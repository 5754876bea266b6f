//! A game: the ordered history of the rounds played.
use vstd::prelude::*;

use crate::round::Round;

verus! {

/// The largest number of rounds that a capacity hint reserves room for.
pub const MAX_CAPACITY_HINT: usize = 4096;

/// Rounds in the order they were played.
#[derive(Debug, Clone)]
pub struct Game {
    pub rounds: Vec<Round>,
}

impl Game {
    /// An empty game; `capacity` is a hint for the number of rounds to come,
    /// of which at most `MAX_CAPACITY_HINT` are reserved ahead.
    pub fn with_capacity(capacity: usize) -> (r: Game)
        ensures
            r.rounds@ == Seq::<Round>::empty(),
    {
        let reserved: usize = if capacity < MAX_CAPACITY_HINT {
            capacity
        } else {
            MAX_CAPACITY_HINT
        };
        Game { rounds: Vec::with_capacity(reserved) }
    }

    /// Appends `round` after every round already played.
    pub fn add_round(&mut self, round: Round)
        ensures
            final(self).rounds@ == old(self).rounds@.push(round),
    {
        self.rounds.push(round);
    }
}

impl Default for Game {
    fn default() -> (r: Game)
        ensures
            r.rounds@ == Seq::<Round>::empty(),
    {
        Game { rounds: Vec::new() }
    }
}

impl core::ops::AddAssign<Round> for Game {
    /// Appends `rhs`, as `add_round` does.
    fn add_assign(&mut self, rhs: Round)
        ensures
            final(self).rounds@ == old(self).rounds@.push(rhs),
    {
        self.add_round(rhs);
    }
}

/// The rounds a game holds after `add_round` was called with each of `added`
/// in turn, starting from the rounds `start`.
pub open spec fn appended(start: Seq<Round>, added: Seq<Round>) -> Seq<Round>
    decreases added.len(),
{
    if added.len() == 0 {
        start
    } else {
        appended(start, added.drop_last()).push(added.last())
    }
}

/// A game only appends: after `n` calls of `add_round` on an empty game it
/// holds `n` rounds, the `i`-th being the `i`-th appended.
pub proof fn lemma_add_round_append_only(added: Seq<Round>)
    ensures
        appended(Seq::empty(), added).len() == added.len(),
        forall|i: int| 0 <= i < added.len() ==> #[trigger] appended(Seq::empty(), added)[i] == added[i],
    decreases added.len(),
{
    if added.len() > 0 {
        lemma_add_round_append_only(added.drop_last());
    }
    assert(appended(Seq::empty(), added) =~= added);
}

} // verus!
