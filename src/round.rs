//! Players, their timestamped picks, and rounds with the outcome derived from
//! two picks.
use std::cmp::Ordering;
use vstd::prelude::*;

use crate::choice::{dominance, lemma_dominance_antisymmetric, Choice};

verus! {

/// A wall-clock instant, in nanoseconds since the Unix epoch.
#[derive(Debug, Clone, Copy, PartialEq, Eq, Structural)]
pub struct Timestamp {
    pub nanos: u128,
}

/// The earlier of two instants; `a` where they are equal.
pub open spec fn earlier(a: Timestamp, b: Timestamp) -> Timestamp {
    if a.nanos <= b.nanos {
        a
    } else {
        b
    }
}

/// The later of two instants; `b` where they are equal.
pub open spec fn later(a: Timestamp, b: Timestamp) -> Timestamp {
    if b.nanos >= a.nanos {
        b
    } else {
        a
    }
}

/// Relies on std::time::SystemTime::now for the current wall-clock time, read as
/// its distance from the Unix epoch (a clock set before the epoch reads as zero).
/// Nothing is promised of the value.
#[verifier::external_body]
fn clock_now() -> (r: Timestamp) {
    let since = std::time::SystemTime::now().duration_since(std::time::UNIX_EPOCH);
    Timestamp { nanos: since.map_or(0, |d| d.as_nanos()) }
}

/// A named participant.
#[derive(Debug, Clone)]
pub struct Player {
    pub name: String,
}

impl View for Player {
    type V = Seq<char>;

    open spec fn view(&self) -> Seq<char> {
        self.name@
    }
}

impl Player {
    pub fn new(name: &str) -> (r: Player)
        ensures
            r@ == name@,
    {
        Player { name: name.to_owned() }
    }

    /// An independent copy of this player's identity.
    fn snapshot(&self) -> (r: Player)
        ensures
            r == *self,
    {
        Player { name: self.name.clone() }
    }

    /// Picks `choice` now: a participation that holds a copy of this player,
    /// the choice and the current time.
    pub fn pick(&self, choice: Choice) -> (r: Participation)
        ensures
            r.player == *self,
            r.choice == choice,
    {
        let now = clock_now();
        self.pick_at(choice, now)
    }

    /// Picks `choice` at the instant `picked_at`.
    pub fn pick_at(&self, choice: Choice, picked_at: Timestamp) -> (r: Participation)
        ensures
            r == (Participation { player: *self, choice, picked_at }),
    {
        Participation { player: self.snapshot(), choice, picked_at }
    }
}

/// One player's timestamped commitment to a choice.
#[derive(Debug, Clone)]
pub struct Participation {
    pub player: Player,
    pub choice: Choice,
    pub picked_at: Timestamp,
}

/// The result of a round: the player who won, or a draw.
#[derive(Debug, Clone)]
pub enum Outcome {
    Winner(Player),
    Draw,
}

/// The outcome of `one` against `two`: a draw on equal choices, else the
/// player whose choice dominates.
pub open spec fn outcome_of(one: Participation, two: Participation) -> Outcome {
    match dominance(one.choice, two.choice) {
        Ordering::Equal => Outcome::Draw,
        Ordering::Greater => Outcome::Winner(one.player),
        Ordering::Less => Outcome::Winner(two.player),
    }
}

/// Two participations and the outcome derived from them.
#[derive(Debug, Clone)]
pub struct Round {
    pub player_one: Participation,
    pub player_two: Participation,
    pub outcome: Outcome,
}

impl Round {
    /// The outcome agrees with the two participations.
    pub open spec fn wf(&self) -> bool {
        self.outcome == outcome_of(self.player_one, self.player_two)
    }

    pub fn new(player_one: Participation, player_two: Participation) -> (r: Round)
        ensures
            r.player_one == player_one,
            r.player_two == player_two,
            r.outcome == outcome_of(player_one, player_two),
            r.wf(),
    {
        let outcome = match player_one.choice.compare(&player_two.choice) {
            Ordering::Equal => Outcome::Draw,
            Ordering::Greater => Outcome::Winner(player_one.player.snapshot()),
            Ordering::Less => Outcome::Winner(player_two.player.snapshot()),
        };
        Round { player_one, player_two, outcome }
    }

    /// The earlier of the two picks' instants.
    pub fn started_at(&self) -> (r: Timestamp)
        ensures
            r == earlier(self.player_one.picked_at, self.player_two.picked_at),
    {
        if self.player_one.picked_at.nanos <= self.player_two.picked_at.nanos {
            self.player_one.picked_at
        } else {
            self.player_two.picked_at
        }
    }

    /// The later of the two picks' instants.
    pub fn finisehd_at(&self) -> (r: Timestamp)
        ensures
            r == later(self.player_one.picked_at, self.player_two.picked_at),
    {
        if self.player_two.picked_at.nanos >= self.player_one.picked_at.nanos {
            self.player_two.picked_at
        } else {
            self.player_one.picked_at
        }
    }
}

impl core::ops::Add for Participation {
    type Output = Round;

    /// Two picks make a round, the left one as its first player.
    fn add(self, rhs: Participation) -> (r: Round) {
        Round::new(self, rhs)
    }
}

impl vstd::std_specs::ops::AddSpecImpl for Participation {
    open spec fn obeys_add_spec() -> bool {
        true
    }

    open spec fn add_req(self, rhs: Participation) -> bool {
        true
    }

    open spec fn add_spec(self, rhs: Participation) -> Round {
        Round { player_one: self, player_two: rhs, outcome: outcome_of(self, rhs) }
    }
}

/// The outcome does not depend on the order of the two picks: swapped, the
/// round is a draw exactly when it was one, and names the same winner otherwise.
pub proof fn lemma_outcome_symmetric(one: Participation, two: Participation)
    ensures
        outcome_of(one, two) == outcome_of(two, one),
{
    lemma_dominance_antisymmetric(one.choice, two.choice);
}

/// A round never finishes before it starts.
pub proof fn lemma_started_not_after_finished(round: Round)
    ensures
        earlier(round.player_one.picked_at, round.player_two.picked_at).nanos
            <= later(round.player_one.picked_at, round.player_two.picked_at).nanos,
{
}

} // verus!
