//! The move vocabulary: immutable descriptions of the three kinds of move a
//! player can make, interpreted against a `State` by an external rules
//! engine.

use vstd::prelude::*;

use crate::state::RankIndex;
use crate::state::Species;

verus! {

/// Which of the two players' home sides a move advances toward; used to
/// disambiguate symmetric moves without naming the acting player.
#[derive(Debug, Clone, Copy, PartialEq, Eq, PartialOrd, Ord, Hash, Structural)]
pub enum Direction {
    North,
    South,
}

impl Direction {
    /// The dense ordinal backing this direction, in declaration order.
    pub open spec fn ordinal(self) -> int {
        match self {
            Direction::North => 0,
            Direction::South => 1,
        }
    }

    /// Converts this direction to its backing ordinal.
    pub fn to_index(self) -> (i: usize)
        ensures
            i as int == self.ordinal(),
            i < 2,
    {
        match self {
            Direction::North => 0,
            Direction::South => 1,
        }
    }

    /// Recovers a direction from its backing ordinal.
    pub fn from_index(i: usize) -> (d: Direction)
        requires
            i < 2,
        ensures
            d.ordinal() == i as int,
    {
        if i == 0 {
            Direction::North
        } else {
            Direction::South
        }
    }
}

/// One move, carrying only what disambiguates the player's intent; the
/// target rank, any capture, and legality are derived by the external rules
/// engine that interprets the action against a concrete `State`.
#[derive(Debug, Clone)]
pub enum Action {
    /// Move one non-snipe animal of the given species, found at the given
    /// rank, toward the given direction.
    Animal(RankIndex, Direction, Species),
    /// Move the acting player's snipe toward the given direction; the snipe
    /// is unique, so its current rank is implicit in the state.
    Snipe(Direction),
    /// Drop one reserved animal of the given species onto the given rank,
    /// taking it from the acting player's reserve.
    Drop(RankIndex, Species),
}

} // verus!
