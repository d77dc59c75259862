//! Canonical state representation and move vocabulary for Snipe Hunt, a
//! two-player, perfect-information board game played over six ordered ranks.
//!
//! The crate is a pure value-level data model: the piece enumerations, the
//! per-location piece counters, the full position snapshot (`State`) and the
//! three-variant move vocabulary (`Action`). Legality checking, move
//! generation and search are external consumers of this model; they rely on
//! the indexed access and bounded multiset arithmetic verified here.

pub mod action;
pub mod state;

pub use action::Action;
pub use action::Direction;
pub use state::Player;
pub use state::Rank;
pub use state::RankIndex;
pub use state::Species;
pub use state::SpeciesMultiset;
pub use state::State;
pub use state::PLY_LIMIT;
pub use state::RANK_COUNT;
pub use state::SPECIES_COUNT;
