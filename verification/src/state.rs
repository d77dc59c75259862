//! Board-position data model: piece enumerations, per-location piece
//! counters, per-rank inventories and the full position snapshot.

use vstd::prelude::*;

verus! {

/// One of the sixteen animal piece kinds.
///
/// The variants are densely numbered from 0 (see [`Species::ordinal`]) so a
/// species can serve directly as an array index; the numbering is part of the
/// canonical encoding and must never change.
#[derive(Debug, Clone, Copy, PartialEq, Eq, PartialOrd, Ord, Hash, Structural)]
pub enum Species {
    Rat,
    Ox,
    Tiger,
    Rabbit,
    Dragon,
    Snake,
    Horse,
    Ram,
    Monkey,
    Rooster,
    Dog,
    Boar,
    Fish,
    Elephant,
    Squid,
    Frog,
}

/// The number of distinct species.
pub const SPECIES_COUNT: usize = 16;

impl Species {
    /// The dense ordinal backing this species, in declaration order.
    pub open spec fn ordinal(self) -> int {
        match self {
            Species::Rat => 0,
            Species::Ox => 1,
            Species::Tiger => 2,
            Species::Rabbit => 3,
            Species::Dragon => 4,
            Species::Snake => 5,
            Species::Horse => 6,
            Species::Ram => 7,
            Species::Monkey => 8,
            Species::Rooster => 9,
            Species::Dog => 10,
            Species::Boar => 11,
            Species::Fish => 12,
            Species::Elephant => 13,
            Species::Squid => 14,
            Species::Frog => 15,
        }
    }

    /// The species backed by ordinal `i`: the inverse of [`Species::ordinal`]
    /// on the range of valid ordinals.
    pub open spec fn from_ordinal(i: int) -> Species {
        if i == 0 {
            Species::Rat
        } else if i == 1 {
            Species::Ox
        } else if i == 2 {
            Species::Tiger
        } else if i == 3 {
            Species::Rabbit
        } else if i == 4 {
            Species::Dragon
        } else if i == 5 {
            Species::Snake
        } else if i == 6 {
            Species::Horse
        } else if i == 7 {
            Species::Ram
        } else if i == 8 {
            Species::Monkey
        } else if i == 9 {
            Species::Rooster
        } else if i == 10 {
            Species::Dog
        } else if i == 11 {
            Species::Boar
        } else if i == 12 {
            Species::Fish
        } else if i == 13 {
            Species::Elephant
        } else if i == 14 {
            Species::Squid
        } else {
            Species::Frog
        }
    }

    /// Converts this species to its backing ordinal, usable as an array index.
    pub fn to_index(self) -> (i: usize)
        ensures
            i as int == self.ordinal(),
            i < SPECIES_COUNT,
    {
        match self {
            Species::Rat => 0,
            Species::Ox => 1,
            Species::Tiger => 2,
            Species::Rabbit => 3,
            Species::Dragon => 4,
            Species::Snake => 5,
            Species::Horse => 6,
            Species::Ram => 7,
            Species::Monkey => 8,
            Species::Rooster => 9,
            Species::Dog => 10,
            Species::Boar => 11,
            Species::Fish => 12,
            Species::Elephant => 13,
            Species::Squid => 14,
            Species::Frog => 15,
        }
    }

    /// Recovers a species from its backing ordinal.
    ///
    /// Out-of-range ordinals are a caller contract violation (an external
    /// deserializer must guard against them), so they are excluded here.
    pub fn from_index(i: usize) -> (s: Species)
        requires
            i < SPECIES_COUNT,
        ensures
            s.ordinal() == i as int,
    {
        if i == 0 {
            Species::Rat
        } else if i == 1 {
            Species::Ox
        } else if i == 2 {
            Species::Tiger
        } else if i == 3 {
            Species::Rabbit
        } else if i == 4 {
            Species::Dragon
        } else if i == 5 {
            Species::Snake
        } else if i == 6 {
            Species::Horse
        } else if i == 7 {
            Species::Ram
        } else if i == 8 {
            Species::Monkey
        } else if i == 9 {
            Species::Rooster
        } else if i == 10 {
            Species::Dog
        } else if i == 11 {
            Species::Boar
        } else if i == 12 {
            Species::Fish
        } else if i == 13 {
            Species::Elephant
        } else if i == 14 {
            Species::Squid
        } else {
            Species::Frog
        }
    }
}

/// Distinct species occupy distinct, stable slots: the ordinal assignment is
/// injective, so indexed access for one species can never alias another's
/// slot.
pub proof fn lemma_species_slots_distinct(s1: Species, s2: Species)
    ensures
        s1.ordinal() == s2.ordinal() <==> s1 == s2,
{
}

/// A count of pieces per species at one logical location (one side of one
/// rank, or one player's off-board reserve).
///
/// One byte per species; the bound that a count never exceeds the fixed total
/// supply of its species is the external rules engine's contract, not this
/// type's.
#[derive(Debug, Clone, Eq, Hash)]
pub struct SpeciesMultiset(pub [u8; SPECIES_COUNT]);

impl View for SpeciesMultiset {
    type V = Seq<u8>;

    open spec fn view(&self) -> Seq<u8> {
        self.0@
    }
}

impl PartialEq for SpeciesMultiset {
    /// Two multisets are equal exactly when they record the same count for
    /// every species.
    fn eq(&self, other: &SpeciesMultiset) -> (r: bool) {
        let mut i: usize = 0;
        while i < SPECIES_COUNT
            invariant
                i <= SPECIES_COUNT,
                forall|j: int| 0 <= j < i ==> self@[j] == other@[j],
            decreases SPECIES_COUNT - i,
        {
            if self.0[i] != other.0[i] {
                return false;
            }
            i = i + 1;
        }
        proof {
            assert(self@ =~= other@);
        }
        true
    }
}

impl vstd::std_specs::cmp::PartialEqSpecImpl for SpeciesMultiset {
    open spec fn obeys_eq_spec() -> bool {
        true
    }

    open spec fn eq_spec(&self, other: &SpeciesMultiset) -> bool {
        self@ == other@
    }
}

impl SpeciesMultiset {
    /// The count recorded for `s`.
    pub open spec fn spec_count(self, s: Species) -> u8 {
        self@[s.ordinal()]
    }

    /// A multiset recording zero pieces of every species.
    pub fn new() -> (m: SpeciesMultiset)
        ensures
            forall|s: Species| m.spec_count(s) == 0,
    {
        SpeciesMultiset([0; SPECIES_COUNT])
    }

    /// The count recorded for `s`; total for every species, since every
    /// species has a backing slot by construction.
    pub fn index(&self, s: Species) -> (c: u8)
        ensures
            c == self.spec_count(s),
    {
        self.0[s.to_index()]
    }

    /// A mutable handle on the count recorded for `s`, for a caller to set,
    /// increment or decrement; writing through it leaves every other
    /// species' slot unchanged.
    pub fn index_mut(&mut self, s: Species) -> (c: &mut u8)
        ensures
            *c == old(self).spec_count(s),
            final(self)@ == old(self)@.update(s.ordinal(), *final(c)),
    {
        &mut self.0[s.to_index()]
    }

    /// Adds every species' count of `rhs` into the corresponding slot of
    /// `self`, element-wise in enumeration order.
    ///
    /// The absence of overflow is the caller's contract: no species' combined
    /// count may exceed the byte width, which the external rules engine
    /// guarantees by never letting a count exceed the species' fixed supply.
    pub fn add_assign(&mut self, rhs: &SpeciesMultiset)
        requires
            forall|j: int| 0 <= j < SPECIES_COUNT ==> old(self)@[j] + rhs@[j] <= u8::MAX,
        ensures
            forall|j: int| 0 <= j < SPECIES_COUNT ==> final(self)@[j] == old(self)@[j] + rhs@[j],
    {
        let mut i: usize = 0;
        while i < SPECIES_COUNT
            invariant
                i <= SPECIES_COUNT,
                forall|j: int| 0 <= j < SPECIES_COUNT ==> old(self)@[j] + rhs@[j] <= u8::MAX,
                forall|j: int| 0 <= j < i ==> self@[j] == old(self)@[j] + rhs@[j],
                forall|j: int| i <= j < SPECIES_COUNT ==> self@[j] == old(self)@[j],
            decreases SPECIES_COUNT - i,
        {
            proof {
                assert(self@[i as int] == old(self)@[i as int]);
                assert(old(self)@[i as int] + rhs@[i as int] <= u8::MAX);
            }
            let sum = self.0[i] + rhs.0[i];
            self.0[i] = sum;
            i = i + 1;
        }
    }
}

/// Two multisets are one and the same value exactly when they record the
/// same count for every species: the sixteen slots are the whole of a
/// multiset's identity.
pub proof fn lemma_multiset_eq_is_per_species(a: SpeciesMultiset, b: SpeciesMultiset)
    ensures
        (a == b) <==> (forall|s: Species| a.spec_count(s) == b.spec_count(s)),
{
    if forall|s: Species| a.spec_count(s) == b.spec_count(s) {
        assert forall|j: int| 0 <= j < SPECIES_COUNT implies a.0@[j] == b.0@[j] by {
            assert(a.spec_count(Species::from_ordinal(j)) == b.spec_count(
                Species::from_ordinal(j),
            ));
        }
        assert(a.0 =~= b.0);
    }
}

/// The zero multiset is the identity element of combination: adding a
/// multiset with every count zero into `a` yields `a` itself, unchanged.
pub proof fn lemma_zero_is_combination_identity(
    a: SpeciesMultiset,
    z: SpeciesMultiset,
    c: SpeciesMultiset,
)
    requires
        forall|s: Species| z.spec_count(s) == 0,
        forall|j: int| 0 <= j < SPECIES_COUNT ==> c@[j] == a@[j] + z@[j],
    ensures
        c == a,
{
    assert forall|j: int| 0 <= j < SPECIES_COUNT implies c.0@[j] == a.0@[j] by {
        assert(z.spec_count(Species::from_ordinal(j)) == 0);
        assert(z@[j] == 0);
        assert(c@[j] == a@[j]);
    }
    assert(c.0 =~= a.0);
}

/// The side a player sits on; `Alpha` moves first in the standard setup.
#[derive(Debug, Copy, Clone, PartialEq, Eq, Hash, Structural)]
pub enum Player {
    Alpha,
    Beta,
}

impl Player {
    /// The dense ordinal backing this player, in declaration order.
    pub open spec fn ordinal(self) -> int {
        match self {
            Player::Alpha => 0,
            Player::Beta => 1,
        }
    }

    /// Converts this player to its backing ordinal.
    pub fn to_index(self) -> (i: usize)
        ensures
            i as int == self.ordinal(),
            i < 2,
    {
        match self {
            Player::Alpha => 0,
            Player::Beta => 1,
        }
    }

    /// Recovers a player from its backing ordinal.
    pub fn from_index(i: usize) -> (p: Player)
        requires
            i < 2,
        ensures
            p.ordinal() == i as int,
    {
        if i == 0 {
            Player::Alpha
        } else {
            Player::Beta
        }
    }
}

/// The number of board ranks.
pub const RANK_COUNT: usize = 6;

/// One of the six ordered board rows, usable directly as an array index.
#[derive(Debug, Clone, Copy, PartialEq, Eq, PartialOrd, Ord, Hash, Structural)]
pub enum RankIndex {
    R1,
    R2,
    R3,
    R4,
    R5,
    R6,
}

impl RankIndex {
    /// The dense ordinal backing this rank index, in declaration order.
    pub open spec fn ordinal(self) -> int {
        match self {
            RankIndex::R1 => 0,
            RankIndex::R2 => 1,
            RankIndex::R3 => 2,
            RankIndex::R4 => 3,
            RankIndex::R5 => 4,
            RankIndex::R6 => 5,
        }
    }

    /// Converts this rank index to its backing ordinal.
    pub fn to_index(self) -> (i: usize)
        ensures
            i as int == self.ordinal(),
            i < RANK_COUNT,
    {
        match self {
            RankIndex::R1 => 0,
            RankIndex::R2 => 1,
            RankIndex::R3 => 2,
            RankIndex::R4 => 3,
            RankIndex::R5 => 4,
            RankIndex::R6 => 5,
        }
    }

    /// Recovers a rank index from its backing ordinal.
    pub fn from_index(i: usize) -> (r: RankIndex)
        requires
            i < RANK_COUNT,
        ensures
            r.ordinal() == i as int,
    {
        if i == 0 {
            RankIndex::R1
        } else if i == 1 {
            RankIndex::R2
        } else if i == 2 {
            RankIndex::R3
        } else if i == 3 {
            RankIndex::R4
        } else if i == 4 {
            RankIndex::R5
        } else {
            RankIndex::R6
        }
    }
}

/// One board row: per side, a flag for that side's unique snipe piece and a
/// multiset of that side's other animals on the row.
///
/// A single rank cannot observe its siblings, so the board-wide invariant
/// that a side's snipe sits on at most one rank lives on [`State`], not here.
#[derive(Debug, Clone, Eq, Hash)]
pub struct Rank {
    pub alpha_snipe_present: bool,
    pub alpha_animals: SpeciesMultiset,
    pub beta_snipe_present: bool,
    pub beta_animals: SpeciesMultiset,
}

impl Rank {
    /// Field-by-field equality, the meaning of `==` on ranks.
    pub open spec fn same_fields(self, other: Rank) -> bool {
        &&& self.alpha_snipe_present == other.alpha_snipe_present
        &&& self.alpha_animals@ == other.alpha_animals@
        &&& self.beta_snipe_present == other.beta_snipe_present
        &&& self.beta_animals@ == other.beta_animals@
    }

    /// 1 if `p`'s snipe is present on this rank, else 0.
    pub open spec fn snipe_flag(self, p: Player) -> int {
        match p {
            Player::Alpha => if self.alpha_snipe_present { 1int } else { 0int },
            Player::Beta => if self.beta_snipe_present { 1int } else { 0int },
        }
    }

    /// A rank with no snipe and no animals on either side.
    pub fn new() -> (r: Rank)
        ensures
            !r.alpha_snipe_present,
            !r.beta_snipe_present,
            forall|s: Species| r.alpha_animals.spec_count(s) == 0,
            forall|s: Species| r.beta_animals.spec_count(s) == 0,
    {
        Rank {
            alpha_snipe_present: false,
            alpha_animals: SpeciesMultiset::new(),
            beta_snipe_present: false,
            beta_animals: SpeciesMultiset::new(),
        }
    }
}

impl PartialEq for Rank {
    /// Two ranks are equal exactly when every field is pairwise equal.
    fn eq(&self, other: &Rank) -> (r: bool) {
        self.alpha_snipe_present == other.alpha_snipe_present
            && self.alpha_animals == other.alpha_animals
            && self.beta_snipe_present == other.beta_snipe_present
            && self.beta_animals == other.beta_animals
    }
}

impl vstd::std_specs::cmp::PartialEqSpecImpl for Rank {
    open spec fn obeys_eq_spec() -> bool {
        true
    }

    open spec fn eq_spec(&self, other: &Rank) -> bool {
        self.same_fields(*other)
    }
}

/// The number of completed half-moves after which an external collaborator
/// declares the game drawn; shared domain knowledge, not enforced here.
pub const PLY_LIMIT: u16 = 400;

/// A full position snapshot: ply counter, active player, both players'
/// off-board reserves, and the six-rank board in fixed order.
///
/// A `State` is a self-contained value: it compares and hashes purely by
/// content, so positions reached by different move orders collide to the
/// same transposition key.
#[derive(Debug, Clone, Eq, Hash)]
pub struct State {
    pub finished_plies: u16,
    pub active_player: Player,
    pub alpha_reserve: SpeciesMultiset,
    pub beta_reserve: SpeciesMultiset,
    pub ranks: [Rank; RANK_COUNT],
}

impl State {
    /// Field-by-field equality, every constituent included: the meaning of
    /// `==` on states.
    pub open spec fn same_fields(self, other: State) -> bool {
        &&& self.finished_plies == other.finished_plies
        &&& self.active_player == other.active_player
        &&& self.alpha_reserve@ == other.alpha_reserve@
        &&& self.beta_reserve@ == other.beta_reserve@
        &&& forall|j: int| 0 <= j < RANK_COUNT ==> (#[trigger] self.ranks@[j]).same_fields(
            other.ranks@[j],
        )
    }

    /// The rank at `i`, in canonical board order.
    pub fn rank(&self, i: RankIndex) -> (r: &Rank)
        ensures
            *r == self.ranks@[i.ordinal()],
    {
        &self.ranks[i.to_index()]
    }

    /// How many ranks currently carry `p`'s snipe.
    pub open spec fn snipe_count(self, p: Player) -> int {
        self.ranks@[0].snipe_flag(p) + self.ranks@[1].snipe_flag(p) + self.ranks@[2].snipe_flag(
            p,
        ) + self.ranks@[3].snipe_flag(p) + self.ranks@[4].snipe_flag(p)
            + self.ranks@[5].snipe_flag(p)
    }

    /// A well-formed position carries each side's unique snipe on at most
    /// one rank; the snipe is off the board exactly when no rank carries it.
    pub open spec fn snipe_exclusive(self) -> bool {
        &&& self.snipe_count(Player::Alpha) <= 1
        &&& self.snipe_count(Player::Beta) <= 1
    }

    /// The number of ranks carrying `p`'s snipe flag.
    pub fn snipe_rank_count(&self, p: Player) -> (n: u8)
        ensures
            n as int == self.snipe_count(p),
    {
        let mut n: u8 = 0;
        match p {
            Player::Alpha => {
                if self.ranks[0].alpha_snipe_present {
                    n = n + 1;
                }
                if self.ranks[1].alpha_snipe_present {
                    n = n + 1;
                }
                if self.ranks[2].alpha_snipe_present {
                    n = n + 1;
                }
                if self.ranks[3].alpha_snipe_present {
                    n = n + 1;
                }
                if self.ranks[4].alpha_snipe_present {
                    n = n + 1;
                }
                if self.ranks[5].alpha_snipe_present {
                    n = n + 1;
                }
            },
            Player::Beta => {
                if self.ranks[0].beta_snipe_present {
                    n = n + 1;
                }
                if self.ranks[1].beta_snipe_present {
                    n = n + 1;
                }
                if self.ranks[2].beta_snipe_present {
                    n = n + 1;
                }
                if self.ranks[3].beta_snipe_present {
                    n = n + 1;
                }
                if self.ranks[4].beta_snipe_present {
                    n = n + 1;
                }
                if self.ranks[5].beta_snipe_present {
                    n = n + 1;
                }
            },
        }
        n
    }

    /// Whether each side's snipe sits on at most one rank: the cross-rank
    /// invariant an external rules engine must maintain, checkable here
    /// because only the whole state can observe all six ranks.
    pub fn is_snipe_exclusive(&self) -> (r: bool)
        ensures
            r == self.snipe_exclusive(),
    {
        self.snipe_rank_count(Player::Alpha) <= 1 && self.snipe_rank_count(Player::Beta) <= 1
    }

    /// The total number of pieces of species `s` anywhere in the position:
    /// both reserves plus both sides of all six ranks.
    pub open spec fn spec_species_total(self, s: Species) -> int {
        self.alpha_reserve.spec_count(s) + self.beta_reserve.spec_count(s)
            + self.ranks@[0].alpha_animals.spec_count(s) + self.ranks@[0].beta_animals.spec_count(
            s,
        ) + self.ranks@[1].alpha_animals.spec_count(s) + self.ranks@[1].beta_animals.spec_count(
            s,
        ) + self.ranks@[2].alpha_animals.spec_count(s) + self.ranks@[2].beta_animals.spec_count(
            s,
        ) + self.ranks@[3].alpha_animals.spec_count(s) + self.ranks@[3].beta_animals.spec_count(
            s,
        ) + self.ranks@[4].alpha_animals.spec_count(s) + self.ranks@[4].beta_animals.spec_count(
            s,
        ) + self.ranks@[5].alpha_animals.spec_count(s) + self.ranks@[5].beta_animals.spec_count(s)
    }

    /// Sums species `s` over both reserves and every rank's two sides.
    ///
    /// Legal transitions conserve this total for every species (captured
    /// pieces return to a reserve, drops leave it): an external rules engine
    /// can hold any transition it produces against this sum.
    pub fn species_total(&self, s: Species) -> (t: u16)
        ensures
            t as int == self.spec_species_total(s),
    {
        let mut t: u16 = self.alpha_reserve.index(s) as u16;
        t = t + self.beta_reserve.index(s) as u16;
        t = t + self.ranks[0].alpha_animals.index(s) as u16;
        t = t + self.ranks[0].beta_animals.index(s) as u16;
        t = t + self.ranks[1].alpha_animals.index(s) as u16;
        t = t + self.ranks[1].beta_animals.index(s) as u16;
        t = t + self.ranks[2].alpha_animals.index(s) as u16;
        t = t + self.ranks[2].beta_animals.index(s) as u16;
        t = t + self.ranks[3].alpha_animals.index(s) as u16;
        t = t + self.ranks[3].beta_animals.index(s) as u16;
        t = t + self.ranks[4].alpha_animals.index(s) as u16;
        t = t + self.ranks[4].beta_animals.index(s) as u16;
        t = t + self.ranks[5].alpha_animals.index(s) as u16;
        t = t + self.ranks[5].beta_animals.index(s) as u16;
        t
    }

    /// An empty position: no pieces anywhere, no snipes on the board, zero
    /// completed plies, `Alpha` to move. The literal starting layout is
    /// external domain knowledge; a setup routine fills this in.
    pub fn new() -> (st: State)
        ensures
            st.finished_plies == 0,
            st.active_player == Player::Alpha,
            forall|s: Species| st.alpha_reserve.spec_count(s) == 0,
            forall|s: Species| st.beta_reserve.spec_count(s) == 0,
            st.ranks@.len() == RANK_COUNT,
            forall|j: int| 0 <= j < RANK_COUNT ==> !(#[trigger] st.ranks@[j]).alpha_snipe_present
                && !st.ranks@[j].beta_snipe_present,
            forall|j: int, s: Species| 0 <= j < RANK_COUNT ==> (
            #[trigger] st.ranks@[j].alpha_animals.spec_count(s)) == 0 && st.ranks@[
                j
            ].beta_animals.spec_count(s) == 0,
    {
        State {
            finished_plies: 0,
            active_player: Player::Alpha,
            alpha_reserve: SpeciesMultiset::new(),
            beta_reserve: SpeciesMultiset::new(),
            ranks: [
                Rank::new(),
                Rank::new(),
                Rank::new(),
                Rank::new(),
                Rank::new(),
                Rank::new(),
            ],
        }
    }

    /// A mutable handle on the rank at `i`: the sole mutation surface for
    /// rank contents. Writing through it changes no other rank and no other
    /// field of the state.
    pub fn rank_mut(&mut self, i: RankIndex) -> (r: &mut Rank)
        ensures
            *r == old(self).ranks@[i.ordinal()],
            final(self).ranks@ == old(self).ranks@.update(i.ordinal(), *final(r)),
            final(self).finished_plies == old(self).finished_plies,
            final(self).active_player == old(self).active_player,
            final(self).alpha_reserve == old(self).alpha_reserve,
            final(self).beta_reserve == old(self).beta_reserve,
    {
        &mut self.ranks[i.to_index()]
    }
}

impl PartialEq for State {
    /// Two states are equal exactly when every field — ply counter, active
    /// player, both reserves and all six ranks — is pairwise equal.
    fn eq(&self, other: &State) -> (r: bool) {
        if self.finished_plies != other.finished_plies {
            return false;
        }
        if self.active_player != other.active_player {
            return false;
        }
        if !(self.alpha_reserve == other.alpha_reserve) {
            return false;
        }
        if !(self.beta_reserve == other.beta_reserve) {
            return false;
        }
        let mut i: usize = 0;
        while i < RANK_COUNT
            invariant
                i <= RANK_COUNT,
                forall|j: int| 0 <= j < i ==> (#[trigger] self.ranks@[j]).same_fields(
                    other.ranks@[j],
                ),
            decreases RANK_COUNT - i,
        {
            if !(self.ranks[i] == other.ranks[i]) {
                return false;
            }
            i = i + 1;
        }
        true
    }
}

impl vstd::std_specs::cmp::PartialEqSpecImpl for State {
    open spec fn obeys_eq_spec() -> bool {
        true
    }

    open spec fn eq_spec(&self, other: &State) -> bool {
        self.same_fields(*other)
    }
}

/// Equality on states is exactly field-by-field equality of every
/// constituent: two states built independently from the same position are
/// one and the same value, and differing in any nested field makes them
/// unequal.
pub proof fn lemma_state_eq_is_fieldwise(s1: State, s2: State)
    ensures
        s1.same_fields(s2) <==> s1 == s2,
{
    if s1.same_fields(s2) {
        assert(s1.alpha_reserve.0 =~= s2.alpha_reserve.0);
        assert(s1.beta_reserve.0 =~= s2.beta_reserve.0);
        assert forall|j: int| 0 <= j < RANK_COUNT implies #[trigger] s1.ranks@[j]
            == s2.ranks@[j] by {
            assert(s1.ranks@[j].alpha_animals.0 =~= s2.ranks@[j].alpha_animals.0);
            assert(s1.ranks@[j].beta_animals.0 =~= s2.ranks@[j].beta_animals.0);
        }
        assert(s1.ranks =~= s2.ranks);
    }
}

} // verus!
