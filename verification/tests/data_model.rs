use snipe_hunt::Player;
use snipe_hunt::Rank;
use snipe_hunt::RankIndex;
use snipe_hunt::Species;
use snipe_hunt::SpeciesMultiset;
use snipe_hunt::State;
use snipe_hunt::PLY_LIMIT;
use snipe_hunt::RANK_COUNT;
use snipe_hunt::SPECIES_COUNT;

use std::hash::Hash;
use std::hash::Hasher;

fn all_species() -> Vec<Species> {
    let mut v = Vec::new();
    for i in 0..SPECIES_COUNT {
        v.push(Species::from_index(i));
    }
    v
}

fn hash_of<T: Hash>(t: &T) -> u64 {
    let mut h = std::collections::hash_map::DefaultHasher::new();
    t.hash(&mut h);
    h.finish()
}

#[test]
fn species_ordinal_round_trip() {
    for i in 0..SPECIES_COUNT {
        assert_eq!(Species::from_index(i).to_index(), i);
    }
    assert_eq!(Species::Rat.to_index(), 0);
    assert_eq!(Species::Frog.to_index(), 15);
}

#[test]
fn rank_index_ordinal_round_trip() {
    for i in 0..RANK_COUNT {
        assert_eq!(RankIndex::from_index(i).to_index(), i);
    }
    assert_eq!(RankIndex::R1.to_index(), 0);
    assert_eq!(RankIndex::R6.to_index(), 5);
}

#[test]
fn player_and_direction_ordinal_round_trip() {
    assert_eq!(Player::from_index(0), Player::Alpha);
    assert_eq!(Player::from_index(1), Player::Beta);
    assert_eq!(Player::Alpha.to_index(), 0);
    assert_eq!(Player::Beta.to_index(), 1);
    assert_eq!(snipe_hunt::Direction::from_index(0).to_index(), 0);
    assert_eq!(snipe_hunt::Direction::from_index(1).to_index(), 1);
}

#[test]
fn species_are_totally_ordered() {
    let species = all_species();
    for i in 0..species.len() {
        for j in 0..species.len() {
            assert_eq!(i < j, species[i] < species[j]);
        }
    }
}

#[test]
fn multiset_slots_are_distinct() {
    // Writing one species' slot must leave every other slot untouched.
    let species = all_species();
    for &written in &species {
        let mut m = SpeciesMultiset::new();
        *m.index_mut(written) = 7;
        for &other in &species {
            let expected = if other == written { 7 } else { 0 };
            assert_eq!(m.index(other), expected);
        }
    }
}

#[test]
fn multiset_indexed_write_then_read() {
    let mut m = SpeciesMultiset::new();
    let species = all_species();
    for (i, &s) in species.iter().enumerate() {
        *m.index_mut(s) = i as u8;
    }
    for (i, &s) in species.iter().enumerate() {
        assert_eq!(m.index(s), i as u8);
    }
}

#[test]
fn combination_sums_every_slot() {
    let mut a = SpeciesMultiset::new();
    let mut b = SpeciesMultiset::new();
    *a.index_mut(Species::Rat) = 2;
    *a.index_mut(Species::Tiger) = 5;
    *a.index_mut(Species::Frog) = 1;
    *b.index_mut(Species::Rat) = 1;
    *b.index_mut(Species::Ox) = 3;
    *b.index_mut(Species::Frog) = 4;
    a.add_assign(&b);
    assert_eq!(a.index(Species::Rat), 3);
    assert_eq!(a.index(Species::Ox), 3);
    assert_eq!(a.index(Species::Tiger), 5);
    assert_eq!(a.index(Species::Frog), 5);
    assert_eq!(a.index(Species::Dog), 0);
    // The right-hand operand is read, not written.
    assert_eq!(b.index(Species::Rat), 1);
    assert_eq!(b.index(Species::Ox), 3);
}

#[test]
fn combination_over_varied_vectors() {
    // Element-wise sums over vectors touching every slot.
    let species = all_species();
    let mut a = SpeciesMultiset::new();
    let mut b = SpeciesMultiset::new();
    for (i, &s) in species.iter().enumerate() {
        *a.index_mut(s) = (i * 3 % 11) as u8;
        *b.index_mut(s) = (i * 5 % 7) as u8;
    }
    let before_a: Vec<u8> = species.iter().map(|&s| a.index(s)).collect();
    let before_b: Vec<u8> = species.iter().map(|&s| b.index(s)).collect();
    a.add_assign(&b);
    for (i, &s) in species.iter().enumerate() {
        assert_eq!(a.index(s), before_a[i] + before_b[i]);
    }
}

#[test]
fn combination_reaches_byte_limit() {
    let mut a = SpeciesMultiset::new();
    let mut b = SpeciesMultiset::new();
    *a.index_mut(Species::Ox) = 250;
    *b.index_mut(Species::Ox) = 5;
    a.add_assign(&b);
    assert_eq!(a.index(Species::Ox), 255);
}

#[test]
fn empty_rank_holds_nothing() {
    let r = Rank::new();
    assert!(!r.alpha_snipe_present);
    assert!(!r.beta_snipe_present);
    for &s in &all_species() {
        assert_eq!(r.alpha_animals.index(s), 0);
        assert_eq!(r.beta_animals.index(s), 0);
    }
}

#[test]
fn ply_limit_is_four_hundred() {
    assert_eq!(PLY_LIMIT, 400u16);
}

#[test]
fn rank_access_addresses_the_indexed_rank() {
    let mut st = State::new();
    st.rank_mut(RankIndex::R4).alpha_snipe_present = true;
    *st.rank_mut(RankIndex::R4).beta_animals.index_mut(Species::Dog) = 2;
    assert!(st.rank(RankIndex::R4).alpha_snipe_present);
    assert_eq!(st.rank(RankIndex::R4).beta_animals.index(Species::Dog), 2);
    // Every other rank is untouched.
    for i in 0..RANK_COUNT {
        let ri = RankIndex::from_index(i);
        if ri != RankIndex::R4 {
            assert_eq!(*st.rank(ri), Rank::new());
        }
    }
}

#[test]
fn state_equality_is_fieldwise() {
    // Two independently built, field-identical states compare equal and
    // hash identically.
    let build = || {
        let mut st = State::new();
        st.finished_plies = 12;
        st.active_player = Player::Beta;
        *st.alpha_reserve.index_mut(Species::Monkey) = 2;
        *st.beta_reserve.index_mut(Species::Squid) = 1;
        st.rank_mut(RankIndex::R2).beta_snipe_present = true;
        *st.rank_mut(RankIndex::R5).alpha_animals.index_mut(Species::Horse) = 3;
        st
    };
    let s1 = build();
    let s2 = build();
    assert_eq!(s1, s2);
    assert_eq!(hash_of(&s1), hash_of(&s2));
}

#[test]
fn state_inequality_from_one_nested_field() {
    let s1 = State::new();
    let mut s2 = State::new();
    s2.rank_mut(RankIndex::R6).alpha_snipe_present = true;
    assert_ne!(s1, s2);

    let mut s3 = State::new();
    *s3.rank_mut(RankIndex::R1).beta_animals.index_mut(Species::Frog) = 1;
    assert_ne!(s1, s3);

    let mut s4 = State::new();
    s4.finished_plies = 1;
    assert_ne!(s1, s4);

    let mut s5 = State::new();
    s5.active_player = Player::Beta;
    assert_ne!(s1, s5);

    let mut s6 = State::new();
    *s6.alpha_reserve.index_mut(Species::Rat) = 1;
    assert_ne!(s1, s6);
}

#[test]
fn cloned_state_is_equal_value() {
    let mut st = State::new();
    st.finished_plies = 3;
    *st.beta_reserve.index_mut(Species::Snake) = 4;
    st.rank_mut(RankIndex::R3).alpha_snipe_present = true;
    let copy = st.clone();
    assert_eq!(st, copy);
    assert_eq!(hash_of(&st), hash_of(&copy));
}

#[test]
fn snipe_exclusivity_of_valid_states() {
    let mut st = State::new();
    assert_eq!(st.snipe_rank_count(Player::Alpha), 0);
    assert_eq!(st.snipe_rank_count(Player::Beta), 0);
    assert!(st.is_snipe_exclusive());

    st.rank_mut(RankIndex::R2).alpha_snipe_present = true;
    st.rank_mut(RankIndex::R5).beta_snipe_present = true;
    assert_eq!(st.snipe_rank_count(Player::Alpha), 1);
    assert_eq!(st.snipe_rank_count(Player::Beta), 1);
    assert!(st.is_snipe_exclusive());

    st.rank_mut(RankIndex::R3).alpha_snipe_present = true;
    assert_eq!(st.snipe_rank_count(Player::Alpha), 2);
    assert!(!st.is_snipe_exclusive());
}

#[test]
fn species_totals_are_conserved_by_transfers() {
    // A capture moves a piece from a rank to a reserve; a drop moves one
    // from a reserve to a rank. Composed from this layer's primitives,
    // neither changes any species' total.
    let mut st = State::new();
    *st.alpha_reserve.index_mut(Species::Rat) = 1;
    *st.rank_mut(RankIndex::R2).alpha_animals.index_mut(Species::Rat) = 3;
    *st.rank_mut(RankIndex::R4).beta_animals.index_mut(Species::Ox) = 2;
    assert_eq!(st.species_total(Species::Rat), 4);
    assert_eq!(st.species_total(Species::Ox), 2);
    assert_eq!(st.species_total(Species::Tiger), 0);

    // Beta captures one Rat on rank 2: it leaves the board for Beta's
    // reserve.
    *st.rank_mut(RankIndex::R2).alpha_animals.index_mut(Species::Rat) -= 1;
    *st.beta_reserve.index_mut(Species::Rat) += 1;
    assert_eq!(st.species_total(Species::Rat), 4);

    // Alpha drops its reserved Rat onto rank 6.
    *st.alpha_reserve.index_mut(Species::Rat) -= 1;
    *st.rank_mut(RankIndex::R6).alpha_animals.index_mut(Species::Rat) += 1;
    assert_eq!(st.species_total(Species::Rat), 4);
    assert_eq!(st.species_total(Species::Ox), 2);
}

#[test]
fn round_trip_combination_at_rank_three() {
    // Active player Alpha, empty Beta reserve, a single Rat at rank 3 on
    // Alpha's side.
    let mut st = State::new();
    st.active_player = Player::Alpha;
    *st.rank_mut(RankIndex::R3).alpha_animals.index_mut(Species::Rat) = 1;
    for &s in &all_species() {
        assert_eq!(st.beta_reserve.index(s), 0);
    }

    // Combining an empty multiset is the identity.
    let empty = SpeciesMultiset::new();
    st.rank_mut(RankIndex::R3).alpha_animals.add_assign(&empty);
    assert_eq!(st.rank(RankIndex::R3).alpha_animals.index(Species::Rat), 1);
    for &s in &all_species() {
        if s != Species::Rat {
            assert_eq!(st.rank(RankIndex::R3).alpha_animals.index(s), 0);
        }
    }

    // Combining a one-Rat multiset yields a two-Rat count.
    let mut one_rat = SpeciesMultiset::new();
    *one_rat.index_mut(Species::Rat) = 1;
    st.rank_mut(RankIndex::R3).alpha_animals.add_assign(&one_rat);
    assert_eq!(st.rank(RankIndex::R3).alpha_animals.index(Species::Rat), 2);
}

#[test]
fn multiset_equality_is_per_slot() {
    let mut a = SpeciesMultiset::new();
    let mut b = SpeciesMultiset::new();
    assert_eq!(a, b);
    *a.index_mut(Species::Boar) = 1;
    assert_ne!(a, b);
    *b.index_mut(Species::Boar) = 1;
    assert_eq!(a, b);
    assert_eq!(hash_of(&a), hash_of(&b));
}

#[test]
fn actions_carry_their_payload() {
    let a = snipe_hunt::Action::Animal(RankIndex::R2, snipe_hunt::Direction::North, Species::Tiger);
    assert!(matches!(
        a,
        snipe_hunt::Action::Animal(RankIndex::R2, snipe_hunt::Direction::North, Species::Tiger)
    ));
    let s = snipe_hunt::Action::Snipe(snipe_hunt::Direction::South);
    assert!(matches!(s, snipe_hunt::Action::Snipe(snipe_hunt::Direction::South)));
    let d = snipe_hunt::Action::Drop(RankIndex::R6, Species::Elephant);
    assert!(matches!(d, snipe_hunt::Action::Drop(RankIndex::R6, Species::Elephant)));
    let copy = a.clone();
    assert!(matches!(
        copy,
        snipe_hunt::Action::Animal(RankIndex::R2, snipe_hunt::Direction::North, Species::Tiger)
    ));
}
