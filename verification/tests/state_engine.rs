use sotm_client::data::Item;
use sotm_client::filler::{Filler, ReceivedFiller};
use sotm_client::items::Items;
use sotm_client::locations::Locations;
use sotm_client::logic::can_unlock;
use sotm_client::registry::{
    ENV_ROOK_CITY, ENV_SILVER_GULCH_1883, ENV_THE_FINAL_WASTELAND, HERO_BUNKER, HERO_HAKA,
    HERO_VISIONARY, TEAM_AMBUSCADE, TEAM_BARON_BLADE, TEAM_ERMINE, VAR_DARK_VISIONARY,
    VAR_GI_BUNKER, VAR_FREEDOM_FIVE_LEGACY, VAR_AMERICAS_GREATEST_LEGACY, VAR_THE_ETERNAL_HAKA,
    VILLAIN_AMBUSCADE, VILLAIN_GLOOMWEAVER, VILLAIN_SKINWALKER_GLOOMWEAVER,
    VILLAIN_SPITE_AGENT_OF_GLOOM, VILLAIN_BARON_BLADE, TRACKED_VARIANT_COUNT,
};
use sotm_client::state::{RawSlotData, State};

fn raw_slot_data() -> RawSlotData {
    RawSlotData {
        required_scions: 3,
        required_villains: 2,
        required_variants: 1,
        villain_difficulty_points: vec![1, 2, 3, 4],
        locations_per: vec![1, 1, 1, 1, 1, 1],
    }
}

#[test]
fn items_mutators_are_monotonic_and_idempotent() {
    let mut items = Items::new();
    assert!(!items.has_villain(VILLAIN_AMBUSCADE));
    items.set_villain(VILLAIN_AMBUSCADE);
    assert!(items.has_villain(VILLAIN_AMBUSCADE));
    let before = items.villains;
    items.set_villain(VILLAIN_AMBUSCADE);
    assert_eq!(items.villains, before);
    assert!(items.has_villain(VILLAIN_AMBUSCADE));

    items.set_team_villain(TEAM_ERMINE);
    assert!(items.has_team_villain(TEAM_ERMINE));
    assert!(!items.has_team_villain(TEAM_AMBUSCADE));

    items.set_hero(HERO_BUNKER);
    assert!(items.has_hero(HERO_BUNKER));
    assert!(items.has_base_hero(HERO_BUNKER));
    assert!(!items.has_hero(HERO_HAKA));

    items.set_hero_variant(VAR_DARK_VISIONARY);
    assert!(items.has_hero_variant(VAR_DARK_VISIONARY));
    assert!(items.has_hero(HERO_VISIONARY));
    assert!(!items.has_base_hero(HERO_VISIONARY));

    items.set_environment(ENV_ROOK_CITY);
    assert!(items.has_environment(ENV_ROOK_CITY));
    // Nothing set earlier was cleared by any later mutation.
    assert!(items.has_villain(VILLAIN_AMBUSCADE));
    assert!(items.has_team_villain(TEAM_ERMINE));
    assert!(items.has_base_hero(HERO_BUNKER));
}

#[test]
fn set_item_dispatches_and_counts_scions() {
    let mut items = Items::new();
    items.set_item(Item::Villain(VILLAIN_GLOOMWEAVER));
    items.set_item(Item::Hero(HERO_VISIONARY));
    items.set_item(Item::Scion);
    items.set_item(Item::Scion);
    items.set_item(Item::Filler(Filler::Handsize));
    assert!(items.has_villain(VILLAIN_GLOOMWEAVER));
    assert!(items.has_base_hero(HERO_VISIONARY));
    assert_eq!(items.scions, 2);
}

#[test]
fn received_filler_records_nothing() {
    let mut tally = ReceivedFiller::new();
    tally.add(Filler::HeroHp);
    let again = ReceivedFiller::new();
    assert_eq!(tally.handsize, again.handsize);
    assert_eq!(tally.hero_hp, again.hero_hp);
}

#[test]
fn locations_mark_and_query() {
    let mut locs = Locations::new();
    assert!(locs.has_unchecked_villain(VILLAIN_AMBUSCADE, 0));
    locs.mark_villain(VILLAIN_AMBUSCADE, 0);
    assert!(!locs.has_unchecked_villain(VILLAIN_AMBUSCADE, 0));
    assert!(locs.has_unchecked_villain(VILLAIN_AMBUSCADE, 1));

    locs.mark_team_villain(TEAM_BARON_BLADE, 3);
    assert!(!locs.has_unchecked_team_villain(TEAM_BARON_BLADE, 3));

    assert!(locs.has_unchecked_variant(VAR_GI_BUNKER));
    locs.mark_variant(VAR_GI_BUNKER);
    assert!(!locs.has_unchecked_variant(VAR_GI_BUNKER));

    // A variant outside the tracked range has no objective at all.
    assert!(!locs.has_unchecked_variant(TRACKED_VARIANT_COUNT));
    locs.mark_variant(TRACKED_VARIANT_COUNT);
    assert!(!locs.has_unchecked_variant(TRACKED_VARIANT_COUNT));

    locs.mark_environment(ENV_ROOK_CITY);
    assert!(!locs.has_unchecked_environment(ENV_ROOK_CITY));
    assert!(locs.has_unchecked_environment(ENV_SILVER_GULCH_1883));
}

#[test]
fn unlock_requirements_follow_the_table() {
    let mut items = Items::new();
    assert!(!can_unlock(VAR_GI_BUNKER, &items));
    items.set_hero(HERO_BUNKER);
    assert!(can_unlock(VAR_GI_BUNKER, &items));

    assert!(!can_unlock(VAR_DARK_VISIONARY, &items));
    items.set_villain(VILLAIN_GLOOMWEAVER);
    assert!(!can_unlock(VAR_DARK_VISIONARY, &items));
    items.set_hero(HERO_VISIONARY);
    assert!(can_unlock(VAR_DARK_VISIONARY, &items));

    assert!(!can_unlock(VAR_AMERICAS_GREATEST_LEGACY, &items));
    items.set_villain(VILLAIN_AMBUSCADE);
    items.set_environment(ENV_SILVER_GULCH_1883);
    assert!(can_unlock(VAR_AMERICAS_GREATEST_LEGACY, &items));

    items.set_hero(HERO_HAKA);
    assert!(!can_unlock(VAR_THE_ETERNAL_HAKA, &items));
    items.set_environment(ENV_THE_FINAL_WASTELAND);
    assert!(can_unlock(VAR_THE_ETERNAL_HAKA, &items));

    // A requirement with a long chain of prerequisites stays locked.
    assert!(!can_unlock(VAR_FREEDOM_FIVE_LEGACY, &items));
    // Variant ordinal 0 stands for a base hero and can never be unlocked.
    assert!(!can_unlock(0, &items));
}

#[test]
fn available_locations_never_include_checked_ones() {
    let mut state = State::new(&raw_slot_data());
    state.items.set_villain(VILLAIN_AMBUSCADE);
    state.items.set_environment(ENV_ROOK_CITY);
    state.items.set_hero(HERO_BUNKER);

    let before = state.available_locations();
    assert!(before.villains.contains(&(VILLAIN_AMBUSCADE, 0)));
    assert!(before.villains.contains(&(VILLAIN_AMBUSCADE, 3)));
    assert!(before.environments.contains(&ENV_ROOK_CITY));
    assert!(before.variants.contains(&VAR_GI_BUNKER));

    state.checked_locations.mark_villain(VILLAIN_AMBUSCADE, 0);
    state.checked_locations.mark_environment(ENV_ROOK_CITY);
    state.checked_locations.mark_variant(VAR_GI_BUNKER);

    let after = state.available_locations();
    assert!(!after.villains.contains(&(VILLAIN_AMBUSCADE, 0)));
    assert!(after.villains.contains(&(VILLAIN_AMBUSCADE, 1)));
    assert!(!after.environments.contains(&ENV_ROOK_CITY));
    assert!(!after.variants.contains(&VAR_GI_BUNKER));
}

#[test]
fn paired_villain_rule_gates_upper_tiers() {
    let mut state = State::new(&raw_slot_data());
    state.items.set_villain(VILLAIN_SPITE_AGENT_OF_GLOOM);

    let only_base = state.available_locations();
    assert!(only_base.villains.contains(&(VILLAIN_SPITE_AGENT_OF_GLOOM, 0)));
    assert!(only_base.villains.contains(&(VILLAIN_SPITE_AGENT_OF_GLOOM, 1)));
    assert!(!only_base.villains.contains(&(VILLAIN_SPITE_AGENT_OF_GLOOM, 2)));
    assert!(!only_base.villains.contains(&(VILLAIN_SPITE_AGENT_OF_GLOOM, 3)));

    state.items.set_villain(VILLAIN_SKINWALKER_GLOOMWEAVER);
    let with_upgraded = state.available_locations();
    assert!(with_upgraded.villains.contains(&(VILLAIN_SPITE_AGENT_OF_GLOOM, 2)));
    assert!(with_upgraded.villains.contains(&(VILLAIN_SPITE_AGENT_OF_GLOOM, 3)));
    // The upgraded form itself never opens its upper tiers.
    assert!(with_upgraded.villains.contains(&(VILLAIN_SKINWALKER_GLOOMWEAVER, 0)));
    assert!(with_upgraded.villains.contains(&(VILLAIN_SKINWALKER_GLOOMWEAVER, 1)));
    assert!(!with_upgraded.villains.contains(&(VILLAIN_SKINWALKER_GLOOMWEAVER, 2)));
    assert!(!with_upgraded.villains.contains(&(VILLAIN_SKINWALKER_GLOOMWEAVER, 3)));
}

#[test]
fn team_villains_need_three_distinct_members() {
    let mut state = State::new(&raw_slot_data());
    state.items.set_team_villain(TEAM_AMBUSCADE);
    state.items.set_team_villain(TEAM_BARON_BLADE);
    assert!(state.available_locations().team_villains.is_empty());
    state.items.set_team_villain(TEAM_ERMINE);
    let avail = state.available_locations();
    assert!(avail.team_villains.contains(&(TEAM_AMBUSCADE, 0)));
    assert!(avail.team_villains.contains(&(TEAM_ERMINE, 3)));
    assert_eq!(avail.team_villains.len(), 12);
}

#[test]
fn negative_slot_data_clamps_to_zero() {
    let raw = RawSlotData {
        required_scions: -5,
        required_villains: -1,
        required_variants: -9,
        villain_difficulty_points: vec![-1, 2, -3, 4],
        locations_per: vec![-2, 0, 1, 300, 5, 6],
    };
    let state = State::new(&raw);
    assert_eq!(state.slot_data.required_scions, 0);
    assert_eq!(state.slot_data.required_villains, 0);
    assert_eq!(state.slot_data.required_variants, 0);
    assert_eq!(state.slot_data.villain_difficulty_points, vec![0, 2, 0, 4]);
    assert_eq!(state.slot_data.locations_per, vec![0, 0, 1, 255, 5, 6]);
    // With every threshold at zero, victory is available at once.
    assert!(state.victory_available());
}

fn expected_victory(state: &State) -> bool {
    let enough_scions = state.items.scions >= state.slot_data.required_scions;
    let variant_count = state.checked_locations.variants.count_ones();
    let enough_variants = variant_count >= state.slot_data.required_variants;
    let mut score: u64 = 0;
    for v in 0..state.checked_locations.villains.len() {
        let byte = state.checked_locations.villains[v];
        for d in 0..4 {
            if byte & (1 << d) != 0 {
                score += state.slot_data.villain_difficulty_points[d] as u64;
            }
        }
    }
    let enough_villains = score >= state.slot_data.required_villains as u64;
    enough_scions && enough_variants && enough_villains
}

#[test]
fn victory_threshold_matches_the_three_comparisons() {
    // A small linear congruential generator keeps the cases reproducible.
    let mut seed: u64 = 0x2545F4914F6CDD1D;
    let mut next = || {
        seed = seed.wrapping_mul(6364136223846793005).wrapping_add(1442695040888963407);
        seed >> 16
    };
    for _ in 0..200 {
        let raw = RawSlotData {
            required_scions: (next() % 8) as i32,
            required_villains: (next() % 40) as i32,
            required_variants: (next() % 6) as i32,
            villain_difficulty_points: vec![
                (next() % 5) as i32,
                (next() % 5) as i32,
                (next() % 5) as i32,
                (next() % 5) as i32,
            ],
            locations_per: vec![1, 1, 1, 1, 1, 1],
        };
        let mut state = State::new(&raw);
        state.items.scions = (next() % 8) as u32;
        for v in 0..state.checked_locations.villains.len() {
            state.checked_locations.villains[v] = (next() % 16) as u8;
        }
        state.checked_locations.variants = (next() as u128) << 1;
        assert_eq!(state.victory_available(), expected_victory(&state));
    }
}

#[test]
fn victory_exact_threshold_case() {
    let raw = RawSlotData {
        required_scions: 2,
        required_villains: 7,
        required_variants: 2,
        villain_difficulty_points: vec![1, 2, 3, 4],
        locations_per: vec![1, 1, 1, 1, 1, 1],
    };
    let mut state = State::new(&raw);
    state.items.scions = 2;
    // One villain checked at tiers 0 and 2, another at tier 3: 1 + 3 + 4 > 7.
    state.checked_locations.mark_villain(VILLAIN_BARON_BLADE, 0);
    state.checked_locations.mark_villain(VILLAIN_BARON_BLADE, 2);
    state.checked_locations.mark_villain(VILLAIN_AMBUSCADE, 3);
    state.checked_locations.mark_variant(VAR_GI_BUNKER);
    state.checked_locations.mark_variant(VAR_DARK_VISIONARY);
    assert!(state.victory_available());
    // One fewer checked variant and the threshold fails.
    let mut shy = State::new(&raw);
    shy.items.scions = 2;
    shy.checked_locations.mark_villain(VILLAIN_BARON_BLADE, 0);
    shy.checked_locations.mark_villain(VILLAIN_BARON_BLADE, 2);
    shy.checked_locations.mark_villain(VILLAIN_AMBUSCADE, 3);
    shy.checked_locations.mark_variant(VAR_GI_BUNKER);
    assert!(!shy.victory_available());
    // Victory availability reported by the resolver also honours the flag.
    assert!(state.available_locations().victory);
    let mut done = state.clone();
    done.checked_locations.mark_victory();
    assert!(!done.available_locations().victory);
}
