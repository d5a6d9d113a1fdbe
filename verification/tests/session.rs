use sotm_client::data::{Item, Location};
use sotm_client::datapackage::DefaultDatapackageStore;
use sotm_client::locations::Locations;
use sotm_client::message::{Connected, Message, NetworkPlayer};
use sotm_client::registry::{
    ENV_MEGALOPOLIS, HERO_LEGACY, VAR_GI_BUNKER, VILLAIN_AMBUSCADE,
};
use sotm_client::session::{update_for_message, Session, Update};
use sotm_client::state::RawSlotData;

fn store_with_own_mappings() -> DefaultDatapackageStore {
    let mut store = DefaultDatapackageStore::new(vec![]);
    store.add_own_mappings(
        vec![
            (100, Item::Hero(HERO_LEGACY)),
            (101, Item::Villain(VILLAIN_AMBUSCADE)),
            (102, Item::Scion),
            (103, Item::Environment(ENV_MEGALOPOLIS)),
        ],
        vec![
            (200, (Location::Villain(VILLAIN_AMBUSCADE, 0), 1)),
            (201, (Location::Villain(VILLAIN_AMBUSCADE, 0), 2)),
            (210, (Location::Environment(ENV_MEGALOPOLIS), 1)),
            (220, (Location::Variant(VAR_GI_BUNKER), 1)),
        ],
    );
    store
}

fn connected_session() -> Connected {
    Connected {
        slot: 1,
        players: vec![NetworkPlayer { slot: 1, alias: "Me".to_string() }],
        slot_info: vec![(1, "Sentinels of the Multiverse".to_string())],
        slot_data: RawSlotData {
            required_scions: 10,
            required_villains: 0,
            required_variants: 0,
            villain_difficulty_points: vec![1, 0, 0, 0],
            locations_per: vec![2, 1, 1, 1, 1, 1],
        },
        checked_locations: vec![],
        missing_locations: vec![],
    }
}

fn session() -> Session {
    Session::new(
        "seed-9",
        store_with_own_mappings(),
        &connected_session(),
        "Me",
        Locations::new(),
    )
}

#[test]
fn session_new_starts_from_loaded_checked_set() {
    let mut loaded = Locations::new();
    loaded.mark_environment(ENV_MEGALOPOLIS);
    let s = Session::new("seed-9", store_with_own_mappings(), &connected_session(), "Me", loaded);
    assert_eq!(s.seed, "seed-9");
    assert_eq!(s.slot, "Me");
    assert_eq!(s.players, vec![(1, "Me".to_string())]);
    assert_eq!(s.state.items.scions, 0);
    assert!(!s.state.checked_locations.has_unchecked_environment(ENV_MEGALOPOLIS));
    assert_eq!(s.state.slot_data.required_scions, 10);
}

#[test]
fn apply_item_ids_resolves_known_ids_only() {
    let mut s = session();
    s.apply_item_ids(&vec![100, 102, 999, 101, 102]);
    assert!(s.state.items.has_base_hero(HERO_LEGACY));
    assert!(s.state.items.has_villain(VILLAIN_AMBUSCADE));
    assert_eq!(s.state.items.scions, 2);
}

#[test]
fn location_ids_expand_to_configured_copies() {
    let s = session();
    // A tier-0 villain check reports both configured copies; the others one.
    let ids = s.location_ids_to_send(&vec![
        Location::Villain(VILLAIN_AMBUSCADE, 0),
        Location::Environment(ENV_MEGALOPOLIS),
        Location::Variant(VAR_GI_BUNKER),
        Location::Victory,
    ]);
    assert_eq!(ids, vec![200, 201, 210, 220]);
}

#[test]
fn location_ids_skip_unknown_copies() {
    let s = session();
    let ids = s.location_ids_to_send(&vec![Location::Villain(VILLAIN_AMBUSCADE, 1)]);
    assert!(ids.is_empty());
}

#[test]
fn mark_locations_records_each_check() {
    let mut s = session();
    s.mark_locations(&vec![
        Location::Villain(VILLAIN_AMBUSCADE, 0),
        Location::Variant(VAR_GI_BUNKER),
        Location::Victory,
    ]);
    assert!(!s.state.checked_locations.has_unchecked_villain(VILLAIN_AMBUSCADE, 0));
    assert!(s.state.checked_locations.has_unchecked_villain(VILLAIN_AMBUSCADE, 1));
    assert!(!s.state.checked_locations.has_unchecked_variant(VAR_GI_BUNKER));
    assert!(s.state.checked_locations.victory);
}

#[test]
fn reader_turns_messages_into_loop_events() {
    match update_for_message(Message::ReceivedItems(vec![3, 4])) {
        Some(Update::Items(ids)) => assert_eq!(ids, vec![3, 4]),
        _ => panic!("expected an item event"),
    }
    match update_for_message(Message::PrintJson("hi".to_string())) {
        Some(Update::Msg(t)) => assert_eq!(t, "hi"),
        _ => panic!("expected a message event"),
    }
    assert!(update_for_message(Message::RoomUpdate).is_none());
    assert!(update_for_message(Message::Bounced).is_none());
}
