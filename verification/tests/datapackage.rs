use sotm_client::data::{Item, Location};
use sotm_client::datapackage::DefaultDatapackageStore;
use sotm_client::message::{Connected, GameData, NetworkPlayer};
use sotm_client::registry::{HERO_LEGACY, VILLAIN_AMBUSCADE};
use sotm_client::state::RawSlotData;

fn own_game_data() -> GameData {
    GameData {
        item_name_to_id: vec![
            ("Legacy".to_string(), 100),
            ("Ambuscade".to_string(), 101),
            ("Scion of Oblivaeon".to_string(), 102),
        ],
        location_name_to_id: vec![
            ("Ambuscade - Normal - 1".to_string(), 200),
            ("Ambuscade - Normal - 2".to_string(), 201),
        ],
    }
}

fn other_game_data() -> GameData {
    GameData {
        item_name_to_id: vec![("Sword".to_string(), 1)],
        location_name_to_id: vec![("Cave".to_string(), 2)],
    }
}

#[test]
fn new_indexes_loaded_games_and_records_missing_ones() {
    let store = DefaultDatapackageStore::new(vec![
        (
            "Sentinels of the Multiverse".to_string(),
            "abc".to_string(),
            Some(own_game_data()),
        ),
        ("Other World".to_string(), "def".to_string(), None),
        ("Third Base".to_string(), "ghi".to_string(), None),
    ]);
    assert_eq!(store.missing_games(), vec!["Other World", "Third Base"]);
    assert_eq!(
        store.missing_pairs(),
        vec![
            ("Other World".to_string(), "def".to_string()),
            ("Third Base".to_string(), "ghi".to_string()),
        ]
    );
    // The loaded game's tables resolve by id right away.
    assert_eq!(store.item(100), "Legacy");
    assert_eq!(store.item(999), "Unknown item");
    assert_eq!(store.location(200), "Ambuscade - Normal - 1");
    assert_eq!(store.location(5), "Unknown location");
}

#[test]
fn cache_indexes_fetched_games_like_hits() {
    let mut store = DefaultDatapackageStore::new(vec![
        ("Other World".to_string(), "def".to_string(), None),
    ]);
    assert_eq!(store.missing_games().len(), 1);
    store.cache(vec![("Other World".to_string(), other_game_data())]);
    // The missing list keeps driving the storage write-back; lookups now hit.
    assert_eq!(store.missing_games().len(), 1);
    let connected = connected_with_players();
    let mut store2 = store;
    store2.build_player_map(&connected);
    assert_eq!(store2.get_item(2, 1), "Sword");
    assert_eq!(store2.get_location(2, 2), "Cave");
}

fn connected_with_players() -> Connected {
    Connected {
        slot: 1,
        players: vec![
            NetworkPlayer { slot: 1, alias: "Me".to_string() },
            NetworkPlayer { slot: 2, alias: "Them".to_string() },
        ],
        slot_info: vec![
            (1, "Sentinels of the Multiverse".to_string()),
            (2, "Other World".to_string()),
        ],
        slot_data: RawSlotData {
            required_scions: 0,
            required_villains: 0,
            required_variants: 0,
            villain_difficulty_points: vec![0, 0, 0, 0],
            locations_per: vec![1, 1, 1, 1, 1, 1],
        },
        checked_locations: vec![],
        missing_locations: vec![],
    }
}

#[test]
fn player_map_scopes_names_to_the_right_game() {
    let mut store = DefaultDatapackageStore::new(vec![
        (
            "Sentinels of the Multiverse".to_string(),
            "abc".to_string(),
            Some(own_game_data()),
        ),
        ("Other World".to_string(), "def".to_string(), Some(other_game_data())),
    ]);
    store.build_player_map(&connected_with_players());
    assert_eq!(store.get_item(1, 100), "Legacy");
    assert_eq!(store.get_item(2, 1), "Sword");
    // The same id resolves differently per player, or not at all.
    assert_eq!(store.get_item(1, 1), "Unknown item");
    assert_eq!(store.get_location(2, 2), "Cave");
    assert_eq!(store.get_location(1, 2), "Unknown location");
    // An unknown player resolves to nothing.
    assert_eq!(store.get_item(9, 100), "Unknown item");
}

#[test]
fn own_game_id_maps_resolve_both_directions() {
    let mut store = DefaultDatapackageStore::new(vec![]);
    store.add_own_mappings(
        vec![
            (100, Item::Hero(HERO_LEGACY)),
            (101, Item::Villain(VILLAIN_AMBUSCADE)),
            (102, Item::Scion),
        ],
        vec![
            (200, (Location::Villain(VILLAIN_AMBUSCADE, 0), 1)),
            (201, (Location::Villain(VILLAIN_AMBUSCADE, 0), 2)),
        ],
    );
    assert_eq!(store.id_to_own_item(100), Some(Item::Hero(HERO_LEGACY)));
    assert_eq!(store.id_to_own_item(102), Some(Item::Scion));
    assert_eq!(store.id_to_own_item(103), None);
    assert_eq!(store.id_from_own_item(Item::Villain(VILLAIN_AMBUSCADE)), Some(101));
    assert_eq!(store.id_from_own_item(Item::Scion), Some(102));
    assert_eq!(store.id_to_own_location(200), Some(Location::Villain(VILLAIN_AMBUSCADE, 0)));
    assert_eq!(store.id_to_own_location(777), None);
    assert_eq!(
        store.id_from_own_location((Location::Villain(VILLAIN_AMBUSCADE, 0), 2)),
        Some(201)
    );
    assert_eq!(
        store.id_from_own_location((Location::Villain(VILLAIN_AMBUSCADE, 1), 1)),
        None
    );
}

#[test]
fn later_tables_replace_earlier_ones_under_the_same_name() {
    let mut store = DefaultDatapackageStore::new(vec![
        ("Other World".to_string(), "def".to_string(), Some(other_game_data())),
    ]);
    store.cache(vec![(
        "Other World".to_string(),
        GameData {
            item_name_to_id: vec![("Shield".to_string(), 1)],
            location_name_to_id: vec![],
        },
    )]);
    store.build_player_map(&connected_with_players());
    assert_eq!(store.get_item(2, 1), "Shield");
    assert_eq!(store.get_location(2, 2), "Unknown location");
}
