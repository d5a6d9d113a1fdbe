//! The data-package cache: per-game tables resolving item and location ids
//! to display names, keyed by game; the list of games whose tables are
//! missing and must be fetched; the per-player game assignment; and the
//! dense id maps for the one game this client itself tracks. Reading and
//! writing the backing store is its keeper's job — tables come in and go
//! out as values.

use vstd::prelude::*;

use crate::assoc::{
    assoc_get_i64, assoc_get_item, assoc_get_location, assoc_get_str, assoc_put_i64,
    assoc_put_item, assoc_put_location, assoc_put_str, spec_assoc_distinct,
    spec_assoc_distinct_str, spec_assoc_map, spec_assoc_map_str, spec_insert_all,
};
use crate::data::{Item, Location};
use crate::message::{Connected, GameData};

verus! {

/// The game this client itself tracks; its ids get dense ordinal maps.
pub open spec fn spec_own_game() -> Seq<char> {
    "Sentinels of the Multiverse"@
}

/// The display name returned when an item id resolves to nothing.
pub open spec fn spec_unknown_item() -> Seq<char> {
    "Unknown item"@
}

/// The display name returned when a location id resolves to nothing.
pub open spec fn spec_unknown_location() -> Seq<char> {
    "Unknown location"@
}

/// One cached game's id-to-name tables.
#[derive(Debug)]
pub struct GameIndex {
    item_id_to_name: Vec<(i64, String)>,
    location_id_to_name: Vec<(i64, String)>,
}

impl GameIndex {
    pub closed spec fn wf(self) -> bool {
        &&& spec_assoc_distinct(self.item_id_to_name@)
        &&& spec_assoc_distinct(self.location_id_to_name@)
    }

    pub closed spec fn spec_items(self) -> Map<i64, String> {
        spec_assoc_map(self.item_id_to_name@)
    }

    pub closed spec fn spec_locations(self) -> Map<i64, String> {
        spec_assoc_map(self.location_id_to_name@)
    }
}

/// A name-to-id table read backwards: the id-to-name map after inserting
/// each pair, in order, under its id.
pub open spec fn spec_index_of(pairs: Seq<(String, i64)>) -> Map<i64, String> {
    spec_insert_all(Map::empty(), pairs.map_values(|p: (String, i64)| (p.1, p.0)))
}

/// Fetched games have pairwise distinct names, as a table keyed by game
/// gives them.
pub open spec fn spec_distinct_games<A>(s: Seq<(String, A)>) -> bool {
    forall|i: int, j: int| 0 <= i < j < s.len() ==> s[i].0@ != s[j].0@
}

/// Requested games have pairwise distinct names, as a checksum table keyed
/// by game gives them.
pub open spec fn spec_distinct_requests(s: Seq<(String, String, Option<GameData>)>) -> bool {
    forall|i: int, j: int| 0 <= i < j < s.len() ==> s[i].0@ != s[j].0@
}

/// The games of a load result that came back empty, paired with their
/// checksums, in order: these need a network fetch.
pub open spec fn spec_missing_of(s: Seq<(String, String, Option<GameData>)>) -> Seq<
    (String, String),
>
    decreases s.len(),
{
    if s.len() == 0 {
        Seq::empty()
    } else if s.last().2 is None {
        spec_missing_of(s.drop_last()).push((s.last().0, s.last().1))
    } else {
        spec_missing_of(s.drop_last())
    }
}

/// The resolver from wire ids to names and back. Once a game is cached its
/// tables never change for the life of the process.
#[derive(Debug)]
pub struct DefaultDatapackageStore {
    items_from_id: Vec<(i64, Item)>,
    items_to_id: Vec<(Item, i64)>,
    locations_from_id: Vec<(i64, (Location, u8))>,
    locations_to_id: Vec<((Location, u8), i64)>,
    data: Vec<(String, GameIndex)>,
    missing: Vec<String>,
    missing_checksums: Vec<String>,
    player_to_game: Vec<(i64, String)>,
}

impl DefaultDatapackageStore {
    pub closed spec fn wf(self) -> bool {
        &&& spec_assoc_distinct(self.items_from_id@)
        &&& spec_assoc_distinct(self.items_to_id@)
        &&& spec_assoc_distinct(self.locations_from_id@)
        &&& spec_assoc_distinct(self.locations_to_id@)
        &&& spec_assoc_distinct_str(self.data@)
        &&& spec_assoc_distinct(self.player_to_game@)
        &&& self.missing@.len() == self.missing_checksums@.len()
        &&& forall|g: Seq<char>|
            spec_assoc_map_str(self.data@).contains_key(g) ==> (#[trigger] spec_assoc_map_str(
                self.data@,
            )[g]).wf()
    }

    /// Ids of the own game's items.
    pub closed spec fn spec_item_of_id(self) -> Map<i64, Item> {
        spec_assoc_map(self.items_from_id@)
    }

    /// The own game's items back to their ids.
    pub closed spec fn spec_id_of_item(self) -> Map<Item, i64> {
        spec_assoc_map(self.items_to_id@)
    }

    /// Ids of the own game's locations, with their copy index.
    pub closed spec fn spec_location_of_id(self) -> Map<i64, (Location, u8)> {
        spec_assoc_map(self.locations_from_id@)
    }

    /// The own game's locations and copy indexes back to their ids.
    pub closed spec fn spec_id_of_location(self) -> Map<(Location, u8), i64> {
        spec_assoc_map(self.locations_to_id@)
    }

    /// Whether a game's tables are cached, by name.
    pub closed spec fn spec_has_game(self, g: Seq<char>) -> bool {
        spec_assoc_map_str(self.data@).contains_key(g)
    }

    /// A cached game's item id-to-name map.
    pub closed spec fn spec_game_items(self, g: Seq<char>) -> Map<i64, String> {
        spec_assoc_map_str(self.data@)[g].spec_items()
    }

    /// A cached game's location id-to-name map.
    pub closed spec fn spec_game_locations(self, g: Seq<char>) -> Map<i64, String> {
        spec_assoc_map_str(self.data@)[g].spec_locations()
    }

    /// The games recorded missing, in order.
    pub closed spec fn spec_missing(self) -> Seq<String> {
        self.missing@
    }

    /// The checksums of the games recorded missing, in the same order.
    pub closed spec fn spec_missing_checksums(self) -> Seq<String> {
        self.missing_checksums@
    }

    /// Which game each player's slot is assigned to.
    pub closed spec fn spec_player_game(self) -> Map<i64, String> {
        spec_assoc_map(self.player_to_game@)
    }

    /// Build the cache from the load results of the requested (game,
    /// checksum) pairs: a game that came back with tables is indexed
    /// exactly as a later cache hit would be, one that did not is recorded
    /// missing, in request order.
    pub fn new(requested: Vec<(String, String, Option<GameData>)>) -> (r: DefaultDatapackageStore)
        requires
            spec_distinct_requests(requested@),
        ensures
            r.wf(),
            forall|g: Seq<char>|
                r.spec_has_game(g) == exists|i: int|
                    #![auto]
                    0 <= i < requested@.len() && requested@[i].0@ == g && requested@[i].2 is Some,
            forall|i: int|
                #![auto]
                0 <= i < requested@.len() && requested@[i].2 is Some ==> r.spec_game_items(
                    requested@[i].0@,
                ) == spec_index_of(requested@[i].2->0.item_name_to_id@) && r.spec_game_locations(
                    requested@[i].0@,
                ) == spec_index_of(requested@[i].2->0.location_name_to_id@),
            r.spec_missing() == spec_missing_of(requested@).map_values(
                |p: (String, String)| p.0,
            ),
            r.spec_missing_checksums() == spec_missing_of(requested@).map_values(
                |p: (String, String)| p.1,
            ),
            r.spec_item_of_id() == Map::<i64, Item>::empty(),
            r.spec_id_of_item() == Map::<Item, i64>::empty(),
            r.spec_location_of_id() == Map::<i64, (Location, u8)>::empty(),
            r.spec_id_of_location() == Map::<(Location, u8), i64>::empty(),
            r.spec_player_game() == Map::<i64, String>::empty(),
    {
        let mut store = DefaultDatapackageStore {
            items_from_id: Vec::new(),
            items_to_id: Vec::new(),
            locations_from_id: Vec::new(),
            locations_to_id: Vec::new(),
            data: Vec::new(),
            missing: Vec::new(),
            missing_checksums: Vec::new(),
            player_to_game: Vec::new(),
        };
        let ghost req = requested@;
        let mut rest = requested;
        let total: usize = rest.len();
        let mut processed: usize = 0;
        proof {
            assert(spec_missing_of(req.take(0)) =~= Seq::<(String, String)>::empty());
            assert(store.spec_missing() =~= spec_missing_of(req.take(0)).map_values(
                |p: (String, String)| p.0,
            ));
            assert(store.spec_missing_checksums() =~= spec_missing_of(req.take(0)).map_values(
                |p: (String, String)| p.1,
            ));
        }
        while rest.len() > 0
            invariant
                spec_distinct_requests(req),
                total == req.len(),
                processed + rest@.len() == total,
                rest@ == req.skip(processed as int),
                store.wf(),
                forall|g: Seq<char>|
                    store.spec_has_game(g) == exists|i: int|
                        #![auto]
                        0 <= i < processed && req[i].0@ == g && req[i].2 is Some,
                forall|i: int|
                    #![auto]
                    0 <= i < processed && req[i].2 is Some ==> store.spec_game_items(req[i].0@)
                        == spec_index_of(req[i].2->0.item_name_to_id@) && store.spec_game_locations(
                        req[i].0@,
                    ) == spec_index_of(req[i].2->0.location_name_to_id@),
                store.spec_missing() == spec_missing_of(req.take(processed as int)).map_values(
                    |p: (String, String)| p.0,
                ),
                store.spec_missing_checksums() == spec_missing_of(
                    req.take(processed as int),
                ).map_values(|p: (String, String)| p.1),
                store.spec_item_of_id() == Map::<i64, Item>::empty(),
                store.spec_id_of_item() == Map::<Item, i64>::empty(),
                store.spec_location_of_id() == Map::<i64, (Location, u8)>::empty(),
                store.spec_id_of_location() == Map::<(Location, u8), i64>::empty(),
                store.spec_player_game() == Map::<i64, String>::empty(),
            decreases rest@.len(),
        {
            let (game, checksum, loaded) = rest.remove(0);
            proof {
                assert(req.skip(processed as int).remove(0) =~= req.skip(processed as int + 1));
                assert(req.take(processed as int + 1).drop_last() =~= req.take(processed as int));
                assert(req.take(processed as int + 1).last() == req[processed as int]);
            }
            match loaded {
                Some(tables) => {
                    let ghost prev = store;
                    let ghost row = req[processed as int];
                    proof {
                        assert(game == row.0 && row.2 == Some(tables));
                    }
                    store.add_game(game, tables);
                    proof {
                        assert(store.spec_has_game(row.0@));
                        assert(store.spec_game_items(row.0@) == spec_index_of(
                            row.2->0.item_name_to_id@,
                        ));
                        assert(store.spec_game_locations(row.0@) == spec_index_of(
                            row.2->0.location_name_to_id@,
                        ));
                        assert forall|g: Seq<char>|
                            store.spec_has_game(g) == exists|i: int|
                                #![auto]
                                0 <= i < processed + 1 && req[i].0@ == g && req[i].2 is Some by {
                            if g == row.0@ {
                                let w = processed as int;
                                assert(0 <= w < processed + 1 && req[w].0@ == g && req[w].2
                                    is Some);
                                assert(exists|i: int|
                                    #![auto]
                                    0 <= i < processed + 1 && req[i].0@ == g && req[i].2 is Some);
                            } else {
                                assert(store.spec_has_game(g) == prev.spec_has_game(g));
                                if exists|i: int|
                                    #![auto]
                                    0 <= i < processed + 1 && req[i].0@ == g && req[i].2 is Some {
                                    let i = choose|i: int|
                                        #![auto]
                                        0 <= i < processed + 1 && req[i].0@ == g && req[i].2
                                            is Some;
                                    assert(i < processed);
                                    assert(exists|i: int|
                                        #![auto]
                                        0 <= i < processed && req[i].0@ == g && req[i].2 is Some);
                                } else if prev.spec_has_game(g) {
                                    let i = choose|i: int|
                                        #![auto]
                                        0 <= i < processed && req[i].0@ == g && req[i].2 is Some;
                                    assert(0 <= i < processed + 1 && req[i].0@ == g && req[i].2
                                        is Some);
                                }
                            }
                        }
                        assert(store.spec_missing() =~= spec_missing_of(
                            req.take(processed as int + 1),
                        ).map_values(|p: (String, String)| p.0));
                        assert(store.spec_missing_checksums() =~= spec_missing_of(
                            req.take(processed as int + 1),
                        ).map_values(|p: (String, String)| p.1));
                    }
                },
                None => {
                    let ghost prev = store;
                    store.missing.push(game);
                    store.missing_checksums.push(checksum);
                    proof {
                        assert(req[processed as int].2 is None);
                        assert forall|g: Seq<char>|
                            store.spec_has_game(g) == exists|i: int|
                                #![auto]
                                0 <= i < processed + 1 && req[i].0@ == g && req[i].2 is Some by {
                            assert(store.spec_has_game(g) == prev.spec_has_game(g));
                            if exists|i: int|
                                #![auto]
                                0 <= i < processed + 1 && req[i].0@ == g && req[i].2 is Some {
                                let i = choose|i: int|
                                    #![auto]
                                    0 <= i < processed + 1 && req[i].0@ == g && req[i].2 is Some;
                                assert(i < processed);
                                assert(exists|i: int|
                                    #![auto]
                                    0 <= i < processed && req[i].0@ == g && req[i].2 is Some);
                            } else if prev.spec_has_game(g) {
                                let i = choose|i: int|
                                    #![auto]
                                    0 <= i < processed && req[i].0@ == g && req[i].2 is Some;
                                assert(0 <= i < processed + 1 && req[i].0@ == g && req[i].2
                                    is Some);
                            }
                        }
                        assert(store.spec_missing() =~= spec_missing_of(
                            req.take(processed as int + 1),
                        ).map_values(|p: (String, String)| p.0));
                        assert(store.spec_missing_checksums() =~= spec_missing_of(
                            req.take(processed as int + 1),
                        ).map_values(|p: (String, String)| p.1));
                    }
                },
            }
            processed = processed + 1;
        }
        proof {
            assert(req.take(req.len() as int) =~= req);
        }
        store
    }

    /// Index one game's tables in memory, replacing any older tables under
    /// the same name. The store's other tables are untouched.
    pub fn add_game(&mut self, game: String, tables: GameData)
        requires
            old(self).wf(),
        ensures
            final(self).wf(),
            final(self).spec_has_game(game@),
            final(self).spec_game_items(game@) == spec_index_of(tables.item_name_to_id@),
            final(self).spec_game_locations(game@) == spec_index_of(tables.location_name_to_id@),
            forall|g: Seq<char>|
                g != game@ ==> final(self).spec_has_game(g) == old(self).spec_has_game(g),
            forall|g: Seq<char>|
                g != game@ && old(self).spec_has_game(g) ==> final(self).spec_game_items(g) == old(self).spec_game_items(g) && final(self).spec_game_locations(g) == old(self).spec_game_locations(g),
            final(self).spec_missing() == old(self).spec_missing(),
            final(self).spec_missing_checksums() == old(self).spec_missing_checksums(),
            final(self).spec_item_of_id() == old(self).spec_item_of_id(),
            final(self).spec_id_of_item() == old(self).spec_id_of_item(),
            final(self).spec_location_of_id() == old(self).spec_location_of_id(),
            final(self).spec_id_of_location() == old(self).spec_id_of_location(),
            final(self).spec_player_game() == old(self).spec_player_game(),
    {
        let index = build_game_index(tables);
        assoc_put_str(&mut self.data, game, index);
    }

    /// The games still needing a network fetch, in request order.
    pub fn missing_games(&self) -> (r: Vec<String>)
        requires
            self.wf(),
        ensures
            r@.len() == self.spec_missing().len(),
            forall|i: int| 0 <= i < r@.len() ==> r@[i] == self.spec_missing()[i],
    {
        let mut out: Vec<String> = Vec::new();
        let mut i: usize = 0;
        while i < self.missing.len()
            invariant
                out@.len() == i,
                i <= self.missing@.len(),
                forall|j: int| 0 <= j < i ==> out@[j] == self.missing@[j],
            decreases self.missing@.len() - i,
        {
            out.push(self.missing[i].clone());
            i = i + 1;
        }
        out
    }

    /// The games still needing a fetch paired with the checksums they were
    /// requested under: each fetched game is stored back under exactly this
    /// pair.
    pub fn missing_pairs(&self) -> (r: Vec<(String, String)>)
        requires
            self.wf(),
        ensures
            r@.len() == self.spec_missing().len(),
            forall|i: int|
                0 <= i < r@.len() ==> r@[i].0 == self.spec_missing()[i] && r@[i].1
                    == self.spec_missing_checksums()[i],
    {
        let mut out: Vec<(String, String)> = Vec::new();
        let mut i: usize = 0;
        while i < self.missing.len()
            invariant
                self.wf(),
                out@.len() == i,
                i <= self.missing@.len(),
                forall|j: int|
                    0 <= j < i ==> out@[j].0 == self.spec_missing()[j] && out@[j].1
                        == self.spec_missing_checksums()[j],
            decreases self.missing@.len() - i,
        {
            out.push((self.missing[i].clone(), self.missing_checksums[i].clone()));
            i = i + 1;
        }
        out
    }

    /// Index every game of a fetched data package in memory, exactly as a
    /// cache hit would have been. Writing the fetched tables to the backing
    /// store under their (game, checksum) pairs is its keeper's job, done
    /// with `missing_pairs`.
    pub fn cache(&mut self, fetched: Vec<(String, GameData)>)
        requires
            old(self).wf(),
            spec_distinct_games(fetched@),
        ensures
            final(self).wf(),
            forall|g: Seq<char>|
                final(self).spec_has_game(g) == (old(self).spec_has_game(g) || exists|i: int|
                    #![auto]
                    0 <= i < fetched@.len() && fetched@[i].0@ == g),
            forall|i: int|
                #![auto]
                0 <= i < fetched@.len() ==> final(self).spec_game_items(fetched@[i].0@)
                    == spec_index_of(fetched@[i].1.item_name_to_id@) && final(self).spec_game_locations(fetched@[i].0@) == spec_index_of(
                    fetched@[i].1.location_name_to_id@,
                ),
            forall|g: Seq<char>|
                (old(self).spec_has_game(g) && !exists|i: int|
                    #![auto]
                    0 <= i < fetched@.len() && fetched@[i].0@ == g) ==> final(self).spec_game_items(
                    g,
                ) == old(self).spec_game_items(g) && final(self).spec_game_locations(g) == old(self).spec_game_locations(g),
            final(self).spec_missing() == old(self).spec_missing(),
            final(self).spec_missing_checksums() == old(self).spec_missing_checksums(),
            final(self).spec_item_of_id() == old(self).spec_item_of_id(),
            final(self).spec_id_of_item() == old(self).spec_id_of_item(),
            final(self).spec_location_of_id() == old(self).spec_location_of_id(),
            final(self).spec_id_of_location() == old(self).spec_id_of_location(),
            final(self).spec_player_game() == old(self).spec_player_game(),
    {
        let ghost all = fetched@;
        let mut rest = fetched;
        let total: usize = rest.len();
        let mut processed: usize = 0;
        while rest.len() > 0
            invariant
                spec_distinct_games(all),
                total == all.len(),
                processed + rest@.len() == total,
                rest@ == all.skip(processed as int),
                self.wf(),
                forall|g: Seq<char>|
                    self.spec_has_game(g) == (old(self).spec_has_game(g) || exists|i: int|
                        #![auto]
                        0 <= i < processed && all[i].0@ == g),
                forall|i: int|
                    #![auto]
                    0 <= i < processed ==> self.spec_game_items(all[i].0@) == spec_index_of(
                        all[i].1.item_name_to_id@,
                    ) && self.spec_game_locations(all[i].0@) == spec_index_of(
                        all[i].1.location_name_to_id@,
                    ),
                forall|g: Seq<char>|
                    (old(self).spec_has_game(g) && !exists|i: int|
                        #![auto]
                        0 <= i < processed && all[i].0@ == g) ==> self.spec_game_items(g) == old(self).spec_game_items(g) && self.spec_game_locations(g) == old(self).spec_game_locations(g),
                self.spec_missing() == old(self).spec_missing(),
                self.spec_missing_checksums() == old(self).spec_missing_checksums(),
                self.spec_item_of_id() == old(self).spec_item_of_id(),
                self.spec_id_of_item() == old(self).spec_id_of_item(),
                self.spec_location_of_id() == old(self).spec_location_of_id(),
                self.spec_id_of_location() == old(self).spec_id_of_location(),
                self.spec_player_game() == old(self).spec_player_game(),
            decreases rest@.len(),
        {
            let (game, tables) = rest.remove(0);
            proof {
                assert(all.skip(processed as int).remove(0) =~= all.skip(processed as int + 1));
            }
            self.add_game(game, tables);
            processed = processed + 1;
        }
    }

    /// Record the own game's id maps, both directions, replacing the value
    /// of any id or ordinal seen twice.
    pub fn add_own_mappings(
        &mut self,
        items: Vec<(i64, Item)>,
        locations: Vec<(i64, (Location, u8))>,
    )
        requires
            old(self).wf(),
        ensures
            final(self).wf(),
            final(self).spec_item_of_id() == spec_insert_all(old(self).spec_item_of_id(), items@),
            final(self).spec_id_of_item() == spec_insert_all(
                old(self).spec_id_of_item(),
                items@.map_values(|p: (i64, Item)| (p.1, p.0)),
            ),
            final(self).spec_location_of_id() == spec_insert_all(
                old(self).spec_location_of_id(),
                locations@,
            ),
            final(self).spec_id_of_location() == spec_insert_all(
                old(self).spec_id_of_location(),
                locations@.map_values(|p: (i64, (Location, u8))| (p.1, p.0)),
            ),
            forall|g: Seq<char>| final(self).spec_has_game(g) == old(self).spec_has_game(g),
            forall|g: Seq<char>|
                old(self).spec_has_game(g) ==> final(self).spec_game_items(g) == old(self).spec_game_items(g) && final(self).spec_game_locations(g) == old(self).spec_game_locations(g),
            final(self).spec_missing() == old(self).spec_missing(),
            final(self).spec_missing_checksums() == old(self).spec_missing_checksums(),
            final(self).spec_player_game() == old(self).spec_player_game(),
    {
        let ghost item_pairs = items@;
        let mut i: usize = 0;
        while i < items.len()
            invariant
                self.wf(),
                i <= items@.len(),
                items@ == item_pairs,
                self.spec_item_of_id() == spec_insert_all(
                    old(self).spec_item_of_id(),
                    item_pairs.take(i as int),
                ),
                self.spec_id_of_item() == spec_insert_all(
                    old(self).spec_id_of_item(),
                    item_pairs.take(i as int).map_values(|p: (i64, Item)| (p.1, p.0)),
                ),
                self.spec_location_of_id() == old(self).spec_location_of_id(),
                self.spec_id_of_location() == old(self).spec_id_of_location(),
                self.data@ == old(self).data@,
                self.spec_missing() == old(self).spec_missing(),
                self.spec_missing_checksums() == old(self).spec_missing_checksums(),
                self.spec_player_game() == old(self).spec_player_game(),
            decreases items@.len() - i,
        {
            let (id, item) = (items[i].0, items[i].1);
            proof {
                assert(item_pairs.take(i as int + 1).drop_last() =~= item_pairs.take(i as int));
                let mapped = item_pairs.take(i as int + 1).map_values(
                    |p: (i64, Item)| (p.1, p.0),
                );
                assert(mapped.drop_last() =~= item_pairs.take(i as int).map_values(
                    |p: (i64, Item)| (p.1, p.0),
                ));
            }
            assoc_put_i64(&mut self.items_from_id, id, item);
            assoc_put_item(&mut self.items_to_id, item, id);
            i = i + 1;
        }
        proof {
            assert(item_pairs.take(item_pairs.len() as int) =~= item_pairs);
        }
        let ghost location_pairs = locations@;
        let mut i: usize = 0;
        while i < locations.len()
            invariant
                self.wf(),
                i <= locations@.len(),
                locations@ == location_pairs,
                self.spec_item_of_id() == spec_insert_all(old(self).spec_item_of_id(), item_pairs),
                self.spec_id_of_item() == spec_insert_all(
                    old(self).spec_id_of_item(),
                    item_pairs.map_values(|p: (i64, Item)| (p.1, p.0)),
                ),
                self.spec_location_of_id() == spec_insert_all(
                    old(self).spec_location_of_id(),
                    location_pairs.take(i as int),
                ),
                self.spec_id_of_location() == spec_insert_all(
                    old(self).spec_id_of_location(),
                    location_pairs.take(i as int).map_values(
                        |p: (i64, (Location, u8))| (p.1, p.0),
                    ),
                ),
                self.data@ == old(self).data@,
                self.spec_missing() == old(self).spec_missing(),
                self.spec_missing_checksums() == old(self).spec_missing_checksums(),
                self.spec_player_game() == old(self).spec_player_game(),
            decreases locations@.len() - i,
        {
            let (id, loc) = (locations[i].0, locations[i].1);
            proof {
                assert(location_pairs.take(i as int + 1).drop_last() =~= location_pairs.take(
                    i as int,
                ));
                let mapped = location_pairs.take(i as int + 1).map_values(
                    |p: (i64, (Location, u8))| (p.1, p.0),
                );
                assert(mapped.drop_last() =~= location_pairs.take(i as int).map_values(
                    |p: (i64, (Location, u8))| (p.1, p.0),
                ));
            }
            assoc_put_i64(&mut self.locations_from_id, id, loc);
            assoc_put_location(&mut self.locations_to_id, loc, id);
            i = i + 1;
        }
        proof {
            assert(location_pairs.take(location_pairs.len() as int) =~= location_pairs);
        }
    }

    /// Associate each connected player's slot with their assigned game's
    /// tables, so inbound ids resolve against the right game per player. A
    /// slot without an assignment, or assigned to a game that is not
    /// cached, keeps its old association if any.
    pub fn build_player_map(&mut self, connected: &Connected)
        requires
            old(self).wf(),
        ensures
            final(self).wf(),
            forall|s: i64|
                #[trigger] final(self).spec_player_game().contains_key(s) == (old(self).spec_player_game().contains_key(s) || (spec_slot_present(connected.players@, s)
                    && spec_slot_assignment(connected.slot_info@, s) is Some && old(self).spec_has_game(spec_slot_assignment(connected.slot_info@, s)->0@))),
            forall|s: i64|
                #[trigger] spec_slot_present(connected.players@, s) && spec_slot_assignment(
                    connected.slot_info@,
                    s,
                ) is Some && old(self).spec_has_game(
                    spec_slot_assignment(connected.slot_info@, s)->0@,
                ) ==> final(self).spec_player_game()[s] == spec_slot_assignment(
                    connected.slot_info@,
                    s,
                )->0,
            forall|s: i64|
                !(spec_slot_present(connected.players@, s) && spec_slot_assignment(
                    connected.slot_info@,
                    s,
                ) is Some && old(self).spec_has_game(
                    spec_slot_assignment(connected.slot_info@, s)->0@,
                )) && old(self).spec_player_game().contains_key(s) ==> #[trigger] final(self).spec_player_game()[s] == old(self).spec_player_game()[s],
            final(self).spec_item_of_id() == old(self).spec_item_of_id(),
            final(self).spec_id_of_item() == old(self).spec_id_of_item(),
            final(self).spec_location_of_id() == old(self).spec_location_of_id(),
            final(self).spec_id_of_location() == old(self).spec_id_of_location(),
            forall|g: Seq<char>| final(self).spec_has_game(g) == old(self).spec_has_game(g),
            forall|g: Seq<char>|
                old(self).spec_has_game(g) ==> final(self).spec_game_items(g) == old(self).spec_game_items(g) && final(self).spec_game_locations(g) == old(self).spec_game_locations(g),
            final(self).spec_missing() == old(self).spec_missing(),
            final(self).spec_missing_checksums() == old(self).spec_missing_checksums(),
    {
        let players = &connected.players;
        let mut k: usize = 0;
        while k < players.len()
            invariant
                self.wf(),
                k <= players@.len(),
                self.data@ == old(self).data@,
                self.items_from_id@ == old(self).items_from_id@,
                self.items_to_id@ == old(self).items_to_id@,
                self.locations_from_id@ == old(self).locations_from_id@,
                self.locations_to_id@ == old(self).locations_to_id@,
                self.missing@ == old(self).missing@,
                self.missing_checksums@ == old(self).missing_checksums@,
                forall|s: i64|
                    #[trigger] self.spec_player_game().contains_key(s) == (old(self).spec_player_game().contains_key(s) || (spec_slot_present(
                        players@.take(k as int),
                        s,
                    ) && spec_slot_assignment(connected.slot_info@, s) is Some && old(self).spec_has_game(spec_slot_assignment(connected.slot_info@, s)->0@))),
                forall|s: i64|
                    #[trigger] spec_slot_present(players@.take(k as int), s)
                        && spec_slot_assignment(connected.slot_info@, s) is Some && old(self).spec_has_game(spec_slot_assignment(connected.slot_info@, s)->0@)
                        ==> self.spec_player_game()[s] == spec_slot_assignment(
                        connected.slot_info@,
                        s,
                    )->0,
                forall|s: i64|
                    !(spec_slot_present(players@.take(k as int), s) && spec_slot_assignment(
                        connected.slot_info@,
                        s,
                    ) is Some && old(self).spec_has_game(
                        spec_slot_assignment(connected.slot_info@, s)->0@,
                    )) && old(self).spec_player_game().contains_key(s) ==> #[trigger] self.spec_player_game()[s]
                        == old(self).spec_player_game()[s],
            decreases players@.len() - k,
        {
            let slot = players[k].slot;
            proof {
                assert(players@.take(k as int + 1)[k as int].slot == slot);
                assert(spec_slot_present(players@.take(k as int + 1), slot));
                assert forall|s: i64|
                    spec_slot_present(players@.take(k as int + 1), s) && s != slot implies spec_slot_present(
                    players@.take(k as int),
                    s,
                ) by {
                    let i = choose|i: int|
                        0 <= i < players@.take(k as int + 1).len() && (#[trigger] players@.take(
                            k as int + 1,
                        )[i]).slot == s;
                    assert(players@.take(k as int)[i].slot == s);
                }
                assert forall|s: i64|
                    spec_slot_present(players@.take(k as int), s) implies spec_slot_present(
                    players@.take(k as int + 1),
                    s,
                ) by {
                    let i = choose|i: int|
                        0 <= i < players@.take(k as int).len() && (#[trigger] players@.take(
                            k as int,
                        )[i]).slot == s;
                    assert(players@.take(k as int + 1)[i].slot == s);
                }
            }
            let ghost before = *self;
            match lookup_slot_assignment(&connected.slot_info, slot) {
                Some(game) => {
                    let present = assoc_get_str(&self.data, game).is_some();
                    if present {
                        let owned = game.clone();
                        assoc_put_i64(&mut self.player_to_game, slot, owned);
                        proof {
                            assert(spec_slot_assignment(connected.slot_info@, slot)->0 == *game);
                            assert(old(self).spec_has_game((*game)@));
                            assert(self.spec_player_game() == before.spec_player_game().insert(
                                slot,
                                *game,
                            ));
                        }
                    }
                },
                None => {},
            }
            proof {
                assert forall|s: i64|
                    #[trigger] self.spec_player_game().contains_key(s) == (old(
                        self,
                    ).spec_player_game().contains_key(s) || (spec_slot_present(
                        players@.take(k as int + 1),
                        s,
                    ) && spec_slot_assignment(connected.slot_info@, s) is Some && old(
                        self,
                    ).spec_has_game(spec_slot_assignment(connected.slot_info@, s)->0@))) by {
                    if s != slot {
                        assert(self.spec_player_game().contains_key(s)
                            == before.spec_player_game().contains_key(s));
                    }
                }
                assert forall|s: i64|
                    #[trigger] spec_slot_present(players@.take(k as int + 1), s)
                        && spec_slot_assignment(connected.slot_info@, s) is Some && old(
                        self,
                    ).spec_has_game(spec_slot_assignment(connected.slot_info@, s)->0@)
                        implies self.spec_player_game()[s] == spec_slot_assignment(
                        connected.slot_info@,
                        s,
                    )->0 by {
                    if s != slot {
                        assert(spec_slot_present(players@.take(k as int), s));
                        assert(self.spec_player_game()[s] == before.spec_player_game()[s]);
                    }
                }
                assert forall|s: i64|
                    !(spec_slot_present(players@.take(k as int + 1), s) && spec_slot_assignment(
                        connected.slot_info@,
                        s,
                    ) is Some && old(self).spec_has_game(
                        spec_slot_assignment(connected.slot_info@, s)->0@,
                    )) && old(self).spec_player_game().contains_key(s) implies self.spec_player_game()[s]
                        == old(self).spec_player_game()[s] by {
                    assert(!(spec_slot_present(players@.take(k as int), s)
                        && spec_slot_assignment(connected.slot_info@, s) is Some && old(
                        self,
                    ).spec_has_game(spec_slot_assignment(connected.slot_info@, s)->0@)));
                    if s != slot {
                        assert(self.spec_player_game()[s] == before.spec_player_game()[s]);
                    }
                }
            }
            k = k + 1;
        }
        proof {
            assert(players@.take(players@.len() as int) =~= players@);
        }
    }

    /// The display name of an item id, scoped to the owning player's game;
    /// an unresolvable id gets the unknown-item name.
    pub fn get_item(&self, player: i64, id: i64) -> (r: String)
        requires
            self.wf(),
        ensures
            r@ == self.spec_get_item(player, id),
    {
        match assoc_get_i64(&self.player_to_game, player) {
            Some(game) => match assoc_get_str(&self.data, game) {
                Some(index) => match assoc_get_i64(&index.item_id_to_name, id) {
                    Some(name) => name.clone(),
                    None => "Unknown item".to_owned(),
                },
                None => "Unknown item".to_owned(),
            },
            None => "Unknown item".to_owned(),
        }
    }

    /// What `get_item` returns: the name under the id in the player's
    /// game's tables, or the unknown-item name.
    pub open spec fn spec_get_item(self, player: i64, id: i64) -> Seq<char> {
        if self.spec_player_game().contains_key(player) && self.spec_has_game(
            self.spec_player_game()[player]@,
        ) && self.spec_game_items(self.spec_player_game()[player]@).contains_key(id) {
            self.spec_game_items(self.spec_player_game()[player]@)[id]@
        } else {
            spec_unknown_item()
        }
    }

    /// The display name of a location id, scoped to the owning player's
    /// game; an unresolvable id gets the unknown-location name.
    pub fn get_location(&self, player: i64, id: i64) -> (r: String)
        requires
            self.wf(),
        ensures
            r@ == self.spec_get_location(player, id),
    {
        match assoc_get_i64(&self.player_to_game, player) {
            Some(game) => match assoc_get_str(&self.data, game) {
                Some(index) => match assoc_get_i64(&index.location_id_to_name, id) {
                    Some(name) => name.clone(),
                    None => "Unknown location".to_owned(),
                },
                None => "Unknown location".to_owned(),
            },
            None => "Unknown location".to_owned(),
        }
    }

    /// What `get_location` returns: the name under the id in the player's
    /// game's tables, or the unknown-location name.
    pub open spec fn spec_get_location(self, player: i64, id: i64) -> Seq<char> {
        if self.spec_player_game().contains_key(player) && self.spec_has_game(
            self.spec_player_game()[player]@,
        ) && self.spec_game_locations(self.spec_player_game()[player]@).contains_key(id) {
            self.spec_game_locations(self.spec_player_game()[player]@)[id]@
        } else {
            spec_unknown_location()
        }
    }

    /// The display name of an item id in the own game's tables.
    pub fn item(&self, id: i64) -> (r: String)
        requires
            self.wf(),
        ensures
            r@ == if self.spec_has_game(spec_own_game()) && self.spec_game_items(
                spec_own_game(),
            ).contains_key(id) {
                self.spec_game_items(spec_own_game())[id]@
            } else {
                spec_unknown_item()
            },
    {
        let own = "Sentinels of the Multiverse".to_owned();
        match assoc_get_str(&self.data, &own) {
            Some(index) => match assoc_get_i64(&index.item_id_to_name, id) {
                Some(name) => name.clone(),
                None => "Unknown item".to_owned(),
            },
            None => "Unknown item".to_owned(),
        }
    }

    /// The display name of a location id in the own game's tables.
    pub fn location(&self, id: i64) -> (r: String)
        requires
            self.wf(),
        ensures
            r@ == if self.spec_has_game(spec_own_game()) && self.spec_game_locations(
                spec_own_game(),
            ).contains_key(id) {
                self.spec_game_locations(spec_own_game())[id]@
            } else {
                spec_unknown_location()
            },
    {
        let own = "Sentinels of the Multiverse".to_owned();
        match assoc_get_str(&self.data, &own) {
            Some(index) => match assoc_get_i64(&index.location_id_to_name, id) {
                Some(name) => name.clone(),
                None => "Unknown location".to_owned(),
            },
            None => "Unknown location".to_owned(),
        }
    }

    /// Resolve an inbound item id against the own game's dense map.
    pub fn id_to_own_item(&self, id: i64) -> (r: Option<Item>)
        requires
            self.wf(),
        ensures
            r == if self.spec_item_of_id().contains_key(id) {
                Some(self.spec_item_of_id()[id])
            } else {
                Option::<Item>::None
            },
    {
        match assoc_get_i64(&self.items_from_id, id) {
            Some(item) => Some(*item),
            None => None,
        }
    }

    /// Resolve an inbound location id against the own game's dense map,
    /// dropping the copy index.
    pub fn id_to_own_location(&self, id: i64) -> (r: Option<Location>)
        requires
            self.wf(),
        ensures
            r == if self.spec_location_of_id().contains_key(id) {
                Some(self.spec_location_of_id()[id].0)
            } else {
                Option::<Location>::None
            },
    {
        match assoc_get_i64(&self.locations_from_id, id) {
            Some(pair) => Some(pair.0),
            None => None,
        }
    }

    /// The wire id of one of the own game's items.
    pub fn id_from_own_item(&self, item: Item) -> (r: Option<i64>)
        requires
            self.wf(),
        ensures
            r == if self.spec_id_of_item().contains_key(item) {
                Some(self.spec_id_of_item()[item])
            } else {
                Option::<i64>::None
            },
    {
        assoc_get_item(&self.items_to_id, item)
    }

    /// The wire id of one of the own game's locations at one copy index.
    pub fn id_from_own_location(&self, location: (Location, u8)) -> (r: Option<i64>)
        requires
            self.wf(),
        ensures
            r == if self.spec_id_of_location().contains_key(location) {
                Some(self.spec_id_of_location()[location])
            } else {
                Option::<i64>::None
            },
    {
        assoc_get_location(&self.locations_to_id, location)
    }
}

/// A slot occurs in the player roster.
pub open spec fn spec_slot_present(players: Seq<crate::message::NetworkPlayer>, s: i64) -> bool {
    exists|i: int| 0 <= i < players.len() && players[i].slot == s
}

/// The game assigned to a slot: the first entry under it, if any.
pub open spec fn spec_slot_assignment(slot_info: Seq<(i64, String)>, s: i64) -> Option<String>
    decreases slot_info.len(),
{
    if slot_info.len() == 0 {
        None
    } else if slot_info[0].0 == s {
        Some(slot_info[0].1)
    } else {
        spec_slot_assignment(slot_info.skip(1), s)
    }
}

proof fn lemma_slot_assignment_at(slot_info: Seq<(i64, String)>, s: i64, i: int)
    requires
        0 <= i < slot_info.len(),
        slot_info[i].0 == s,
        forall|j: int| 0 <= j < i ==> slot_info[j].0 != s,
    ensures
        spec_slot_assignment(slot_info, s) == Some(slot_info[i].1),
    decreases i,
{
    if i > 0 {
        lemma_slot_assignment_at(slot_info.skip(1), s, i - 1);
    }
}

proof fn lemma_slot_assignment_none(slot_info: Seq<(i64, String)>, s: i64)
    requires
        forall|j: int| 0 <= j < slot_info.len() ==> slot_info[j].0 != s,
    ensures
        spec_slot_assignment(slot_info, s) is None,
    decreases slot_info.len(),
{
    if slot_info.len() > 0 {
        lemma_slot_assignment_none(slot_info.skip(1), s);
    }
}

/// Find a slot's assigned game in the session metadata.
fn lookup_slot_assignment<'a>(slot_info: &'a Vec<(i64, String)>, s: i64) -> (r: Option<&'a String>)
    ensures
        match r {
            Some(g) => spec_slot_assignment(slot_info@, s) == Some(*g),
            None => spec_slot_assignment(slot_info@, s) is None,
        },
{
    let mut i: usize = 0;
    while i < slot_info.len()
        invariant
            i <= slot_info@.len(),
            forall|j: int| 0 <= j < i ==> slot_info@[j].0 != s,
        decreases slot_info@.len() - i,
    {
        if slot_info[i].0 == s {
            proof {
                lemma_slot_assignment_at(slot_info@, s, i as int);
            }
            return Some(&slot_info[i].1);
        }
        i = i + 1;
    }
    proof {
        lemma_slot_assignment_none(slot_info@, s);
    }
    None
}

/// Invert one game's name-to-id tables into an id-to-name index.
fn build_game_index(tables: GameData) -> (r: GameIndex)
    ensures
        r.wf(),
        r.spec_items() == spec_index_of(tables.item_name_to_id@),
        r.spec_locations() == spec_index_of(tables.location_name_to_id@),
{
    let GameData { item_name_to_id, location_name_to_id } = tables;
    let items = invert_pairs(item_name_to_id);
    let locations = invert_pairs(location_name_to_id);
    GameIndex { item_id_to_name: items, location_id_to_name: locations }
}

/// Insert each (name, id) pair, in order, under its id.
fn invert_pairs(pairs: Vec<(String, i64)>) -> (r: Vec<(i64, String)>)
    ensures
        spec_assoc_distinct(r@),
        spec_assoc_map(r@) == spec_index_of(pairs@),
{
    let mut out: Vec<(i64, String)> = Vec::new();
    let ghost all = pairs@;
    let mut rest = pairs;
    let total: usize = rest.len();
    let mut processed: usize = 0;
    proof {
        assert(all.take(0).map_values(|p: (String, i64)| (p.1, p.0)) =~= Seq::<(
            i64,
            String,
        )>::empty());
    }
    while rest.len() > 0
        invariant
            total == all.len(),
            processed + rest@.len() == total,
            rest@ == all.skip(processed as int),
            spec_assoc_distinct(out@),
            spec_assoc_map(out@) == spec_insert_all(
                Map::empty(),
                all.take(processed as int).map_values(|p: (String, i64)| (p.1, p.0)),
            ),
        decreases rest@.len(),
    {
        let (name, id) = rest.remove(0);
        proof {
            assert(all.skip(processed as int).remove(0) =~= all.skip(processed as int + 1));
            let mapped = all.take(processed as int + 1).map_values(
                |p: (String, i64)| (p.1, p.0),
            );
            assert(mapped.drop_last() =~= all.take(processed as int).map_values(
                |p: (String, i64)| (p.1, p.0),
            ));
            assert(mapped.last() == (all[processed as int].1, all[processed as int].0));
        }
        assoc_put_i64(&mut out, id, name);
        processed = processed + 1;
    }
    proof {
        assert(all.take(all.len() as int) =~= all);
    }
    out
}

} // verus!
