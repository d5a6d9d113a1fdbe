//! One logical session: the state engine, the data-package cache, the player
//! roster and the seed, plus the decision steps of the orchestration loop —
//! apply inbound items, expand outbound checks into wire ids, record
//! confirmed checks. The loop itself performs transport work between these
//! steps and hands events back as values.

use vstd::prelude::*;

use crate::data::{Item, Location};
use crate::datapackage::DefaultDatapackageStore;
use crate::items::{items_le, spec_item_grants_hero_bit, Items};
use crate::locations::{locations_le, Locations};
use crate::message::{Connected, Message};
use crate::registry::{HERO_COUNT, TRACKED_VARIANT_COUNT};
use crate::state::State;

verus! {

/// One event for the orchestration loop: an inbound display message, an
/// inbound item batch, a user-initiated batch of checks to report, or the
/// request to flush and quit.
#[derive(Debug)]
pub enum Update {
    Msg(String),
    Items(Vec<i64>),
    Send(Vec<Location>),
    Exit,
}

/// One notification for the presentation layer.
#[derive(Debug)]
pub enum DisplayUpdate {
    Msg(String),
    State(State),
    Exit,
}

/// The reader task's decision on one inbound message: item batches and
/// display messages become loop events, everything else is dropped.
pub fn update_for_message(m: Message) -> (r: Option<Update>)
    ensures
        match m {
            Message::ReceivedItems(ids) => r matches Some(Update::Items(out)) && out@ == ids@,
            Message::PrintJson(text) => r matches Some(Update::Msg(out)) && out@ == text@,
            _ => r is None,
        },
{
    match m {
        Message::ReceivedItems(ids) => Some(Update::Items(ids)),
        Message::PrintJson(text) => Some(Update::Msg(text)),
        _ => None,
    }
}

/// How many of a batch of item ids resolve to scions under a given id map.
pub open spec fn spec_scion_count(m: Map<i64, Item>, ids: Seq<i64>) -> nat
    decreases ids.len(),
{
    if ids.len() == 0 {
        0
    } else {
        spec_scion_count(m, ids.drop_last()) + if m.contains_key(ids.last()) && m[ids.last()]
            == Item::Scion {
            1nat
        } else {
            0nat
        }
    }
}

proof fn lemma_scion_count_bound(m: Map<i64, Item>, ids: Seq<i64>)
    ensures
        spec_scion_count(m, ids) <= ids.len(),
    decreases ids.len(),
{
    if ids.len() > 0 {
        lemma_scion_count_bound(m, ids.drop_last());
    }
}

/// Every item the store's own-game map can hand out is a well-formed
/// registry item.
pub open spec fn spec_own_items_wf(store: DefaultDatapackageStore) -> bool {
    forall|id: i64|
        store.spec_item_of_id().contains_key(id) ==> (#[trigger] store.spec_item_of_id()[id]).wf()
}

/// The whole session.
#[derive(Debug)]
pub struct Session {
    pub datapackage_store: DefaultDatapackageStore,
    pub state: State,
    pub players: Vec<(i64, String)>,
    pub slot: String,
    pub seed: String,
}

impl Session {
    pub open spec fn wf(self) -> bool {
        &&& self.datapackage_store.wf()
        &&& spec_own_items_wf(self.datapackage_store)
        &&& self.state.wf()
    }

    /// Assemble a session after the connect handshake: a fresh state under
    /// the server's configuration, except that the checked-set starts from
    /// what persistence loaded, plus the player roster.
    pub fn new(
        seed_name: &str,
        datapackage_store: DefaultDatapackageStore,
        connected: &Connected,
        slot: &str,
        loaded: Locations,
    ) -> (r: Session)
        requires
            datapackage_store.wf(),
            spec_own_items_wf(datapackage_store),
            connected.slot_data.wf(),
            loaded.wf(),
        ensures
            r.wf(),
            r.datapackage_store == datapackage_store,
            r.state.items.scions == 0,
            r.state.items.villains == 0,
            r.state.items.team_villains == 0,
            r.state.items.environments == 0,
            forall|h: u8| h < HERO_COUNT ==> r.state.items.heroes@[h as int] == 0,
            r.state.checked_locations == loaded,
            r.state.slot_data.required_scions == crate::state::spec_clamp_u32(
                connected.slot_data.required_scions,
            ),
            r.state.slot_data.required_villains == crate::state::spec_clamp_u32(
                connected.slot_data.required_villains,
            ),
            r.state.slot_data.required_variants == crate::state::spec_clamp_u32(
                connected.slot_data.required_variants,
            ),
            forall|i: int|
                0 <= i < 4 ==> r.state.slot_data.villain_difficulty_points@[i]
                    == crate::state::spec_clamp_u32(
                    connected.slot_data.villain_difficulty_points@[i],
                ),
            forall|i: int|
                0 <= i < 6 ==> r.state.slot_data.locations_per@[i]
                    == crate::state::spec_clamp_u8(connected.slot_data.locations_per@[i]),
            r.players@.len() == connected.players@.len(),
            forall|i: int|
                0 <= i < connected.players@.len() ==> r.players@[i] == (
                    connected.players@[i].slot,
                    connected.players@[i].alias,
                ),
            r.slot@ == slot@,
            r.seed@ == seed_name@,
    {
        let mut state = State::new(&connected.slot_data);
        state.checked_locations = loaded;
        let mut players: Vec<(i64, String)> = Vec::new();
        let mut i: usize = 0;
        while i < connected.players.len()
            invariant
                i <= connected.players@.len(),
                players@.len() == i,
                forall|j: int|
                    0 <= j < i ==> players@[j] == (
                        connected.players@[j].slot,
                        connected.players@[j].alias,
                    ),
            decreases connected.players@.len() - i,
        {
            players.push((connected.players[i].slot, connected.players[i].alias.clone()));
            i = i + 1;
        }
        Session {
            datapackage_store,
            state,
            players,
            slot: slot.to_owned(),
            seed: seed_name.to_owned(),
        }
    }

    /// Apply one inbound batch of item ids to the inventory: each id that
    /// resolves in the own game's map grants its item, the rest are other
    /// games' items and are ignored. Monotonic, like the mutators it
    /// composes.
    pub fn apply_item_ids(&mut self, ids: &Vec<i64>)
        requires
            old(self).wf(),
            old(self).state.items.scions + spec_scion_count(
                old(self).datapackage_store.spec_item_of_id(),
                ids@,
            ) <= u32::MAX,
        ensures
            final(self).wf(),
            items_le(old(self).state.items, final(self).state.items),
            final(self).state.items.scions == old(self).state.items.scions + spec_scion_count(
                old(self).datapackage_store.spec_item_of_id(),
                ids@,
            ),
            forall|v: u8|
                final(self).state.items.spec_has_villain(v) == (old(self).state.items.spec_has_villain(v) || spec_batch_grants(
                    old(self).datapackage_store.spec_item_of_id(),
                    ids@,
                    Item::Villain(v),
                )),
            forall|t: u8|
                final(self).state.items.spec_has_team_villain(t) == (old(self).state.items.spec_has_team_villain(t) || spec_batch_grants(
                    old(self).datapackage_store.spec_item_of_id(),
                    ids@,
                    Item::TeamVillain(t),
                )),
            forall|e: u8|
                final(self).state.items.spec_has_environment(e) == (old(self).state.items.spec_has_environment(e) || spec_batch_grants(
                    old(self).datapackage_store.spec_item_of_id(),
                    ids@,
                    Item::Environment(e),
                )),
            forall|h: u8, s: u8|
                h < HERO_COUNT ==> final(self).state.items.spec_hero_bit(h, s) == (old(self).state.items.spec_hero_bit(h, s) || exists|i: int|
                    #![auto]
                    0 <= i < ids@.len() && old(self).datapackage_store.spec_item_of_id().contains_key(
                        ids@[i],
                    ) && spec_item_grants_hero_bit(
                        old(self).datapackage_store.spec_item_of_id()[ids@[i]],
                        h,
                        s,
                    )),
            final(self).state.checked_locations == old(self).state.checked_locations,
            final(self).state.slot_data == old(self).state.slot_data,
            final(self).datapackage_store == old(self).datapackage_store,
    {
        let ghost m = self.datapackage_store.spec_item_of_id();
        let ghost items0 = self.state.items;
        let mut i: usize = 0;
        while i < ids.len()
            invariant
                self.wf(),
                i <= ids@.len(),
                self.datapackage_store == old(self).datapackage_store,
                m == self.datapackage_store.spec_item_of_id(),
                items0 == old(self).state.items,
                self.state.checked_locations == old(self).state.checked_locations,
                self.state.slot_data == old(self).state.slot_data,
                items_le(items0, self.state.items),
                items0.scions + spec_scion_count(m, ids@) <= u32::MAX,
                self.state.items.scions == items0.scions + spec_scion_count(
                    m,
                    ids@.take(i as int),
                ),
                forall|v: u8|
                    self.state.items.spec_has_villain(v) == (items0.spec_has_villain(v)
                        || spec_batch_grants(m, ids@.take(i as int), Item::Villain(v))),
                forall|t: u8|
                    self.state.items.spec_has_team_villain(t) == (items0.spec_has_team_villain(t)
                        || spec_batch_grants(m, ids@.take(i as int), Item::TeamVillain(t))),
                forall|e: u8|
                    self.state.items.spec_has_environment(e) == (items0.spec_has_environment(e)
                        || spec_batch_grants(m, ids@.take(i as int), Item::Environment(e))),
                forall|h: u8, s: u8|
                    h < HERO_COUNT ==> self.state.items.spec_hero_bit(h, s) == (
                    items0.spec_hero_bit(h, s) || exists|j: int|
                        #![auto]
                        0 <= j < i && m.contains_key(ids@[j]) && spec_item_grants_hero_bit(
                            m[ids@[j]],
                            h,
                            s,
                        )),
            decreases ids@.len() - i,
        {
            let id = ids[i];
            proof {
                assert(ids@.take(i as int + 1).drop_last() =~= ids@.take(i as int));
                lemma_scion_count_prefix(m, ids@, i as int);
                lemma_scion_count_bound(m, ids@.take(i as int));
            }
            match self.datapackage_store.id_to_own_item(id) {
                Some(item) => {
                    let ghost before = self.state.items;
                    self.state.items.set_item(item);
                    proof {
                        crate::items::lemma_items_le_trans(items0, before, self.state.items);
                        assert forall|h: u8, s: u8|
                            h < HERO_COUNT implies self.state.items.spec_hero_bit(h, s) == (
                        items0.spec_hero_bit(h, s) || exists|j: int|
                            #![auto]
                            0 <= j < i + 1 && m.contains_key(ids@[j]) && spec_item_grants_hero_bit(
                                m[ids@[j]],
                                h,
                                s,
                            )) by {
                            if spec_item_grants_hero_bit(item, h, s) {
                                assert(m.contains_key(ids@[i as int]) && spec_item_grants_hero_bit(
                                    m[ids@[i as int]],
                                    h,
                                    s,
                                ));
                            }
                        }
                    }
                },
                None => {
                    proof {
                        assert forall|h: u8, s: u8|
                            h < HERO_COUNT implies self.state.items.spec_hero_bit(h, s) == (
                        items0.spec_hero_bit(h, s) || exists|j: int|
                            #![auto]
                            0 <= j < i + 1 && m.contains_key(ids@[j]) && spec_item_grants_hero_bit(
                                m[ids@[j]],
                                h,
                                s,
                            )) by {}
                    }
                },
            }
            i = i + 1;
        }
        proof {
            assert(ids@.take(ids@.len() as int) =~= ids@);
        }
    }

    /// Expand a batch of confirmed checks into the wire ids to report: each
    /// non-victory location contributes the ids of its copies 1 up to the
    /// configured count for its kind, in order; copies the own game's map
    /// does not know are skipped. Victory is reported by a status update,
    /// never by id.
    pub fn location_ids_to_send(&self, locations: &Vec<Location>) -> (r: Vec<i64>)
        requires
            self.wf(),
            forall|i: int| 0 <= i < locations@.len() ==> (#[trigger] locations@[i]).wf(),
        ensures
            r@ == spec_ids_for_locations(
                self.datapackage_store.spec_id_of_location(),
                self.state.slot_data.locations_per@,
                locations@,
            ),
    {
        let ghost m = self.datapackage_store.spec_id_of_location();
        let ghost per = self.state.slot_data.locations_per@;
        let mut out: Vec<i64> = Vec::new();
        let mut i: usize = 0;
        while i < locations.len()
            invariant
                self.wf(),
                i <= locations@.len(),
                forall|j: int| 0 <= j < locations@.len() ==> (#[trigger] locations@[j]).wf(),
                m == self.datapackage_store.spec_id_of_location(),
                per == self.state.slot_data.locations_per@,
                out@ == spec_ids_for_locations(m, per, locations@.take(i as int)),
            decreases locations@.len() - i,
        {
            let loc = locations[i];
            proof {
                assert(locations@.take(i as int + 1).drop_last() =~= locations@.take(i as int));
            }
            match loc {
                Location::Victory => {},
                _ => {
                    let kind: usize = match loc {
                        Location::Variant(_) => 5,
                        Location::Villain(_, d) => d as usize,
                        Location::TeamVillain(_, d) => d as usize,
                        Location::Environment(_) => 4,
                        Location::Victory => 0,
                    };
                    let count = self.state.slot_data.locations_per[kind];
                    let mut n: u8 = 0;
                    while n < count
                        invariant
                            self.wf(),
                            n <= count,
                            count == per[spec_location_kind(loc) as int],
                            !(loc is Victory),
                            m == self.datapackage_store.spec_id_of_location(),
                            per == self.state.slot_data.locations_per@,
                            out@ == spec_ids_for_locations(m, per, locations@.take(i as int))
                                + spec_ids_for_copies(m, loc, n as nat),
                        decreases count - n,
                    {
                        n = n + 1;
                        match self.datapackage_store.id_from_own_location((loc, n)) {
                            Some(id) => {
                                out.push(id);
                                proof {
                                    assert(out@ =~= spec_ids_for_locations(
                                        m,
                                        per,
                                        locations@.take(i as int),
                                    ) + spec_ids_for_copies(m, loc, n as nat));
                                }
                            },
                            None => {
                                proof {
                                    assert(out@ =~= spec_ids_for_locations(
                                        m,
                                        per,
                                        locations@.take(i as int),
                                    ) + spec_ids_for_copies(m, loc, n as nat));
                                }
                            },
                        }
                    }
                    proof {
                        assert(out@ =~= spec_ids_for_locations(m, per, locations@.take(
                            i as int + 1,
                        )));
                    }
                },
            }
            proof {
                assert(out@ =~= spec_ids_for_locations(m, per, locations@.take(i as int + 1)));
            }
            i = i + 1;
        }
        proof {
            assert(locations@.take(locations@.len() as int) =~= locations@);
        }
        out
    }

    /// Record a batch of confirmed checks in the checked-set, one mark per
    /// location. Monotonic, like the mutators it composes.
    pub fn mark_locations(&mut self, locations: &Vec<Location>)
        requires
            old(self).wf(),
            forall|i: int| 0 <= i < locations@.len() ==> (#[trigger] locations@[i]).wf(),
        ensures
            final(self).wf(),
            locations_le(
                old(self).state.checked_locations,
                final(self).state.checked_locations,
            ),
            forall|i: int|
                0 <= i < locations@.len() ==> match #[trigger] locations@[i] {
                    Location::Variant(v) => v < TRACKED_VARIANT_COUNT ==> final(self).state.checked_locations.spec_checked_variant(v),
                    Location::Villain(v, d) => final(self).state.checked_locations.spec_checked_villain(v, d),
                    Location::TeamVillain(t, d) => final(self).state.checked_locations.spec_checked_team_villain(t, d),
                    Location::Environment(e) => final(self).state.checked_locations.spec_checked_environment(e),
                    Location::Victory => final(self).state.checked_locations.victory,
                },
            final(self).state.items == old(self).state.items,
            final(self).state.slot_data == old(self).state.slot_data,
            final(self).datapackage_store == old(self).datapackage_store,
    {
        let mut i: usize = 0;
        while i < locations.len()
            invariant
                self.wf(),
                i <= locations@.len(),
                forall|j: int| 0 <= j < locations@.len() ==> (#[trigger] locations@[j]).wf(),
                self.datapackage_store == old(self).datapackage_store,
                self.state.items == old(self).state.items,
                self.state.slot_data == old(self).state.slot_data,
                locations_le(old(self).state.checked_locations, self.state.checked_locations),
                forall|j: int|
                    0 <= j < i ==> match #[trigger] locations@[j] {
                        Location::Variant(v) => v < TRACKED_VARIANT_COUNT
                            ==> self.state.checked_locations.spec_checked_variant(v),
                        Location::Villain(v, d) => self.state.checked_locations.spec_checked_villain(
                            v,
                            d,
                        ),
                        Location::TeamVillain(t, d) => self.state.checked_locations.spec_checked_team_villain(
                            t,
                            d,
                        ),
                        Location::Environment(e) => self.state.checked_locations.spec_checked_environment(
                            e,
                        ),
                        Location::Victory => self.state.checked_locations.victory,
                    },
            decreases locations@.len() - i,
        {
            let ghost before = self.state.checked_locations;
            self.state.checked_locations.mark_location(locations[i]);
            proof {
                crate::locations::lemma_locations_le_trans(
                    old(self).state.checked_locations,
                    before,
                    self.state.checked_locations,
                );
            }
            i = i + 1;
        }
    }
}

/// Whether some id of a batch resolves to exactly this item.
pub open spec fn spec_batch_grants(m: Map<i64, Item>, ids: Seq<i64>, item: Item) -> bool {
    exists|i: int| #![auto] 0 <= i < ids.len() && m.contains_key(ids[i]) && m[ids[i]] == item
}

/// The configured-count table index of a location's kind: one slot per
/// difficulty tier, one for environments, one for variants.
pub open spec fn spec_location_kind(loc: Location) -> int {
    match loc {
        Location::Variant(_) => 5,
        Location::Villain(_, d) => d as int,
        Location::TeamVillain(_, d) => d as int,
        Location::Environment(_) => 4,
        Location::Victory => 0,
    }
}

/// The wire ids of one location's copies 1..=n that the own game's map
/// knows, in order.
pub open spec fn spec_ids_for_copies(m: Map<(Location, u8), i64>, loc: Location, n: nat) -> Seq<
    i64,
>
    decreases n,
{
    if n == 0 {
        Seq::empty()
    } else {
        spec_ids_for_copies(m, loc, (n - 1) as nat) + if m.contains_key((loc, n as u8)) {
            seq![m[(loc, n as u8)]]
        } else {
            Seq::empty()
        }
    }
}

/// The wire ids a batch of checks expands to: each non-victory location's
/// known copies up to its kind's configured count, in order.
pub open spec fn spec_ids_for_locations(
    m: Map<(Location, u8), i64>,
    per: Seq<u8>,
    locations: Seq<Location>,
) -> Seq<i64>
    decreases locations.len(),
{
    if locations.len() == 0 {
        Seq::empty()
    } else {
        spec_ids_for_locations(m, per, locations.drop_last()) + if locations.last() is Victory {
            Seq::empty()
        } else {
            spec_ids_for_copies(
                m,
                locations.last(),
                per[spec_location_kind(locations.last())] as nat,
            )
        }
    }
}

/// How a batch step of the scion count unfolds on a prefix.
proof fn lemma_scion_count_prefix(m: Map<i64, Item>, ids: Seq<i64>, i: int)
    requires
        0 <= i < ids.len(),
    ensures
        spec_scion_count(m, ids.take(i + 1)) == spec_scion_count(m, ids.take(i)) + if m.contains_key(
            ids[i],
        ) && m[ids[i]] == Item::Scion {
            1nat
        } else {
            0nat
        },
        spec_scion_count(m, ids.take(i + 1)) <= spec_scion_count(m, ids),
    decreases ids.len() - i,
{
    assert(ids.take(i + 1).drop_last() =~= ids.take(i));
    assert(ids.take(i + 1).last() == ids[i]);
    if i + 1 == ids.len() {
        assert(ids.take(ids.len() as int) =~= ids);
    } else {
        lemma_scion_count_prefix(m, ids, i + 1);
    }
}

} // verus!
