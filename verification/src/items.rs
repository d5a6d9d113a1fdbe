//! The inventory half of the state engine: every unlock the server has
//! granted this session, packed into per-category bitfields. All mutators are
//! monotonic — a bit set once stays set and the scion counter never
//! decreases — and idempotent.

use vstd::prelude::*;

use crate::bits::{lemma_set_bit16, lemma_set_bit64, lemma_set_bit8};
use crate::data::Item;
use crate::registry::{
    spec_variant_owner, variant_owner, ENVIRONMENT_COUNT, HERO_COUNT, TEAM_VILLAIN_COUNT,
    VILLAIN_COUNT,
};

verus! {

/// The owned-item state: one bit per villain and team-villain ordinal, one
/// byte per hero ordinal (bit 0 the base version, bits 1..=7 its variants),
/// one bit per environment ordinal, and a scion counter.
#[derive(Debug, Clone)]
pub struct Items {
    pub scions: u32,
    pub villains: u64,
    pub team_villains: u16,
    pub heroes: Vec<u8>,
    pub environments: u64,
}

impl Items {
    /// The hero table always has exactly one byte per hero ordinal.
    pub open spec fn wf(self) -> bool {
        self.heroes@.len() == HERO_COUNT
    }

    pub open spec fn spec_has_villain(self, v: u8) -> bool {
        self.villains & (1u64 << (v as u64)) != 0
    }

    pub open spec fn spec_has_team_villain(self, t: u8) -> bool {
        self.team_villains & (1u16 << (t as u16)) != 0
    }

    pub open spec fn spec_has_hero(self, h: u8) -> bool {
        self.heroes@[h as int] != 0
    }

    /// Bit `s` of hero `h`'s byte: the base version when `s` is 0, the
    /// variant in slot `s` otherwise.
    pub open spec fn spec_hero_bit(self, h: u8, s: u8) -> bool {
        self.heroes@[h as int] & (1u8 << (s as u8)) != 0
    }

    pub open spec fn spec_has_base_hero(self, h: u8) -> bool {
        self.spec_hero_bit(h, 0)
    }

    pub open spec fn spec_has_hero_variant(self, v: u16) -> bool {
        match spec_variant_owner(v) {
            Some((h, s)) => self.spec_hero_bit(h, s),
            None => false,
        }
    }

    pub open spec fn spec_has_environment(self, e: u8) -> bool {
        self.environments & (1u64 << (e as u64)) != 0
    }

    /// An empty inventory: nothing owned, no scions.
    pub fn new() -> (r: Items)
        ensures
            r.wf(),
            r.scions == 0,
            r.villains == 0,
            r.team_villains == 0,
            r.environments == 0,
            forall|h: u8| h < HERO_COUNT ==> r.heroes@[h as int] == 0,
    {
        Items {
            scions: 0,
            villains: 0,
            team_villains: 0,
            heroes: vec![0u8; HERO_COUNT as usize],
            environments: 0,
        }
    }

    pub fn has_villain(&self, villain: u8) -> (r: bool)
        requires
            villain < VILLAIN_COUNT,
        ensures
            r == self.spec_has_villain(villain),
    {
        self.villains & (1u64 << (villain as u64)) != 0
    }

    pub fn has_team_villain(&self, team_villain: u8) -> (r: bool)
        requires
            team_villain < TEAM_VILLAIN_COUNT,
        ensures
            r == self.spec_has_team_villain(team_villain),
    {
        self.team_villains & (1u16 << (team_villain as u16)) != 0
    }

    pub fn has_hero(&self, hero: u8) -> (r: bool)
        requires
            self.wf(),
            hero < HERO_COUNT,
        ensures
            r == self.spec_has_hero(hero),
    {
        self.heroes[hero as usize] != 0
    }

    pub fn has_base_hero(&self, hero: u8) -> (r: bool)
        requires
            self.wf(),
            hero < HERO_COUNT,
        ensures
            r == self.spec_has_base_hero(hero),
    {
        self.heroes[hero as usize] & (1u8 << 0u8) != 0
    }

    pub fn has_hero_variant(&self, variant: u16) -> (r: bool)
        requires
            self.wf(),
        ensures
            r == self.spec_has_hero_variant(variant),
    {
        match variant_owner(variant) {
            Some((hero, slot)) => self.heroes[hero as usize] & (1u8 << slot) != 0,
            None => false,
        }
    }

    pub fn has_environment(&self, environment: u8) -> (r: bool)
        requires
            environment < ENVIRONMENT_COUNT,
        ensures
            r == self.spec_has_environment(environment),
    {
        self.environments & (1u64 << (environment as u64)) != 0
    }

    /// Grant a villain. Idempotent; sets exactly the one bit.
    pub fn set_villain(&mut self, villain: u8)
        requires
            old(self).wf(),
            villain < VILLAIN_COUNT,
        ensures
            final(self).wf(),
            final(self).villains == old(self).villains | (1u64 << (villain as u64)),
            forall|v: u8|
                final(self).spec_has_villain(v) == (old(self).spec_has_villain(v) || v == villain),
            final(self).scions == old(self).scions,
            final(self).team_villains == old(self).team_villains,
            final(self).heroes@ == old(self).heroes@,
            final(self).environments == old(self).environments,
            items_le(*old(self), *final(self)),
    {
        self.villains = self.villains | (1u64 << (villain as u64));
        proof {
            assert forall|v: u8|
                self.spec_has_villain(v) == (old(self).spec_has_villain(v) || v == villain) by {
                lemma_set_bit64(old(self).villains, villain as u64, v as u64);
            }
            lemma_items_le_mutation(*old(self), *self);
        }
    }

    /// Grant a team villain. Idempotent; sets exactly the one bit.
    pub fn set_team_villain(&mut self, team_villain: u8)
        requires
            old(self).wf(),
            team_villain < TEAM_VILLAIN_COUNT,
        ensures
            final(self).wf(),
            final(self).team_villains == old(self).team_villains | (1u16 << (team_villain as u16)),
            forall|t: u8|
                final(self).spec_has_team_villain(t) == (old(self).spec_has_team_villain(t) || t
                    == team_villain),
            final(self).scions == old(self).scions,
            final(self).villains == old(self).villains,
            final(self).heroes@ == old(self).heroes@,
            final(self).environments == old(self).environments,
            items_le(*old(self), *final(self)),
    {
        self.team_villains = self.team_villains | (1u16 << (team_villain as u16));
        proof {
            assert forall|t: u8|
                self.spec_has_team_villain(t) == (old(self).spec_has_team_villain(t) || t
                    == team_villain) by {
                lemma_set_bit16(old(self).team_villains, team_villain as u16, t as u16);
            }
            lemma_items_le_mutation(*old(self), *self);
        }
    }

    /// Grant the base version of a hero. Idempotent; sets bit 0 of the
    /// hero's byte.
    pub fn set_hero(&mut self, hero: u8)
        requires
            old(self).wf(),
            hero < HERO_COUNT,
        ensures
            final(self).wf(),
            final(self).heroes@ == old(self).heroes@.update(
                hero as int,
                old(self).heroes@[hero as int] | (1u8 << 0u8),
            ),
            forall|h: u8, s: u8|
                h < HERO_COUNT ==> final(self).spec_hero_bit(h, s) == (old(self).spec_hero_bit(h, s) || (h
                    == hero && s == 0)),
            final(self).scions == old(self).scions,
            final(self).villains == old(self).villains,
            final(self).team_villains == old(self).team_villains,
            final(self).environments == old(self).environments,
            items_le(*old(self), *final(self)),
    {
        let b = self.heroes[hero as usize];
        self.heroes[hero as usize] = b | (1u8 << 0u8);
        proof {
            assert forall|h: u8, s: u8| h < HERO_COUNT implies self.spec_hero_bit(h, s) == (old(
                self,
            ).spec_hero_bit(h, s) || (h == hero && s == 0)) by {
                lemma_set_bit8(old(self).heroes@[h as int], 0u8, s as u8);
            }
            lemma_items_le_mutation(*old(self), *self);
        }
    }

    /// Grant a hero variant. A variant that no hero owns is ignored, as an
    /// inventory has no cell for it. Idempotent; sets the variant's slot bit
    /// in its owner's byte.
    pub fn set_hero_variant(&mut self, variant: u16)
        requires
            old(self).wf(),
        ensures
            final(self).wf(),
            match spec_variant_owner(variant) {
                Some((hero, slot)) => final(self).heroes@ == old(self).heroes@.update(
                    hero as int,
                    old(self).heroes@[hero as int] | (1u8 << (slot as u8)),
                ),
                None => final(self).heroes@ == old(self).heroes@,
            },
            forall|h: u8, s: u8|
                h < HERO_COUNT ==> final(self).spec_hero_bit(h, s) == (old(self).spec_hero_bit(h, s)
                    || spec_variant_owner(variant) == Some((h, s))),
            final(self).spec_has_hero_variant(variant) || spec_variant_owner(variant) is None,
            final(self).scions == old(self).scions,
            final(self).villains == old(self).villains,
            final(self).team_villains == old(self).team_villains,
            final(self).environments == old(self).environments,
            items_le(*old(self), *final(self)),
    {
        match variant_owner(variant) {
            Some((hero, slot)) => {
                let b = self.heroes[hero as usize];
                self.heroes[hero as usize] = b | (1u8 << slot);
                proof {
                    assert forall|h: u8, s: u8| h < HERO_COUNT implies self.spec_hero_bit(h, s)
                        == (old(self).spec_hero_bit(h, s) || spec_variant_owner(variant) == Some(
                        (h, s),
                    )) by {
                        lemma_set_bit8(old(self).heroes@[h as int], slot as u8, s as u8);
                    }
                    lemma_items_le_mutation(*old(self), *self);
                }
            },
            None => {
                proof {
                    lemma_items_le_mutation(*old(self), *self);
                }
            },
        }
    }

    /// Grant an environment. Idempotent; sets exactly the one bit.
    pub fn set_environment(&mut self, environment: u8)
        requires
            old(self).wf(),
            environment < ENVIRONMENT_COUNT,
        ensures
            final(self).wf(),
            final(self).environments == old(self).environments | (1u64 << (environment as u64)),
            forall|e: u8|
                final(self).spec_has_environment(e) == (old(self).spec_has_environment(e) || e
                    == environment),
            final(self).scions == old(self).scions,
            final(self).villains == old(self).villains,
            final(self).team_villains == old(self).team_villains,
            final(self).heroes@ == old(self).heroes@,
            items_le(*old(self), *final(self)),
    {
        self.environments = self.environments | (1u64 << (environment as u64));
        proof {
            assert forall|e: u8|
                self.spec_has_environment(e) == (old(self).spec_has_environment(e) || e
                    == environment) by {
                lemma_set_bit64(old(self).environments, environment as u64, e as u64);
            }
            lemma_items_le_mutation(*old(self), *self);
        }
    }

    /// Apply one inbound item to the inventory: the matching mutator for an
    /// unlock, one more scion for a scion, nothing for filler.
    pub fn set_item(&mut self, item: Item)
        requires
            old(self).wf(),
            item.wf(),
            item is Scion ==> old(self).scions < u32::MAX,
        ensures
            final(self).wf(),
            forall|v: u8|
                final(self).spec_has_villain(v) == (old(self).spec_has_villain(v) || item
                    == Item::Villain(v)),
            forall|t: u8|
                final(self).spec_has_team_villain(t) == (old(self).spec_has_team_villain(t) || item
                    == Item::TeamVillain(t)),
            forall|h: u8, s: u8|
                h < HERO_COUNT ==> final(self).spec_hero_bit(h, s) == (old(self).spec_hero_bit(h, s)
                    || spec_item_grants_hero_bit(item, h, s)),
            forall|e: u8|
                final(self).spec_has_environment(e) == (old(self).spec_has_environment(e) || item
                    == Item::Environment(e)),
            final(self).scions == old(self).scions + if item is Scion {
                1int
            } else {
                0int
            },
            items_le(*old(self), *final(self)),
    {
        match item {
            Item::Hero(h) => self.set_hero(h),
            Item::Variant(v) => self.set_hero_variant(v),
            Item::Villain(v) => self.set_villain(v),
            Item::TeamVillain(t) => self.set_team_villain(t),
            Item::Environment(e) => self.set_environment(e),
            Item::Scion => {
                self.scions = self.scions + 1;
                proof {
                    lemma_items_le_mutation(*old(self), *self);
                }
            },
            Item::Filler(_) => {
                proof {
                    lemma_items_le_mutation(*old(self), *self);
                }
            },
        }
    }
}

/// Which hero byte bit one inbound item grants: bit 0 of the hero's byte
/// for a base hero, the owner's slot bit for a hero variant, none otherwise.
pub open spec fn spec_item_grants_hero_bit(item: Item, h: u8, s: u8) -> bool {
    match item {
        Item::Hero(h2) => h2 == h && s == 0,
        Item::Variant(v) => spec_variant_owner(v) == Some((h, s)),
        _ => false,
    }
}

/// Inventory `a` is contained in inventory `b`: every owned bit of `a` is
/// owned in `b` and `a` has no more scions. Every mutator takes the old
/// inventory to one that contains it, so along any sequence of mutator calls
/// no owned bit is ever cleared and the scion counter never decreases.
pub open spec fn items_le(a: Items, b: Items) -> bool {
    &&& forall|v: u8| a.spec_has_villain(v) ==> b.spec_has_villain(v)
    &&& forall|t: u8| a.spec_has_team_villain(t) ==> b.spec_has_team_villain(t)
    &&& forall|h: u8, s: u8| h < HERO_COUNT && a.spec_hero_bit(h, s) ==> b.spec_hero_bit(h, s)
    &&& forall|e: u8| a.spec_has_environment(e) ==> b.spec_has_environment(e)
    &&& a.scions <= b.scions
}

/// Containment of inventories composes, so the monotonicity of each single
/// mutator extends to any sequence of them.
pub proof fn lemma_items_le_trans(a: Items, b: Items, c: Items)
    requires
        items_le(a, b),
        items_le(b, c),
    ensures
        items_le(a, c),
{
}

/// An inventory whose bitfields only gained set bits contains the old one.
proof fn lemma_items_le_mutation(a: Items, b: Items)
    requires
        a.heroes@.len() == b.heroes@.len(),
        forall|v: u8| a.spec_has_villain(v) ==> b.spec_has_villain(v),
        forall|t: u8| a.spec_has_team_villain(t) ==> b.spec_has_team_villain(t),
        forall|h: u8, s: u8|
            h < HERO_COUNT && a.spec_hero_bit(h, s) ==> b.spec_hero_bit(h, s),
        forall|e: u8| a.spec_has_environment(e) ==> b.spec_has_environment(e),
        a.scions <= b.scions,
    ensures
        items_le(a, b),
{
}

} // verus!
