//! The checked-set half of the state engine: every objective this session
//! has reported resolved. One difficulty-tier bit field per villain and
//! team-villain ordinal, one bit per tracked variant, one bit per
//! environment, and the victory flag. All mutators are monotonic and
//! idempotent.

use vstd::prelude::*;

use crate::bits::{lemma_set_bit128, lemma_set_bit64, lemma_set_bit8};
use crate::data::Location;
use crate::registry::{
    ENVIRONMENT_COUNT, TEAM_VILLAIN_COUNT, TRACKED_VARIANT_COUNT, VILLAIN_COUNT,
};

verus! {

/// The checked-objective state. Each villain or team-villain byte holds one
/// bit per difficulty tier 0..=3; the variant field holds one bit per
/// tracked variant ordinal; the environment field one bit per ordinal.
#[derive(Debug, Clone)]
pub struct Locations {
    pub victory: bool,
    pub villains: Vec<u8>,
    pub team_villains: Vec<u8>,
    pub variants: u128,
    pub environments: u64,
}

impl Locations {
    /// The difficulty tables always have exactly one byte per ordinal.
    pub open spec fn wf(self) -> bool {
        &&& self.villains@.len() == VILLAIN_COUNT
        &&& self.team_villains@.len() == TEAM_VILLAIN_COUNT
    }

    pub open spec fn spec_checked_villain(self, v: u8, d: u8) -> bool {
        self.villains@[v as int] & (1u8 << (d as u8)) != 0
    }

    pub open spec fn spec_checked_team_villain(self, t: u8, d: u8) -> bool {
        self.team_villains@[t as int] & (1u8 << (d as u8)) != 0
    }

    pub open spec fn spec_checked_variant(self, v: u16) -> bool {
        self.variants & (1u128 << (v as u128)) != 0
    }

    /// A variant still checkable: it is tracked at all and not yet checked.
    pub open spec fn spec_unchecked_variant(self, v: u16) -> bool {
        v < TRACKED_VARIANT_COUNT && !self.spec_checked_variant(v)
    }

    pub open spec fn spec_checked_environment(self, e: u8) -> bool {
        self.environments & (1u64 << (e as u64)) != 0
    }

    /// An empty checked-set: nothing resolved, no victory.
    pub fn new() -> (r: Locations)
        ensures
            r.wf(),
            !r.victory,
            r.variants == 0,
            r.environments == 0,
            forall|v: u8| v < VILLAIN_COUNT ==> r.villains@[v as int] == 0,
            forall|t: u8| t < TEAM_VILLAIN_COUNT ==> r.team_villains@[t as int] == 0,
    {
        Locations {
            victory: false,
            villains: vec![0u8; VILLAIN_COUNT as usize],
            team_villains: vec![0u8; TEAM_VILLAIN_COUNT as usize],
            variants: 0,
            environments: 0,
        }
    }

    pub fn has_unchecked_villain(&self, villain: u8, difficulty: u8) -> (r: bool)
        requires
            self.wf(),
            villain < VILLAIN_COUNT,
            difficulty < 4,
        ensures
            r == !self.spec_checked_villain(villain, difficulty),
    {
        self.villains[villain as usize] & (1u8 << difficulty) == 0
    }

    pub fn has_unchecked_team_villain(&self, team_villain: u8, difficulty: u8) -> (r: bool)
        requires
            self.wf(),
            team_villain < TEAM_VILLAIN_COUNT,
            difficulty < 4,
        ensures
            r == !self.spec_checked_team_villain(team_villain, difficulty),
    {
        self.team_villains[team_villain as usize] & (1u8 << difficulty) == 0
    }

    pub fn has_unchecked_variant(&self, variant: u16) -> (r: bool)
        ensures
            r == self.spec_unchecked_variant(variant),
    {
        if variant >= TRACKED_VARIANT_COUNT {
            false
        } else {
            self.variants & (1u128 << (variant as u128)) == 0
        }
    }

    pub fn has_unchecked_environment(&self, environment: u8) -> (r: bool)
        requires
            environment < ENVIRONMENT_COUNT,
        ensures
            r == !self.spec_checked_environment(environment),
    {
        self.environments & (1u64 << (environment as u64)) == 0
    }

    /// Record a resolved villain objective at one difficulty tier.
    /// Idempotent; sets exactly the one bit.
    pub fn mark_villain(&mut self, villain: u8, difficulty: u8)
        requires
            old(self).wf(),
            villain < VILLAIN_COUNT,
            difficulty < 4,
        ensures
            final(self).wf(),
            final(self).villains@ == old(self).villains@.update(
                villain as int,
                old(self).villains@[villain as int] | (1u8 << (difficulty as u8)),
            ),
            forall|v: u8, d: u8|
                v < VILLAIN_COUNT ==> final(self).spec_checked_villain(v, d) == (old(self).spec_checked_villain(v, d) || (v == villain && d == difficulty)),
            final(self).victory == old(self).victory,
            final(self).team_villains@ == old(self).team_villains@,
            final(self).variants == old(self).variants,
            final(self).environments == old(self).environments,
            locations_le(*old(self), *final(self)),
    {
        let b = self.villains[villain as usize];
        self.villains[villain as usize] = b | (1u8 << difficulty);
        proof {
            assert forall|v: u8, d: u8| v < VILLAIN_COUNT implies self.spec_checked_villain(v, d)
                == (old(self).spec_checked_villain(v, d) || (v == villain && d == difficulty)) by {
                lemma_set_bit8(old(self).villains@[v as int], difficulty as u8, d as u8);
            }
            lemma_locations_le_mutation(*old(self), *self);
        }
    }

    /// Record a resolved team-villain objective at one difficulty tier.
    /// Idempotent; sets exactly the one bit.
    pub fn mark_team_villain(&mut self, team_villain: u8, difficulty: u8)
        requires
            old(self).wf(),
            team_villain < TEAM_VILLAIN_COUNT,
            difficulty < 4,
        ensures
            final(self).wf(),
            final(self).team_villains@ == old(self).team_villains@.update(
                team_villain as int,
                old(self).team_villains@[team_villain as int] | (1u8 << (difficulty as u8)),
            ),
            forall|t: u8, d: u8|
                t < TEAM_VILLAIN_COUNT ==> final(self).spec_checked_team_villain(t, d) == (old(self).spec_checked_team_villain(t, d) || (t == team_villain && d == difficulty)),
            final(self).victory == old(self).victory,
            final(self).villains@ == old(self).villains@,
            final(self).variants == old(self).variants,
            final(self).environments == old(self).environments,
            locations_le(*old(self), *final(self)),
    {
        let b = self.team_villains[team_villain as usize];
        self.team_villains[team_villain as usize] = b | (1u8 << difficulty);
        proof {
            assert forall|t: u8, d: u8|
                t < TEAM_VILLAIN_COUNT implies self.spec_checked_team_villain(t, d) == (old(self).spec_checked_team_villain(t, d) || (t == team_villain && d == difficulty)) by {
                lemma_set_bit8(old(self).team_villains@[t as int], difficulty as u8, d as u8);
            }
            lemma_locations_le_mutation(*old(self), *self);
        }
    }

    /// Record a resolved variant unlock. A variant outside the tracked range
    /// has no objective and is ignored. Idempotent; sets exactly the one bit.
    pub fn mark_variant(&mut self, variant: u16)
        requires
            old(self).wf(),
        ensures
            final(self).wf(),
            variant < TRACKED_VARIANT_COUNT ==> final(self).variants == old(self).variants | (
            1u128 << (variant as u128)),
            variant >= TRACKED_VARIANT_COUNT ==> final(self).variants == old(self).variants,
            forall|v: u16|
                final(self).spec_checked_variant(v) == (old(self).spec_checked_variant(v) || (v
                    == variant && variant < TRACKED_VARIANT_COUNT)),
            final(self).victory == old(self).victory,
            final(self).villains@ == old(self).villains@,
            final(self).team_villains@ == old(self).team_villains@,
            final(self).environments == old(self).environments,
            locations_le(*old(self), *final(self)),
    {
        if variant < TRACKED_VARIANT_COUNT {
            self.variants = self.variants | (1u128 << (variant as u128));
            proof {
                assert forall|v: u16|
                    self.spec_checked_variant(v) == (old(self).spec_checked_variant(v) || (v
                        == variant && variant < TRACKED_VARIANT_COUNT)) by {
                    lemma_set_bit128(old(self).variants, variant as u128, v as u128);
                }
                lemma_locations_le_mutation(*old(self), *self);
            }
        } else {
            proof {
                lemma_locations_le_mutation(*old(self), *self);
            }
        }
    }

    /// Record a resolved environment objective. Idempotent; sets exactly the
    /// one bit.
    pub fn mark_environment(&mut self, environment: u8)
        requires
            old(self).wf(),
            environment < ENVIRONMENT_COUNT,
        ensures
            final(self).wf(),
            final(self).environments == old(self).environments | (1u64 << (environment as u64)),
            forall|e: u8|
                final(self).spec_checked_environment(e) == (old(self).spec_checked_environment(e)
                    || e == environment),
            final(self).victory == old(self).victory,
            final(self).villains@ == old(self).villains@,
            final(self).team_villains@ == old(self).team_villains@,
            final(self).variants == old(self).variants,
            locations_le(*old(self), *final(self)),
    {
        self.environments = self.environments | (1u64 << (environment as u64));
        proof {
            assert forall|e: u8|
                self.spec_checked_environment(e) == (old(self).spec_checked_environment(e) || e
                    == environment) by {
                lemma_set_bit64(old(self).environments, environment as u64, e as u64);
            }
            lemma_locations_le_mutation(*old(self), *self);
        }
    }

    /// Record the victory objective as achieved. Idempotent.
    pub fn mark_victory(&mut self)
        requires
            old(self).wf(),
        ensures
            final(self).wf(),
            final(self).victory,
            final(self).villains@ == old(self).villains@,
            final(self).team_villains@ == old(self).team_villains@,
            final(self).variants == old(self).variants,
            final(self).environments == old(self).environments,
            locations_le(*old(self), *final(self)),
    {
        self.victory = true;
        proof {
            lemma_locations_le_mutation(*old(self), *self);
        }
    }

    /// Record one resolved objective of any kind by dispatching to the
    /// matching mutator.
    pub fn mark_location(&mut self, location: Location)
        requires
            old(self).wf(),
            location.wf(),
        ensures
            final(self).wf(),
            locations_le(*old(self), *final(self)),
            match location {
                Location::Variant(v) => final(self).spec_checked_variant(v) == (old(self).spec_checked_variant(v) || v < TRACKED_VARIANT_COUNT) && final(self).victory
                    == old(self).victory,
                Location::Villain(v, d) => final(self).spec_checked_villain(v, d) && final(self).victory == old(self).victory,
                Location::TeamVillain(t, d) => final(self).spec_checked_team_villain(t, d)
                    && final(self).victory == old(self).victory,
                Location::Environment(e) => final(self).spec_checked_environment(e) && final(self).victory == old(self).victory,
                Location::Victory => final(self).victory,
            },
    {
        match location {
            Location::Variant(v) => self.mark_variant(v),
            Location::Villain(v, d) => self.mark_villain(v, d),
            Location::TeamVillain(t, d) => self.mark_team_villain(t, d),
            Location::Environment(e) => self.mark_environment(e),
            Location::Victory => self.mark_victory(),
        }
    }
}

/// Checked-set `a` is contained in checked-set `b`: every checked bit of `a`
/// is checked in `b` and victory is not forgotten. Every mutator takes the
/// old checked-set to one that contains it, so along any sequence of mutator
/// calls no checked bit is ever cleared.
pub open spec fn locations_le(a: Locations, b: Locations) -> bool {
    &&& (a.victory ==> b.victory)
    &&& forall|v: u8, d: u8|
        v < VILLAIN_COUNT && a.spec_checked_villain(v, d) ==> b.spec_checked_villain(v, d)
    &&& forall|t: u8, d: u8|
        t < TEAM_VILLAIN_COUNT && a.spec_checked_team_villain(t, d)
            ==> b.spec_checked_team_villain(t, d)
    &&& forall|v: u16| a.spec_checked_variant(v) ==> b.spec_checked_variant(v)
    &&& forall|e: u8| a.spec_checked_environment(e) ==> b.spec_checked_environment(e)
}

/// Containment of checked-sets composes, so the monotonicity of each single
/// mutator extends to any sequence of them.
pub proof fn lemma_locations_le_trans(a: Locations, b: Locations, c: Locations)
    requires
        locations_le(a, b),
        locations_le(b, c),
    ensures
        locations_le(a, c),
{
}

/// A checked-set whose bitfields only gained set bits contains the old one.
proof fn lemma_locations_le_mutation(a: Locations, b: Locations)
    requires
        a.villains@.len() == b.villains@.len(),
        a.team_villains@.len() == b.team_villains@.len(),
        a.victory ==> b.victory,
        forall|v: u8, d: u8|
            v < VILLAIN_COUNT && a.spec_checked_villain(v, d) ==> b.spec_checked_villain(v, d),
        forall|t: u8, d: u8|
            t < TEAM_VILLAIN_COUNT && a.spec_checked_team_villain(t, d)
                ==> b.spec_checked_team_villain(t, d),
        forall|v: u16| a.spec_checked_variant(v) ==> b.spec_checked_variant(v),
        forall|e: u8| a.spec_checked_environment(e) ==> b.spec_checked_environment(e),
    ensures
        locations_le(a, b),
{
}

} // verus!
