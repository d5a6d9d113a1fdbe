//! The state engine's roof: per-session thresholds, the combined session
//! state, and the availability resolver that derives which objectives are
//! currently legal to report.

use vstd::prelude::*;

use crate::bits::{count_ones128, count_ones16, popcount128, popcount16};
use crate::items::Items;
use crate::locations::Locations;
use crate::logic::{can_unlock, spec_can_unlock};
use crate::registry::{
    ENVIRONMENT_COUNT, TEAM_VILLAIN_COUNT, TRACKED_VARIANT_COUNT, VILLAIN_COUNT,
    VILLAIN_SKINWALKER_GLOOMWEAVER, VILLAIN_SPITE_AGENT_OF_GLOOM,
};

verus! {

broadcast use vstd::seq_lib::lemma_seq_contains_after_push;

/// The number of distinct team villains that must be owned before any
/// team-villain objective opens up.
pub const TEAM_MODE_MINIMUM: u8 = 3;

/// One villain pair models an expansion rule: the upgraded form has no
/// objectives above the second difficulty tier of its own, and the base
/// form's upper tiers open only once the upgraded form is owned.
pub const PAIRED_BASE_VILLAIN: u8 = VILLAIN_SPITE_AGENT_OF_GLOOM;

/// The upgraded sibling of `PAIRED_BASE_VILLAIN`.
pub const PAIRED_UPGRADED_VILLAIN: u8 = VILLAIN_SKINWALKER_GLOOMWEAVER;

/// The difficulty tier from which the paired villains' special rule applies.
pub const PAIRED_TIER_BOUND: u8 = 2;

/// Per-session victory thresholds and reporting widths, already clamped to
/// unsigned ranges.
#[derive(Debug, Clone)]
pub struct CleanedSlotData {
    pub required_scions: u32,
    pub required_villains: u32,
    pub required_variants: u32,
    pub villain_difficulty_points: Vec<u32>,
    pub locations_per: Vec<u8>,
}

/// Session configuration exactly as the server sent it: signed, possibly
/// holding negative placeholders.
#[derive(Debug, Clone)]
pub struct RawSlotData {
    pub required_scions: i32,
    pub required_villains: i32,
    pub required_variants: i32,
    pub villain_difficulty_points: Vec<i32>,
    pub locations_per: Vec<i32>,
}

/// A negative threshold is a generator placeholder and counts as zero; a
/// value too large for the target width saturates.
pub open spec fn spec_clamp_u32(x: i32) -> u32 {
    if x < 0 {
        0u32
    } else {
        x as u32
    }
}

/// A negative count is a generator placeholder and counts as zero; a value
/// too large for the byte saturates.
pub open spec fn spec_clamp_u8(x: i32) -> u8 {
    if x < 0 {
        0u8
    } else if x > 255 {
        255u8
    } else {
        x as u8
    }
}

impl RawSlotData {
    /// One point entry per difficulty tier, one reporting width per location
    /// kind.
    pub open spec fn wf(self) -> bool {
        &&& self.villain_difficulty_points@.len() == 4
        &&& self.locations_per@.len() == 6
    }
}

impl CleanedSlotData {
    /// One point entry per difficulty tier, one reporting width per location
    /// kind.
    pub open spec fn wf(self) -> bool {
        &&& self.villain_difficulty_points@.len() == 4
        &&& self.locations_per@.len() == 6
    }

    /// Clamp the server's signed configuration to unsigned thresholds.
    pub fn from_raw(raw: &RawSlotData) -> (r: CleanedSlotData)
        requires
            raw.wf(),
        ensures
            r.wf(),
            r.required_scions == spec_clamp_u32(raw.required_scions),
            r.required_villains == spec_clamp_u32(raw.required_villains),
            r.required_variants == spec_clamp_u32(raw.required_variants),
            forall|i: int|
                0 <= i < 4 ==> r.villain_difficulty_points@[i] == spec_clamp_u32(
                    raw.villain_difficulty_points@[i],
                ),
            forall|i: int|
                0 <= i < 6 ==> r.locations_per@[i] == spec_clamp_u8(raw.locations_per@[i]),
    {
        let mut points: Vec<u32> = Vec::new();
        let mut i: usize = 0;
        while i < 4
            invariant
                i <= 4,
                raw.wf(),
                points@.len() == i,
                forall|j: int|
                    0 <= j < i ==> points@[j] == spec_clamp_u32(raw.villain_difficulty_points@[j]),
            decreases 4 - i,
        {
            let x = raw.villain_difficulty_points[i];
            points.push(if x < 0 {
                0u32
            } else {
                x as u32
            });
            i = i + 1;
        }
        let mut per: Vec<u8> = Vec::new();
        let mut i: usize = 0;
        while i < 6
            invariant
                i <= 6,
                raw.wf(),
                per@.len() == i,
                forall|j: int| 0 <= j < i ==> per@[j] == spec_clamp_u8(raw.locations_per@[j]),
            decreases 6 - i,
        {
            let x = raw.locations_per[i];
            per.push(
                if x < 0 {
                    0u8
                } else if x > 255 {
                    255u8
                } else {
                    x as u8
                },
            );
            i = i + 1;
        }
        CleanedSlotData {
            required_scions: {
                let x = raw.required_scions;
                if x < 0 {
                    0u32
                } else {
                    x as u32
                }
            },
            required_villains: {
                let x = raw.required_villains;
                if x < 0 {
                    0u32
                } else {
                    x as u32
                }
            },
            required_variants: {
                let x = raw.required_variants;
                if x < 0 {
                    0u32
                } else {
                    x as u32
                }
            },
            villain_difficulty_points: points,
            locations_per: per,
        }
    }
}

/// The whole session state: inventory, checked-set, thresholds.
#[derive(Debug, Clone)]
pub struct State {
    pub items: Items,
    pub checked_locations: Locations,
    pub slot_data: CleanedSlotData,
}

/// The derived view of what may be reported right now; recomputed on every
/// query, never stored.
#[derive(Debug, Clone)]
pub struct AvailableLocations {
    pub victory: bool,
    pub villains: Vec<(u8, u8)>,
    pub team_villains: Vec<(u8, u8)>,
    pub variants: Vec<u16>,
    pub environments: Vec<u8>,
}

/// Points contributed by the difficulty tiers below `d` of one villain's
/// checked byte.
pub open spec fn spec_tier_points(byte: u8, points: Seq<u32>, d: nat) -> int
    decreases d,
{
    if d == 0 {
        0
    } else {
        spec_tier_points(byte, points, (d - 1) as nat) + if byte & (1u8 << (((d - 1) as nat) as u8))
            != 0 {
            points[d - 1] as int
        } else {
            0
        }
    }
}

/// Weighted villain-difficulty score over the first `v` villains: each
/// checked tier contributes its per-difficulty weight.
pub open spec fn spec_victory_score(villains: Seq<u8>, points: Seq<u32>, v: nat) -> int
    decreases v,
{
    if v == 0 {
        0
    } else {
        spec_victory_score(villains, points, (v - 1) as nat) + spec_tier_points(
            villains[v - 1],
            points,
            4,
        )
    }
}

proof fn lemma_tier_points_bound(byte: u8, points: Seq<u32>, d: nat)
    ensures
        0 <= spec_tier_points(byte, points, d) <= d * (u32::MAX as int),
    decreases d,
{
    if d > 0 {
        lemma_tier_points_bound(byte, points, (d - 1) as nat);
    }
}

proof fn lemma_victory_score_bound(villains: Seq<u8>, points: Seq<u32>, v: nat)
    ensures
        0 <= spec_victory_score(villains, points, v) <= v * 4 * (u32::MAX as int),
    decreases v,
{
    if v > 0 {
        lemma_victory_score_bound(villains, points, (v - 1) as nat);
        lemma_tier_points_bound(villains[v - 1], points, 4);
    }
}

impl State {
    pub open spec fn wf(self) -> bool {
        &&& self.items.wf()
        &&& self.checked_locations.wf()
        &&& self.slot_data.wf()
    }

    /// A fresh session: empty inventory and checked-set, thresholds clamped
    /// from the server's configuration.
    pub fn new(slot_data: &RawSlotData) -> (r: State)
        requires
            slot_data.wf(),
        ensures
            r.wf(),
            r.items.scions == 0,
            r.items.villains == 0,
            r.items.team_villains == 0,
            r.items.environments == 0,
            forall|h: u8| h < crate::registry::HERO_COUNT ==> r.items.heroes@[h as int] == 0,
            !r.checked_locations.victory,
            r.checked_locations.variants == 0,
            r.checked_locations.environments == 0,
            forall|v: u8| v < VILLAIN_COUNT ==> r.checked_locations.villains@[v as int] == 0,
            forall|t: u8|
                t < TEAM_VILLAIN_COUNT ==> r.checked_locations.team_villains@[t as int] == 0,
            r.slot_data.required_scions == spec_clamp_u32(slot_data.required_scions),
            r.slot_data.required_villains == spec_clamp_u32(slot_data.required_villains),
            r.slot_data.required_variants == spec_clamp_u32(slot_data.required_variants),
            forall|i: int|
                0 <= i < 4 ==> r.slot_data.villain_difficulty_points@[i] == spec_clamp_u32(
                    slot_data.villain_difficulty_points@[i],
                ),
            forall|i: int|
                0 <= i < 6 ==> r.slot_data.locations_per@[i] == spec_clamp_u8(
                    slot_data.locations_per@[i],
                ),
    {
        State {
            items: Items::new(),
            checked_locations: Locations::new(),
            slot_data: CleanedSlotData::from_raw(slot_data),
        }
    }

    /// The three victory threshold comparisons: enough scions, enough
    /// distinct checked variants, and a high enough weighted
    /// villain-difficulty score.
    pub open spec fn spec_victory_available(self) -> bool {
        &&& self.items.scions >= self.slot_data.required_scions
        &&& popcount128(self.checked_locations.variants, 128)
            >= self.slot_data.required_variants
        &&& spec_victory_score(
            self.checked_locations.villains@,
            self.slot_data.villain_difficulty_points@,
            VILLAIN_COUNT as nat,
        ) >= self.slot_data.required_villains
    }

    /// Whether the victory objective could be reported now, thresholds only:
    /// true exactly when all three comparisons hold.
    pub fn victory_available(&self) -> (r: bool)
        requires
            self.wf(),
        ensures
            r == self.spec_victory_available(),
    {
        let enough_scions = self.items.scions >= self.slot_data.required_scions;
        let checked_variants = count_ones128(self.checked_locations.variants);
        let enough_variants = checked_variants >= self.slot_data.required_variants;

        let mut score: u64 = 0;
        let mut v: usize = 0;
        while v < VILLAIN_COUNT as usize
            invariant
                self.wf(),
                v <= VILLAIN_COUNT,
                score == spec_victory_score(
                    self.checked_locations.villains@,
                    self.slot_data.villain_difficulty_points@,
                    v as nat,
                ),
                score <= (v as int) * 4 * (u32::MAX as int),
            decreases VILLAIN_COUNT as int - v,
        {
            let byte = self.checked_locations.villains[v];
            let mut tier: u64 = 0;
            let mut d: usize = 0;
            while d < 4
                invariant
                    self.wf(),
                    v < VILLAIN_COUNT,
                    d <= 4,
                    byte == self.checked_locations.villains@[v as int],
                    tier == spec_tier_points(
                        byte,
                        self.slot_data.villain_difficulty_points@,
                        d as nat,
                    ),
                    tier <= (d as int) * (u32::MAX as int),
                decreases 4 - d,
            {
                if byte & (1u8 << (d as u8)) != 0 {
                    tier = tier + self.slot_data.villain_difficulty_points[d] as u64;
                } else {
                    proof {
                        lemma_tier_points_bound(
                            byte,
                            self.slot_data.villain_difficulty_points@,
                            d as nat,
                        );
                    }
                }
                d = d + 1;
            }
            score = score + tier;
            v = v + 1;
        }
        let enough_villains = score >= self.slot_data.required_villains as u64;

        enough_scions && enough_variants && enough_villains
    }

    /// A villain objective is open: the villain is owned, the tier is
    /// unchecked, and the paired-villain rule is respected.
    pub open spec fn spec_villain_available(self, v: u8, d: u8) -> bool {
        &&& v < VILLAIN_COUNT
        &&& d < 4
        &&& self.items.spec_has_villain(v)
        &&& !self.checked_locations.spec_checked_villain(v, d)
        &&& (v == PAIRED_UPGRADED_VILLAIN ==> d < PAIRED_TIER_BOUND)
        &&& ((v == PAIRED_BASE_VILLAIN && d >= PAIRED_TIER_BOUND)
            ==> self.items.spec_has_villain(PAIRED_UPGRADED_VILLAIN))
    }

    /// A team-villain objective is open: team mode has begun (enough
    /// distinct team villains), the team villain is owned, and the tier is
    /// unchecked.
    pub open spec fn spec_team_villain_available(self, t: u8, d: u8) -> bool {
        &&& t < TEAM_VILLAIN_COUNT
        &&& d < 4
        &&& popcount16(self.items.team_villains, 16) >= TEAM_MODE_MINIMUM
        &&& self.items.spec_has_team_villain(t)
        &&& !self.checked_locations.spec_checked_team_villain(t, d)
    }

    /// A variant objective is open: tracked, not yet checked, and its unlock
    /// requirement holds of the inventory.
    pub open spec fn spec_variant_available(self, v: u16) -> bool {
        &&& self.checked_locations.spec_unchecked_variant(v)
        &&& spec_can_unlock(v, self.items)
    }

    /// An environment objective is open: owned and not yet checked.
    pub open spec fn spec_environment_available(self, e: u8) -> bool {
        &&& e < ENVIRONMENT_COUNT
        &&& self.items.spec_has_environment(e)
        &&& !self.checked_locations.spec_checked_environment(e)
    }

    /// Recompute the full availability view. The result holds an objective
    /// exactly when it is open: in particular it never holds one already in
    /// the checked-set.
    pub fn available_locations(&self) -> (r: AvailableLocations)
        requires
            self.wf(),
        ensures
            r.victory == (!self.checked_locations.victory && self.spec_victory_available()),
            forall|i: int|
                0 <= i < r.villains@.len() ==> self.spec_villain_available(
                    #[trigger] r.villains@[i].0,
                    r.villains@[i].1,
                ),
            forall|v: u8, d: u8|
                self.spec_villain_available(v, d) ==> r.villains@.contains((v, d)),
            forall|x: int, y: int|
                0 <= x < y < r.villains@.len() ==> (r.villains@[x].0 as int) * 4
                    + r.villains@[x].1 < (r.villains@[y].0 as int) * 4 + r.villains@[y].1,
            forall|i: int|
                0 <= i < r.team_villains@.len() ==> self.spec_team_villain_available(
                    #[trigger] r.team_villains@[i].0,
                    r.team_villains@[i].1,
                ),
            forall|t: u8, d: u8|
                self.spec_team_villain_available(t, d) ==> r.team_villains@.contains((t, d)),
            forall|x: int, y: int|
                0 <= x < y < r.team_villains@.len() ==> (r.team_villains@[x].0 as int) * 4
                    + r.team_villains@[x].1 < (r.team_villains@[y].0 as int) * 4
                    + r.team_villains@[y].1,
            forall|i: int|
                0 <= i < r.variants@.len() ==> self.spec_variant_available(
                    #[trigger] r.variants@[i],
                ),
            forall|v: u16| self.spec_variant_available(v) ==> r.variants@.contains(v),
            forall|x: int, y: int|
                0 <= x < y < r.variants@.len() ==> r.variants@[x] < r.variants@[y],
            forall|i: int|
                0 <= i < r.environments@.len() ==> self.spec_environment_available(
                    #[trigger] r.environments@[i],
                ),
            forall|e: u8| self.spec_environment_available(e) ==> r.environments@.contains(e),
            forall|x: int, y: int|
                0 <= x < y < r.environments@.len() ==> r.environments@[x] < r.environments@[y],
    {
        AvailableLocations {
            victory: !self.checked_locations.victory && self.victory_available(),
            villains: self.available_villains(),
            team_villains: self.available_team_villains(),
            variants: self.available_variants(),
            environments: self.available_environments(),
        }
    }

    fn available_villains(&self) -> (out: Vec<(u8, u8)>)
        requires
            self.wf(),
        ensures
            forall|i: int|
                0 <= i < out@.len() ==> self.spec_villain_available(
                    #[trigger] out@[i].0,
                    out@[i].1,
                ),
            forall|v: u8, d: u8| self.spec_villain_available(v, d) ==> out@.contains((v, d)),
            forall|x: int, y: int|
                0 <= x < y < out@.len() ==> (out@[x].0 as int) * 4 + out@[x].1 < (out@[y].0 as int)
                    * 4 + out@[y].1,
    {
        let mut out: Vec<(u8, u8)> = Vec::new();
        let mut v: u8 = 0;
        while v < VILLAIN_COUNT
            invariant
                self.wf(),
                v <= VILLAIN_COUNT,
                forall|i: int|
                    0 <= i < out@.len() ==> self.spec_villain_available(
                        #[trigger] out@[i].0,
                        out@[i].1,
                    ),
                forall|v2: u8, d2: u8|
                    v2 < v && self.spec_villain_available(v2, d2) ==> out@.contains((v2, d2)),
                forall|x: int, y: int|
                    0 <= x < y < out@.len() ==> (out@[x].0 as int) * 4 + out@[x].1 < (
                    out@[y].0 as int) * 4 + out@[y].1,
                forall|x: int|
                    0 <= x < out@.len() ==> (out@[x].0 as int) * 4 + out@[x].1 < (v as int) * 4,
            decreases VILLAIN_COUNT as int - v,
        {
            let mut d: u8 = 0;
            while d < 4
                invariant
                    self.wf(),
                    v < VILLAIN_COUNT,
                    d <= 4,
                    forall|i: int|
                        0 <= i < out@.len() ==> self.spec_villain_available(
                            #[trigger] out@[i].0,
                            out@[i].1,
                        ),
                    forall|v2: u8, d2: u8|
                        v2 < v && self.spec_villain_available(v2, d2) ==> out@.contains((v2, d2)),
                    forall|d2: u8|
                        d2 < d && self.spec_villain_available(v, d2) ==> out@.contains((v, d2)),
                    forall|x: int, y: int|
                        0 <= x < y < out@.len() ==> (out@[x].0 as int) * 4 + out@[x].1 < (
                        out@[y].0 as int) * 4 + out@[y].1,
                    forall|x: int|
                        0 <= x < out@.len() ==> (out@[x].0 as int) * 4 + out@[x].1 < (v as int) * 4
                            + d,
                decreases 4 - d,
            {
                let open_tier = self.items.has_villain(v)
                    && self.checked_locations.has_unchecked_villain(v, d) && (v
                    != PAIRED_UPGRADED_VILLAIN || d < PAIRED_TIER_BOUND) && (v
                    != PAIRED_BASE_VILLAIN || d < PAIRED_TIER_BOUND || self.items.has_villain(
                    PAIRED_UPGRADED_VILLAIN,
                ));
                if open_tier {
                    out.push((v, d));
                }
                d = d + 1;
            }
            v = v + 1;
        }
        out
    }

    fn available_team_villains(&self) -> (out: Vec<(u8, u8)>)
        requires
            self.wf(),
        ensures
            forall|i: int|
                0 <= i < out@.len() ==> self.spec_team_villain_available(
                    #[trigger] out@[i].0,
                    out@[i].1,
                ),
            forall|t: u8, d: u8| self.spec_team_villain_available(t, d) ==> out@.contains((t, d)),
            forall|x: int, y: int|
                0 <= x < y < out@.len() ==> (out@[x].0 as int) * 4 + out@[x].1 < (out@[y].0 as int)
                    * 4 + out@[y].1,
    {
        let mut out: Vec<(u8, u8)> = Vec::new();
        if count_ones16(self.items.team_villains) < TEAM_MODE_MINIMUM as u32 {
            return out;
        }
        let mut t: u8 = 0;
        while t < TEAM_VILLAIN_COUNT
            invariant
                self.wf(),
                t <= TEAM_VILLAIN_COUNT,
                popcount16(self.items.team_villains, 16) >= TEAM_MODE_MINIMUM,
                forall|i: int|
                    0 <= i < out@.len() ==> self.spec_team_villain_available(
                        #[trigger] out@[i].0,
                        out@[i].1,
                    ),
                forall|t2: u8, d2: u8|
                    t2 < t && self.spec_team_villain_available(t2, d2) ==> out@.contains(
                        (t2, d2),
                    ),
                forall|x: int, y: int|
                    0 <= x < y < out@.len() ==> (out@[x].0 as int) * 4 + out@[x].1 < (
                    out@[y].0 as int) * 4 + out@[y].1,
                forall|x: int|
                    0 <= x < out@.len() ==> (out@[x].0 as int) * 4 + out@[x].1 < (t as int) * 4,
            decreases TEAM_VILLAIN_COUNT as int - t,
        {
            let mut d: u8 = 0;
            while d < 4
                invariant
                    self.wf(),
                    t < TEAM_VILLAIN_COUNT,
                    d <= 4,
                    popcount16(self.items.team_villains, 16) >= TEAM_MODE_MINIMUM,
                    forall|i: int|
                        0 <= i < out@.len() ==> self.spec_team_villain_available(
                            #[trigger] out@[i].0,
                            out@[i].1,
                        ),
                    forall|t2: u8, d2: u8|
                        t2 < t && self.spec_team_villain_available(t2, d2) ==> out@.contains(
                            (t2, d2),
                        ),
                    forall|d2: u8|
                        d2 < d && self.spec_team_villain_available(t, d2) ==> out@.contains(
                            (t, d2),
                        ),
                    forall|x: int, y: int|
                        0 <= x < y < out@.len() ==> (out@[x].0 as int) * 4 + out@[x].1 < (
                        out@[y].0 as int) * 4 + out@[y].1,
                    forall|x: int|
                        0 <= x < out@.len() ==> (out@[x].0 as int) * 4 + out@[x].1 < (t as int) * 4
                            + d,
                decreases 4 - d,
            {
                if self.items.has_team_villain(t) && self.checked_locations.has_unchecked_team_villain(
                    t,
                    d,
                ) {
                    out.push((t, d));
                }
                d = d + 1;
            }
            t = t + 1;
        }
        out
    }

    fn available_variants(&self) -> (out: Vec<u16>)
        requires
            self.wf(),
        ensures
            forall|i: int|
                0 <= i < out@.len() ==> self.spec_variant_available(#[trigger] out@[i]),
            forall|v: u16| self.spec_variant_available(v) ==> out@.contains(v),
            forall|x: int, y: int| 0 <= x < y < out@.len() ==> out@[x] < out@[y],
    {
        let mut out: Vec<u16> = Vec::new();
        let mut v: u16 = 0;
        while v < TRACKED_VARIANT_COUNT
            invariant
                self.wf(),
                v <= TRACKED_VARIANT_COUNT,
                forall|i: int|
                    0 <= i < out@.len() ==> self.spec_variant_available(#[trigger] out@[i]),
                forall|v2: u16| v2 < v && self.spec_variant_available(v2) ==> out@.contains(v2),
                forall|x: int, y: int| 0 <= x < y < out@.len() ==> out@[x] < out@[y],
                forall|x: int| 0 <= x < out@.len() ==> out@[x] < v,
            decreases TRACKED_VARIANT_COUNT as int - v,
        {
            if self.checked_locations.has_unchecked_variant(v) && can_unlock(v, &self.items) {
                out.push(v);
            }
            proof {
                assert forall|v2: u16|
                    v2 >= TRACKED_VARIANT_COUNT implies !self.spec_variant_available(v2) by {}
            }
            v = v + 1;
        }
        out
    }

    fn available_environments(&self) -> (out: Vec<u8>)
        requires
            self.wf(),
        ensures
            forall|i: int|
                0 <= i < out@.len() ==> self.spec_environment_available(#[trigger] out@[i]),
            forall|e: u8| self.spec_environment_available(e) ==> out@.contains(e),
            forall|x: int, y: int| 0 <= x < y < out@.len() ==> out@[x] < out@[y],
    {
        let mut out: Vec<u8> = Vec::new();
        let mut e: u8 = 0;
        while e < ENVIRONMENT_COUNT
            invariant
                self.wf(),
                e <= ENVIRONMENT_COUNT,
                forall|i: int|
                    0 <= i < out@.len() ==> self.spec_environment_available(#[trigger] out@[i]),
                forall|e2: u8| e2 < e && self.spec_environment_available(e2) ==> out@.contains(e2),
                forall|x: int, y: int| 0 <= x < y < out@.len() ==> out@[x] < out@[y],
                forall|x: int| 0 <= x < out@.len() ==> out@[x] < e,
            decreases ENVIRONMENT_COUNT as int - e,
        {
            if self.items.has_environment(e) && self.checked_locations.has_unchecked_environment(
                e,
            ) {
                out.push(e);
            }
            e = e + 1;
        }
        out
    }
}

} // verus!
