//! Items and locations as the state engine sees them: registry ordinals
//! tagged with their category.

use vstd::prelude::*;

use crate::filler::Filler;
use crate::registry::{
    ENVIRONMENT_COUNT, HERO_COUNT, TEAM_VILLAIN_COUNT, VARIANT_COUNT, VILLAIN_COUNT,
};

verus! {

/// One inbound item, already resolved to its registry ordinal.
#[derive(Debug, Clone, Copy, PartialEq, Eq, Structural)]
pub enum Item {
    Hero(u8),
    Variant(u16),
    Villain(u8),
    TeamVillain(u8),
    Environment(u8),
    Scion,
    Filler(Filler),
}

impl Item {
    /// The carried ordinal lies inside its category's table.
    pub open spec fn wf(self) -> bool {
        match self {
            Item::Hero(h) => h < HERO_COUNT,
            Item::Variant(v) => 0 < v < VARIANT_COUNT,
            Item::Villain(v) => v < VILLAIN_COUNT,
            Item::TeamVillain(t) => t < TEAM_VILLAIN_COUNT,
            Item::Environment(e) => e < ENVIRONMENT_COUNT,
            Item::Scion => true,
            Item::Filler(_) => true,
        }
    }
}

/// One checkable objective, already resolved to its registry ordinal.
/// Villain and team-villain objectives carry a difficulty tier 0..=3.
#[derive(Debug, Clone, Copy, PartialEq, Eq, Structural)]
pub enum Location {
    Variant(u16),
    Villain(u8, u8),
    TeamVillain(u8, u8),
    Environment(u8),
    Victory,
}

impl Location {
    /// The carried ordinal lies inside its category's table and the
    /// difficulty tier is one of the four.
    pub open spec fn wf(self) -> bool {
        match self {
            Location::Variant(v) => 0 < v < VARIANT_COUNT,
            Location::Villain(v, d) => v < VILLAIN_COUNT && d < 4,
            Location::TeamVillain(t, d) => t < TEAM_VILLAIN_COUNT && d < 4,
            Location::Environment(e) => e < ENVIRONMENT_COUNT,
            Location::Victory => true,
        }
    }
}

} // verus!
