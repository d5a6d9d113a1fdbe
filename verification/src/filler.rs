//! Filler items: rewards with no effect on unlock tracking. The session
//! counts them only so the presentation layer can describe them.

use vstd::prelude::*;

verus! {

/// A damage type qualifying some filler rewards.
#[derive(Debug, Clone, Copy, PartialEq, Eq, Structural)]
pub enum DamageType {
    All,
    Cold,
    Energy,
    Fire,
    Infernal,
    Lightning,
    Melee,
    Projectile,
    Psychic,
    Radiant,
    Sonic,
    Toxic,
}

/// One filler reward kind.
#[derive(Debug, Clone, Copy, PartialEq, Eq, Structural)]
pub enum Filler {
    Handsize,
    HeroHp,
    Mulligan,
    HeroDamageTaken(DamageType),
    HeroCardDraw,
    HeroBuffer,
    VillainHp,
    VillainTargetHp,
    HeroDamageDealt(DamageType),
    HeroCannotPlay,
    HeroCannotPower,
    HeroCannotDraw,
    HeroCannotDamage(DamageType),
}

/// Tally of filler rewards received this session. Filler never feeds back
/// into unlock or availability logic; recording one changes nothing here
/// yet, matching the state engine, which ignores filler items.
#[derive(Debug, Clone, Copy)]
pub struct ReceivedFiller {
    pub handsize: i32,
    pub hero_hp: i32,
    pub mulligan: i32,
    pub hero_card_draw: i32,
    pub hero_buffer: i32,
    pub villain_hp: i32,
    pub villain_target_hp: i32,
    pub hero_cannot_play: i32,
    pub hero_cannot_power: i32,
    pub hero_cannot_draw: i32,
}

impl ReceivedFiller {
    /// An empty tally.
    pub fn new() -> (r: ReceivedFiller)
        ensures
            r.handsize == 0,
            r.hero_hp == 0,
            r.mulligan == 0,
    {
        ReceivedFiller {
            handsize: 0,
            hero_hp: 0,
            mulligan: 0,
            hero_card_draw: 0,
            hero_buffer: 0,
            villain_hp: 0,
            villain_target_hp: 0,
            hero_cannot_play: 0,
            hero_cannot_power: 0,
            hero_cannot_draw: 0,
        }
    }

    /// Record a filler reward. Filler has no tracked effect on the session
    /// state, so the tally is left as it is.
    pub fn add(&mut self, filler: Filler)
        ensures
            *final(self) == *old(self),
    {
        let _ = filler;
    }
}

} // verus!
