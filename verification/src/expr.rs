//! Boolean requirement expressions over the owned-item state, evaluated by a
//! small interpreter. The unlock-dependency table maps each tracked variant
//! to one such expression, keeping the table data rather than control flow.

use vstd::prelude::*;

use crate::bits::popcount16;
use crate::items::Items;
use crate::registry::{ENVIRONMENT_COUNT, HERO_COUNT, TEAM_VILLAIN_COUNT, VILLAIN_COUNT};

verus! {

/// One primitive test against the owned-item state.
#[derive(Debug)]
pub enum Cond {
    /// The villain with this ordinal is owned.
    Villain(u8),
    /// The team villain with this ordinal is owned.
    TeamVillain(u8),
    /// Any version (base or variant) of the hero with this ordinal is owned.
    Hero(u8),
    /// The base version of the hero with this ordinal is owned.
    BaseHero(u8),
    /// The hero variant with this ordinal is owned.
    HeroVariant(u16),
    /// The environment with this ordinal is owned.
    Environment(u8),
    /// At least this many distinct team villains are owned.
    TeamVillainsAtLeast(u8),
}

/// A requirement over the owned-item state.
#[derive(Debug)]
pub enum Expr {
    Const(bool),
    Cond(Cond),
    And(Box<Expr>, Box<Expr>),
    Or(Box<Expr>, Box<Expr>),
}

impl Cond {
    /// The carried ordinal lies inside its category's table.
    pub open spec fn wf(self) -> bool {
        match self {
            Cond::Villain(v) => v < VILLAIN_COUNT,
            Cond::TeamVillain(t) => t < TEAM_VILLAIN_COUNT,
            Cond::Hero(h) => h < HERO_COUNT,
            Cond::BaseHero(h) => h < HERO_COUNT,
            Cond::HeroVariant(_) => true,
            Cond::Environment(e) => e < ENVIRONMENT_COUNT,
            Cond::TeamVillainsAtLeast(_) => true,
        }
    }

    /// What the primitive test means on an inventory.
    pub open spec fn spec_holds(self, items: Items) -> bool {
        match self {
            Cond::Villain(v) => items.spec_has_villain(v),
            Cond::TeamVillain(t) => items.spec_has_team_villain(t),
            Cond::Hero(h) => items.spec_has_hero(h),
            Cond::BaseHero(h) => items.spec_has_base_hero(h),
            Cond::HeroVariant(v) => items.spec_has_hero_variant(v),
            Cond::Environment(e) => items.spec_has_environment(e),
            Cond::TeamVillainsAtLeast(n) => popcount16(items.team_villains, 16) >= n,
        }
    }
}

impl Expr {
    /// Every primitive test in the expression is well formed.
    pub open spec fn wf(self) -> bool
        decreases self,
    {
        match self {
            Expr::Const(_) => true,
            Expr::Cond(c) => c.wf(),
            Expr::And(a, b) => a.wf() && b.wf(),
            Expr::Or(a, b) => a.wf() && b.wf(),
        }
    }

    /// What the expression means on an inventory.
    pub open spec fn spec_eval(self, items: Items) -> bool
        decreases self,
    {
        match self {
            Expr::Const(b) => b,
            Expr::Cond(c) => c.spec_holds(items),
            Expr::And(a, b) => a.spec_eval(items) && b.spec_eval(items),
            Expr::Or(a, b) => a.spec_eval(items) || b.spec_eval(items),
        }
    }
}

/// Evaluate one primitive test against an inventory.
pub fn eval_cond(cond: &Cond, items: &Items) -> (r: bool)
    requires
        items.wf(),
        cond.wf(),
    ensures
        r == cond.spec_holds(*items),
{
    match cond {
        Cond::Villain(v) => items.has_villain(*v),
        Cond::TeamVillain(t) => items.has_team_villain(*t),
        Cond::Hero(h) => items.has_hero(*h),
        Cond::BaseHero(h) => items.has_base_hero(*h),
        Cond::HeroVariant(v) => items.has_hero_variant(*v),
        Cond::Environment(e) => items.has_environment(*e),
        Cond::TeamVillainsAtLeast(n) => crate::bits::count_ones16(items.team_villains) >= *n as u32,
    }
}

/// Evaluate a requirement expression against an inventory.
pub fn eval(expr: &Expr, items: &Items) -> (r: bool)
    requires
        items.wf(),
        expr.wf(),
    ensures
        r == expr.spec_eval(*items),
    decreases *expr,
{
    match expr {
        Expr::Const(b) => *b,
        Expr::Cond(c) => eval_cond(c, items),
        Expr::And(a, b) => eval(a, items) && eval(b, items),
        Expr::Or(a, b) => eval(a, items) || eval(b, items),
    }
}

} // verus!
