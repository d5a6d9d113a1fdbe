//! The unlock-dependency table: one requirement expression per tracked
//! variant, built once per query and evaluated by the interpreter in `expr`.
//! A tracked variant with no entry here can never be unlocked.

use vstd::prelude::*;

use crate::expr::{eval, Cond, Expr};
use crate::items::Items;
use crate::registry::{
    ENV_DOK_THORATH_CAPITAL, ENV_FREEDOM_TOWER, ENV_INSULA_PRIMALIS, ENV_MAGMARIA, 
    ENV_MEGALOPOLIS, ENV_NEXUS_OF_THE_VOID, ENV_OMNITRON_IV, ENV_PIKE_INDUSTRIAL_COMPLEX, 
    ENV_REALM_OF_DISCORD, ENV_ROOK_CITY, ENV_SILVER_GULCH_1883, ENV_THE_BLOCK, 
    ENV_THE_COURT_OF_BLOOD, ENV_THE_ENCLAVE_OF_THE_ENDLINGS, ENV_THE_FINAL_WASTELAND, 
    ENV_TIME_CATACLYSM, ENV_TOMB_OF_ANUBIS, ENV_WAGNER_MARS_BASE, HERO_ABSOLUTE_ZERO, 
    HERO_AKASH_THRIYA, HERO_ARGENT_ADEPT, HERO_BENCHMARK, HERO_BUNKER, HERO_CAPTAIN_COSMIC, 
    HERO_CHRONO_RANGER, HERO_DOCTOR_MEDICO, HERO_EXPATRIETTE, HERO_FANATIC, HERO_GUISE, 
    HERO_HAKA, HERO_KNYFE, HERO_LA_COMODORA, HERO_LEGACY, HERO_LIFELINE, HERO_LUMINARY, 
    HERO_MAINSTAY, HERO_MISTER_FIXER, HERO_NIGHTMIST, HERO_OMNITRON_X, HERO_PARSE, HERO_RA, 
    HERO_SETBACK, HERO_SKY_SCRAPER, HERO_TACHYON, HERO_TEMPEST, HERO_THE_HARPY, 
    HERO_THE_IDEALIST, HERO_THE_NATURALIST, HERO_THE_SCHOLAR, HERO_THE_SENTINELS, HERO_UNITY, 
    HERO_VISIONARY, HERO_WRAITH, HERO_WRITHE, TEAM_AMBUSCADE, TEAM_BARON_BLADE, TEAM_FRICTION, 
    TEAM_FRIGHT_TRAIN, TEAM_PLAGUE_RAT, VAR_ACTION_HERO_STUNTMAN, 
    VAR_AKASH_THRIYA_SPIRIT_OF_THE_VOID, VAR_AMERICAS_GREATEST_LEGACY, 
    VAR_AMERICAS_NEWEST_LEGACY, VAR_BENCHMARK_SUPPLY_AND_DEMAND, VAR_CAPTAIN_COSMIC_REQUITAL, 
    VAR_CHRONO_RANGER_THE_BEST_OF_TIMES, VAR_COSMIC_INVENTOR_WRITHE, 
    VAR_DARK_CONDUCTOR_ARGENT_ADEPT, VAR_DARK_VISIONARY, VAR_DARK_WATCH_EXPATRIETTE, 
    VAR_DARK_WATCH_HARPY, VAR_DARK_WATCH_MISTER_FIXER, VAR_DARK_WATCH_NIGHTMIST, 
    VAR_DARK_WATCH_SETBACK, VAR_DR_MEDICO_MALPRACTICE, VAR_EXTREMIST_SKY_SCRAPER, 
    VAR_FREEDOM_FIVE_ABSOLUTE_ZERO, VAR_FREEDOM_FIVE_BUNKER, VAR_FREEDOM_FIVE_LEGACY, 
    VAR_FREEDOM_FIVE_TACHYON, VAR_FREEDOM_FIVE_WRAITH, VAR_FREEDOM_SIX_ABSOLUTE_ZERO, 
    VAR_FREEDOM_SIX_BUNKER, VAR_FREEDOM_SIX_TACHYON, VAR_FREEDOM_SIX_TEMPEST, 
    VAR_FREEDOM_SIX_UNITY, VAR_FREEDOM_SIX_WRAITH, VAR_GI_BUNKER, VAR_HEROIC_INFINITOR, 
    VAR_HEROIC_LUMINARY, VAR_KNYFE_ROGUE_AGENT, VAR_LA_COMODORA_CURSE_OF_THE_BLACK_SPOT, 
    VAR_LIFELINE_BLOOD_MAGE, VAR_MAD_BOMBER_BARON_BLADE, VAR_OMNITRON_II, VAR_OMNITRON_U, 
    VAR_PARSE_FUGUE_STATE, VAR_PRIME_WARDENS_ARGENT_ADEPT, VAR_PRIME_WARDENS_CAPTAIN_COSMIC, 
    VAR_PRIME_WARDENS_FANATIC, VAR_PRIME_WARDENS_HAKA, VAR_PRIME_WARDENS_TEMPEST, 
    VAR_RA_HORUS_OF_TWO_HORIZONS, VAR_RA_SETTING_SUN, VAR_REDEEMER_FANATIC, 
    VAR_ROAD_WARRIOR_MAINSTAY, VAR_ROOK_CITY_WRAITH, VAR_SANTA_GUISE, 
    VAR_SKINWALKER_GLOOMWEAVER, VAR_SPITE_AGENT_OF_GLOOM, VAR_SUPER_SENTAI_IDEALIST, 
    VAR_TERMI_NATION_ABSOLUTE_ZERO, VAR_TERMI_NATION_BUNKER, VAR_TERMI_NATION_UNITY, 
    VAR_THE_ADAMANT_SENTINELS, VAR_THE_ETERNAL_HAKA, VAR_THE_HUNTED_NATURALIST, 
    VAR_THE_SCHOLAR_OF_THE_INFINITE, VAR_THE_SUPER_SCIENTIFIC_TACHYON, 
    VAR_THE_VISIONARY_UNLEASHED, VAR_TRICKSTER_KISMET, VAR_XTREME_PRIME_WARDENS_ARGENT_ADEPT, 
    VAR_XTREME_PRIME_WARDENS_CAPTAIN_COSMIC, VAR_XTREME_PRIME_WARDENS_FANATIC, 
    VAR_XTREME_PRIME_WARDENS_HAKA, VAR_XTREME_PRIME_WARDENS_TEMPEST, VILLAIN_AKASH_BHUTA, 
    VILLAIN_AMBUSCADE, VILLAIN_APOSTATE, VILLAIN_BARON_BLADE, VILLAIN_CITIZEN_DAWN, 
    VILLAIN_GLOOMWEAVER, VILLAIN_GRAND_WARLORD_VOSS, VILLAIN_HEROIC_INFINITOR, 
    VILLAIN_INFINITOR, VILLAIN_IRON_LEGACY, VILLAIN_KISMET, VILLAIN_MAD_BOMBER_BARON_BLADE, 
    VILLAIN_OMNITRON, VILLAIN_OMNITRON_II, VILLAIN_PROGENY, VILLAIN_SKINWALKER_GLOOMWEAVER, 
    VILLAIN_SPITE, VILLAIN_SPITE_AGENT_OF_GLOOM, VILLAIN_THE_CHAIRMAN, VILLAIN_THE_ENNEAD,
};

verus! {

pub open spec fn s_villain(v: u8) -> Expr {
    Expr::Cond(Cond::Villain(v))
}

pub open spec fn s_team_villain(t: u8) -> Expr {
    Expr::Cond(Cond::TeamVillain(t))
}

pub open spec fn s_hero(h: u8) -> Expr {
    Expr::Cond(Cond::Hero(h))
}

pub open spec fn s_base_hero(h: u8) -> Expr {
    Expr::Cond(Cond::BaseHero(h))
}

pub open spec fn s_hero_variant(v: u16) -> Expr {
    Expr::Cond(Cond::HeroVariant(v))
}

pub open spec fn s_environment(e: u8) -> Expr {
    Expr::Cond(Cond::Environment(e))
}

pub open spec fn s_team_villains_at_least(n: u8) -> Expr {
    Expr::Cond(Cond::TeamVillainsAtLeast(n))
}

fn e_villain(v: u8) -> (r: Expr)
    ensures
        r == s_villain(v),
{
    Expr::Cond(Cond::Villain(v))
}

fn e_team_villain(t: u8) -> (r: Expr)
    ensures
        r == s_team_villain(t),
{
    Expr::Cond(Cond::TeamVillain(t))
}

fn e_hero(h: u8) -> (r: Expr)
    ensures
        r == s_hero(h),
{
    Expr::Cond(Cond::Hero(h))
}

fn e_base_hero(h: u8) -> (r: Expr)
    ensures
        r == s_base_hero(h),
{
    Expr::Cond(Cond::BaseHero(h))
}

fn e_hero_variant(v: u16) -> (r: Expr)
    ensures
        r == s_hero_variant(v),
{
    Expr::Cond(Cond::HeroVariant(v))
}

fn e_environment(e: u8) -> (r: Expr)
    ensures
        r == s_environment(e),
{
    Expr::Cond(Cond::Environment(e))
}

fn e_team_villains_at_least(n: u8) -> (r: Expr)
    ensures
        r == s_team_villains_at_least(n),
{
    Expr::Cond(Cond::TeamVillainsAtLeast(n))
}

pub open spec fn s_and(a: Expr, b: Expr) -> Expr {
    Expr::And(Box::new(a), Box::new(b))
}

pub open spec fn s_or(a: Expr, b: Expr) -> Expr {
    Expr::Or(Box::new(a), Box::new(b))
}

fn e_and(a: Expr, b: Expr) -> (r: Expr)
    ensures
        r == s_and(a, b),
{
    Expr::And(Box::new(a), Box::new(b))
}

fn e_or(a: Expr, b: Expr) -> (r: Expr)
    ensures
        r == s_or(a, b),
{
    Expr::Or(Box::new(a), Box::new(b))
}

/// Any version of the recurring arch-nemesis counts for requirements that
/// only ask for him at all.
pub open spec fn spec_any_baron_blade_requirement() -> Expr {
    s_or(s_villain(VILLAIN_BARON_BLADE), s_villain(VILLAIN_MAD_BOMBER_BARON_BLADE))
}

fn any_baron_blade_requirement() -> (r: Expr)
    ensures
        r == spec_any_baron_blade_requirement(),
{
    e_or(e_villain(VILLAIN_BARON_BLADE), e_villain(VILLAIN_MAD_BOMBER_BARON_BLADE))
}

/// The shared requirement of the five team-ending variants: the full
/// roster of prerequisite variants plus the five base heroes.
pub open spec fn spec_freedom_five_requirement() -> Expr {
    s_and(s_villain(VILLAIN_PROGENY), s_and(s_environment(ENV_ROOK_CITY), s_and(s_environment(ENV_MEGALOPOLIS), s_and(s_hero_variant(VAR_PRIME_WARDENS_ARGENT_ADEPT), s_and(s_hero_variant(VAR_PRIME_WARDENS_CAPTAIN_COSMIC), s_and(s_hero_variant(VAR_PRIME_WARDENS_FANATIC), s_and(s_hero_variant(VAR_PRIME_WARDENS_HAKA), s_and(s_hero_variant(VAR_PRIME_WARDENS_TEMPEST), s_and(s_hero_variant(VAR_DARK_WATCH_EXPATRIETTE), s_and(s_hero_variant(VAR_DARK_WATCH_MISTER_FIXER), s_and(s_hero_variant(VAR_DARK_WATCH_NIGHTMIST), s_and(s_hero_variant(VAR_DARK_WATCH_SETBACK), s_and(s_hero_variant(VAR_DARK_WATCH_HARPY), s_and(s_base_hero(HERO_LEGACY), s_and(s_base_hero(HERO_BUNKER), s_and(s_base_hero(HERO_ABSOLUTE_ZERO), s_and(s_base_hero(HERO_TACHYON), s_base_hero(HERO_WRAITH))))))))))))))))))
}

fn freedom_five_requirement() -> (r: Expr)
    ensures
        r == spec_freedom_five_requirement(),
{
    e_and(e_villain(VILLAIN_PROGENY), e_and(e_environment(ENV_ROOK_CITY), e_and(e_environment(ENV_MEGALOPOLIS), e_and(e_hero_variant(VAR_PRIME_WARDENS_ARGENT_ADEPT), e_and(e_hero_variant(VAR_PRIME_WARDENS_CAPTAIN_COSMIC), e_and(e_hero_variant(VAR_PRIME_WARDENS_FANATIC), e_and(e_hero_variant(VAR_PRIME_WARDENS_HAKA), e_and(e_hero_variant(VAR_PRIME_WARDENS_TEMPEST), e_and(e_hero_variant(VAR_DARK_WATCH_EXPATRIETTE), e_and(e_hero_variant(VAR_DARK_WATCH_MISTER_FIXER), e_and(e_hero_variant(VAR_DARK_WATCH_NIGHTMIST), e_and(e_hero_variant(VAR_DARK_WATCH_SETBACK), e_and(e_hero_variant(VAR_DARK_WATCH_HARPY), e_and(e_base_hero(HERO_LEGACY), e_and(e_base_hero(HERO_BUNKER), e_and(e_base_hero(HERO_ABSOLUTE_ZERO), e_and(e_base_hero(HERO_TACHYON), e_base_hero(HERO_WRAITH))))))))))))))))))
}

/// The unlock requirement of each variant: the table the availability
/// resolver consults. Variants without an entry cannot be unlocked.
pub open spec fn spec_unlock_requirement(variant: u16) -> Expr {
    match variant {
        VAR_AMERICAS_GREATEST_LEGACY => s_and(s_villain(VILLAIN_AMBUSCADE), s_environment(ENV_SILVER_GULCH_1883)),
        VAR_AMERICAS_NEWEST_LEGACY => s_and(spec_any_baron_blade_requirement(), s_and(s_hero(HERO_LEGACY), s_environment(ENV_WAGNER_MARS_BASE))),
        VAR_DARK_VISIONARY => s_and(s_villain(VILLAIN_GLOOMWEAVER), s_hero(HERO_VISIONARY)),
        VAR_THE_ETERNAL_HAKA => s_and(s_hero(HERO_HAKA), s_environment(ENV_THE_FINAL_WASTELAND)),
        VAR_GI_BUNKER => s_hero(HERO_BUNKER),
        VAR_RA_HORUS_OF_TWO_HORIZONS => s_and(s_villain(VILLAIN_THE_ENNEAD), s_hero(HERO_RA)),
        VAR_RA_SETTING_SUN => s_and(s_villain(VILLAIN_THE_ENNEAD), s_and(s_hero_variant(VAR_RA_HORUS_OF_TWO_HORIZONS), s_environment(ENV_TOMB_OF_ANUBIS))),
        VAR_REDEEMER_FANATIC => s_and(s_villain(VILLAIN_APOSTATE), s_hero(HERO_FANATIC)),
        VAR_ROOK_CITY_WRAITH => s_hero(HERO_WRAITH),
        VAR_THE_SUPER_SCIENTIFIC_TACHYON => s_hero(HERO_TACHYON),
        VAR_THE_VISIONARY_UNLEASHED => s_and(s_environment(ENV_THE_ENCLAVE_OF_THE_ENDLINGS), s_and(s_base_hero(HERO_ARGENT_ADEPT), s_hero_variant(VAR_DARK_VISIONARY))),
        VAR_CAPTAIN_COSMIC_REQUITAL => s_and(s_or(s_villain(VILLAIN_INFINITOR), s_villain(VILLAIN_HEROIC_INFINITOR)), s_base_hero(HERO_CAPTAIN_COSMIC)),
        VAR_CHRONO_RANGER_THE_BEST_OF_TIMES => s_and(s_villain(VILLAIN_AMBUSCADE), s_and(s_environment(ENV_WAGNER_MARS_BASE), s_and(s_hero(HERO_TACHYON), s_hero(HERO_CHRONO_RANGER)))),
        VAR_DARK_CONDUCTOR_ARGENT_ADEPT => s_hero(HERO_ARGENT_ADEPT),
        VAR_EXTREMIST_SKY_SCRAPER => s_and(spec_any_baron_blade_requirement(), s_base_hero(HERO_SKY_SCRAPER)),
        VAR_OMNITRON_U => s_and(s_villain(VILLAIN_OMNITRON), s_and(s_villain(VILLAIN_OMNITRON_II), s_and(s_base_hero(HERO_OMNITRON_X), s_hero(HERO_UNITY)))),
        VAR_SANTA_GUISE => s_hero(HERO_GUISE),
        VAR_THE_SCHOLAR_OF_THE_INFINITE => s_and(s_or(s_villain(VILLAIN_GLOOMWEAVER), s_or(s_villain(VILLAIN_SKINWALKER_GLOOMWEAVER), s_villain(VILLAIN_APOSTATE))), s_hero(HERO_THE_SCHOLAR)),
        VAR_ACTION_HERO_STUNTMAN => s_and(s_villain(VILLAIN_AMBUSCADE), s_and(s_villain(VILLAIN_THE_CHAIRMAN), s_and(s_team_villain(TEAM_AMBUSCADE), s_and(s_team_villains_at_least(3), s_and(s_environment(ENV_PIKE_INDUSTRIAL_COMPLEX), s_hero(HERO_THE_SENTINELS)))))),
        VAR_AKASH_THRIYA_SPIRIT_OF_THE_VOID => s_and(s_environment(ENV_NEXUS_OF_THE_VOID), s_hero(HERO_AKASH_THRIYA)),
        VAR_BENCHMARK_SUPPLY_AND_DEMAND => s_and(s_team_villain(TEAM_AMBUSCADE), s_and(s_team_villain(TEAM_BARON_BLADE), s_and(s_team_villain(TEAM_FRICTION), s_and(s_team_villain(TEAM_FRIGHT_TRAIN), s_and(s_team_villain(TEAM_PLAGUE_RAT), s_and(s_hero(HERO_BENCHMARK), s_and(s_hero(HERO_EXPATRIETTE), s_and(s_hero(HERO_LUMINARY), s_and(s_hero(HERO_PARSE), s_hero(HERO_SETBACK)))))))))),
        VAR_HEROIC_LUMINARY => s_and(spec_any_baron_blade_requirement(), s_and(s_environment(ENV_REALM_OF_DISCORD), s_and(s_environment(ENV_FREEDOM_TOWER), s_and(s_environment(ENV_MEGALOPOLIS), s_and(s_hero(HERO_LUMINARY), s_and(s_hero(HERO_LEGACY), s_and(s_hero(HERO_BUNKER), s_and(s_hero(HERO_ABSOLUTE_ZERO), s_and(s_hero(HERO_TACHYON), s_hero(HERO_WRAITH)))))))))),
        VAR_KNYFE_ROGUE_AGENT => s_and(s_base_hero(HERO_KNYFE), s_environment(ENV_THE_BLOCK)),
        VAR_LA_COMODORA_CURSE_OF_THE_BLACK_SPOT => s_and(s_hero(HERO_LA_COMODORA), s_environment(ENV_TIME_CATACLYSM)),
        VAR_LIFELINE_BLOOD_MAGE => s_and(s_hero(HERO_LIFELINE), s_environment(ENV_THE_COURT_OF_BLOOD)),
        VAR_PARSE_FUGUE_STATE => s_and(s_base_hero(HERO_PARSE), s_villain(VILLAIN_PROGENY)),
        VAR_THE_ADAMANT_SENTINELS => s_base_hero(HERO_THE_SENTINELS),
        VAR_THE_HUNTED_NATURALIST => s_base_hero(HERO_THE_NATURALIST),
        VAR_TERMI_NATION_BUNKER => s_and(s_villain(VILLAIN_OMNITRON), s_and(s_villain(VILLAIN_OMNITRON_II), s_and(s_environment(ENV_OMNITRON_IV), s_base_hero(HERO_BUNKER)))),
        VAR_TERMI_NATION_ABSOLUTE_ZERO => s_base_hero(HERO_ABSOLUTE_ZERO),
        VAR_TERMI_NATION_UNITY => s_base_hero(HERO_UNITY),
        VAR_FREEDOM_SIX_ABSOLUTE_ZERO => s_and(s_villain(VILLAIN_IRON_LEGACY), s_base_hero(HERO_ABSOLUTE_ZERO)),
        VAR_FREEDOM_SIX_BUNKER => s_and(s_villain(VILLAIN_IRON_LEGACY), s_base_hero(HERO_BUNKER)),
        VAR_FREEDOM_SIX_TACHYON => s_and(s_villain(VILLAIN_IRON_LEGACY), s_base_hero(HERO_TACHYON)),
        VAR_FREEDOM_SIX_TEMPEST => s_and(s_villain(VILLAIN_IRON_LEGACY), s_base_hero(HERO_TEMPEST)),
        VAR_FREEDOM_SIX_WRAITH => s_and(s_villain(VILLAIN_IRON_LEGACY), s_and(s_base_hero(HERO_WRAITH), s_villain(VILLAIN_THE_CHAIRMAN))),
        VAR_FREEDOM_SIX_UNITY => s_and(s_villain(VILLAIN_IRON_LEGACY), s_base_hero(HERO_UNITY)),
        VAR_DARK_WATCH_EXPATRIETTE => s_and(spec_any_baron_blade_requirement(), s_and(s_environment(ENV_ROOK_CITY), s_hero(HERO_EXPATRIETTE))),
        VAR_DARK_WATCH_MISTER_FIXER => s_and(s_villain(VILLAIN_THE_CHAIRMAN), s_hero(HERO_MISTER_FIXER)),
        VAR_DARK_WATCH_NIGHTMIST => s_and(s_hero(HERO_NIGHTMIST), s_and(s_environment(ENV_REALM_OF_DISCORD), s_hero(HERO_EXPATRIETTE))),
        VAR_DARK_WATCH_SETBACK => s_and(s_villain(VILLAIN_THE_CHAIRMAN), s_and(s_environment(ENV_ROOK_CITY), s_and(s_hero_variant(VAR_DARK_WATCH_EXPATRIETTE), s_and(s_hero_variant(VAR_DARK_WATCH_MISTER_FIXER), s_and(s_hero_variant(VAR_DARK_WATCH_NIGHTMIST), s_base_hero(HERO_SETBACK)))))),
        VAR_DARK_WATCH_HARPY => s_and(s_or(s_villain(VILLAIN_GLOOMWEAVER), s_villain(VILLAIN_SKINWALKER_GLOOMWEAVER)), s_and(s_hero(HERO_THE_HARPY), s_environment(ENV_REALM_OF_DISCORD))),
        VAR_PRIME_WARDENS_ARGENT_ADEPT => s_and(s_villain(VILLAIN_AKASH_BHUTA), s_and(s_base_hero(HERO_ARGENT_ADEPT), s_and(s_base_hero(HERO_CAPTAIN_COSMIC), s_and(s_base_hero(HERO_HAKA), s_and(s_base_hero(HERO_TEMPEST), s_hero_variant(VAR_REDEEMER_FANATIC)))))),
        VAR_PRIME_WARDENS_CAPTAIN_COSMIC => s_and(s_hero_variant(VAR_PRIME_WARDENS_ARGENT_ADEPT), s_and(s_base_hero(HERO_CAPTAIN_COSMIC), s_environment(ENV_DOK_THORATH_CAPITAL))),
        VAR_PRIME_WARDENS_FANATIC => s_and(s_hero_variant(VAR_PRIME_WARDENS_ARGENT_ADEPT), s_and(s_or(s_base_hero(HERO_FANATIC), s_hero_variant(VAR_REDEEMER_FANATIC)), s_villain(VILLAIN_APOSTATE))),
        VAR_PRIME_WARDENS_HAKA => s_and(s_hero_variant(VAR_PRIME_WARDENS_ARGENT_ADEPT), s_and(s_base_hero(HERO_HAKA), s_villain(VILLAIN_AMBUSCADE))),
        VAR_PRIME_WARDENS_TEMPEST => s_and(s_hero_variant(VAR_PRIME_WARDENS_ARGENT_ADEPT), s_base_hero(HERO_TEMPEST)),
        VAR_XTREME_PRIME_WARDENS_ARGENT_ADEPT => s_and(s_base_hero(HERO_ARGENT_ADEPT), s_environment(ENV_INSULA_PRIMALIS)),
        VAR_XTREME_PRIME_WARDENS_TEMPEST => s_and(s_base_hero(HERO_TEMPEST), s_environment(ENV_THE_ENCLAVE_OF_THE_ENDLINGS)),
        VAR_XTREME_PRIME_WARDENS_CAPTAIN_COSMIC => s_and(s_base_hero(HERO_CAPTAIN_COSMIC), s_environment(ENV_DOK_THORATH_CAPITAL)),
        VAR_XTREME_PRIME_WARDENS_FANATIC => s_and(s_base_hero(HERO_FANATIC), s_environment(ENV_THE_COURT_OF_BLOOD)),
        VAR_XTREME_PRIME_WARDENS_HAKA => s_and(s_base_hero(HERO_HAKA), s_environment(ENV_MAGMARIA)),
        VAR_FREEDOM_FIVE_ABSOLUTE_ZERO => spec_freedom_five_requirement(),
        VAR_FREEDOM_FIVE_BUNKER => spec_freedom_five_requirement(),
        VAR_FREEDOM_FIVE_WRAITH => spec_freedom_five_requirement(),
        VAR_FREEDOM_FIVE_TACHYON => spec_freedom_five_requirement(),
        VAR_FREEDOM_FIVE_LEGACY => spec_freedom_five_requirement(),
        VAR_SUPER_SENTAI_IDEALIST => s_hero(HERO_THE_IDEALIST),
        VAR_DR_MEDICO_MALPRACTICE => s_and(s_hero(HERO_DOCTOR_MEDICO), s_and(s_team_villain(TEAM_AMBUSCADE), s_team_villains_at_least(3))),
        VAR_COSMIC_INVENTOR_WRITHE => s_hero(HERO_WRITHE),
        VAR_ROAD_WARRIOR_MAINSTAY => s_hero(HERO_MAINSTAY),
        VAR_MAD_BOMBER_BARON_BLADE => s_and(s_villain(VILLAIN_BARON_BLADE), s_villain(VILLAIN_CITIZEN_DAWN)),
        VAR_OMNITRON_II => s_and(s_villain(VILLAIN_OMNITRON), s_villain(VILLAIN_GRAND_WARLORD_VOSS)),
        VAR_SPITE_AGENT_OF_GLOOM => s_and(s_villain(VILLAIN_SPITE), s_villain(VILLAIN_GLOOMWEAVER)),
        VAR_SKINWALKER_GLOOMWEAVER => s_and(s_villain(VILLAIN_SPITE), s_and(s_villain(VILLAIN_GLOOMWEAVER), s_and(s_villain(VILLAIN_SPITE_AGENT_OF_GLOOM), s_environment(ENV_ROOK_CITY)))),
        VAR_TRICKSTER_KISMET => s_and(s_villain(VILLAIN_KISMET), s_and(s_environment(ENV_THE_BLOCK), s_and(s_hero(HERO_KNYFE), s_and(s_hero(HERO_ARGENT_ADEPT), s_hero(HERO_FANATIC))))),
        VAR_HEROIC_INFINITOR => s_and(s_or(s_villain(VILLAIN_INFINITOR), s_villain(VILLAIN_HEROIC_INFINITOR)), s_hero(HERO_CAPTAIN_COSMIC)),
        _ => Expr::Const(false),
    }
}

/// Builds the requirement expression of one variant from the table.
pub fn unlock_requirement(variant: u16) -> (r: Expr)
    ensures
        r == spec_unlock_requirement(variant),
{
    match variant {
        VAR_AMERICAS_GREATEST_LEGACY => e_and(e_villain(VILLAIN_AMBUSCADE), e_environment(ENV_SILVER_GULCH_1883)),
        VAR_AMERICAS_NEWEST_LEGACY => e_and(any_baron_blade_requirement(), e_and(e_hero(HERO_LEGACY), e_environment(ENV_WAGNER_MARS_BASE))),
        VAR_DARK_VISIONARY => e_and(e_villain(VILLAIN_GLOOMWEAVER), e_hero(HERO_VISIONARY)),
        VAR_THE_ETERNAL_HAKA => e_and(e_hero(HERO_HAKA), e_environment(ENV_THE_FINAL_WASTELAND)),
        VAR_GI_BUNKER => e_hero(HERO_BUNKER),
        VAR_RA_HORUS_OF_TWO_HORIZONS => e_and(e_villain(VILLAIN_THE_ENNEAD), e_hero(HERO_RA)),
        VAR_RA_SETTING_SUN => e_and(e_villain(VILLAIN_THE_ENNEAD), e_and(e_hero_variant(VAR_RA_HORUS_OF_TWO_HORIZONS), e_environment(ENV_TOMB_OF_ANUBIS))),
        VAR_REDEEMER_FANATIC => e_and(e_villain(VILLAIN_APOSTATE), e_hero(HERO_FANATIC)),
        VAR_ROOK_CITY_WRAITH => e_hero(HERO_WRAITH),
        VAR_THE_SUPER_SCIENTIFIC_TACHYON => e_hero(HERO_TACHYON),
        VAR_THE_VISIONARY_UNLEASHED => e_and(e_environment(ENV_THE_ENCLAVE_OF_THE_ENDLINGS), e_and(e_base_hero(HERO_ARGENT_ADEPT), e_hero_variant(VAR_DARK_VISIONARY))),
        VAR_CAPTAIN_COSMIC_REQUITAL => e_and(e_or(e_villain(VILLAIN_INFINITOR), e_villain(VILLAIN_HEROIC_INFINITOR)), e_base_hero(HERO_CAPTAIN_COSMIC)),
        VAR_CHRONO_RANGER_THE_BEST_OF_TIMES => e_and(e_villain(VILLAIN_AMBUSCADE), e_and(e_environment(ENV_WAGNER_MARS_BASE), e_and(e_hero(HERO_TACHYON), e_hero(HERO_CHRONO_RANGER)))),
        VAR_DARK_CONDUCTOR_ARGENT_ADEPT => e_hero(HERO_ARGENT_ADEPT),
        VAR_EXTREMIST_SKY_SCRAPER => e_and(any_baron_blade_requirement(), e_base_hero(HERO_SKY_SCRAPER)),
        VAR_OMNITRON_U => e_and(e_villain(VILLAIN_OMNITRON), e_and(e_villain(VILLAIN_OMNITRON_II), e_and(e_base_hero(HERO_OMNITRON_X), e_hero(HERO_UNITY)))),
        VAR_SANTA_GUISE => e_hero(HERO_GUISE),
        VAR_THE_SCHOLAR_OF_THE_INFINITE => e_and(e_or(e_villain(VILLAIN_GLOOMWEAVER), e_or(e_villain(VILLAIN_SKINWALKER_GLOOMWEAVER), e_villain(VILLAIN_APOSTATE))), e_hero(HERO_THE_SCHOLAR)),
        VAR_ACTION_HERO_STUNTMAN => e_and(e_villain(VILLAIN_AMBUSCADE), e_and(e_villain(VILLAIN_THE_CHAIRMAN), e_and(e_team_villain(TEAM_AMBUSCADE), e_and(e_team_villains_at_least(3), e_and(e_environment(ENV_PIKE_INDUSTRIAL_COMPLEX), e_hero(HERO_THE_SENTINELS)))))),
        VAR_AKASH_THRIYA_SPIRIT_OF_THE_VOID => e_and(e_environment(ENV_NEXUS_OF_THE_VOID), e_hero(HERO_AKASH_THRIYA)),
        VAR_BENCHMARK_SUPPLY_AND_DEMAND => e_and(e_team_villain(TEAM_AMBUSCADE), e_and(e_team_villain(TEAM_BARON_BLADE), e_and(e_team_villain(TEAM_FRICTION), e_and(e_team_villain(TEAM_FRIGHT_TRAIN), e_and(e_team_villain(TEAM_PLAGUE_RAT), e_and(e_hero(HERO_BENCHMARK), e_and(e_hero(HERO_EXPATRIETTE), e_and(e_hero(HERO_LUMINARY), e_and(e_hero(HERO_PARSE), e_hero(HERO_SETBACK)))))))))),
        VAR_HEROIC_LUMINARY => e_and(any_baron_blade_requirement(), e_and(e_environment(ENV_REALM_OF_DISCORD), e_and(e_environment(ENV_FREEDOM_TOWER), e_and(e_environment(ENV_MEGALOPOLIS), e_and(e_hero(HERO_LUMINARY), e_and(e_hero(HERO_LEGACY), e_and(e_hero(HERO_BUNKER), e_and(e_hero(HERO_ABSOLUTE_ZERO), e_and(e_hero(HERO_TACHYON), e_hero(HERO_WRAITH)))))))))),
        VAR_KNYFE_ROGUE_AGENT => e_and(e_base_hero(HERO_KNYFE), e_environment(ENV_THE_BLOCK)),
        VAR_LA_COMODORA_CURSE_OF_THE_BLACK_SPOT => e_and(e_hero(HERO_LA_COMODORA), e_environment(ENV_TIME_CATACLYSM)),
        VAR_LIFELINE_BLOOD_MAGE => e_and(e_hero(HERO_LIFELINE), e_environment(ENV_THE_COURT_OF_BLOOD)),
        VAR_PARSE_FUGUE_STATE => e_and(e_base_hero(HERO_PARSE), e_villain(VILLAIN_PROGENY)),
        VAR_THE_ADAMANT_SENTINELS => e_base_hero(HERO_THE_SENTINELS),
        VAR_THE_HUNTED_NATURALIST => e_base_hero(HERO_THE_NATURALIST),
        VAR_TERMI_NATION_BUNKER => e_and(e_villain(VILLAIN_OMNITRON), e_and(e_villain(VILLAIN_OMNITRON_II), e_and(e_environment(ENV_OMNITRON_IV), e_base_hero(HERO_BUNKER)))),
        VAR_TERMI_NATION_ABSOLUTE_ZERO => e_base_hero(HERO_ABSOLUTE_ZERO),
        VAR_TERMI_NATION_UNITY => e_base_hero(HERO_UNITY),
        VAR_FREEDOM_SIX_ABSOLUTE_ZERO => e_and(e_villain(VILLAIN_IRON_LEGACY), e_base_hero(HERO_ABSOLUTE_ZERO)),
        VAR_FREEDOM_SIX_BUNKER => e_and(e_villain(VILLAIN_IRON_LEGACY), e_base_hero(HERO_BUNKER)),
        VAR_FREEDOM_SIX_TACHYON => e_and(e_villain(VILLAIN_IRON_LEGACY), e_base_hero(HERO_TACHYON)),
        VAR_FREEDOM_SIX_TEMPEST => e_and(e_villain(VILLAIN_IRON_LEGACY), e_base_hero(HERO_TEMPEST)),
        VAR_FREEDOM_SIX_WRAITH => e_and(e_villain(VILLAIN_IRON_LEGACY), e_and(e_base_hero(HERO_WRAITH), e_villain(VILLAIN_THE_CHAIRMAN))),
        VAR_FREEDOM_SIX_UNITY => e_and(e_villain(VILLAIN_IRON_LEGACY), e_base_hero(HERO_UNITY)),
        VAR_DARK_WATCH_EXPATRIETTE => e_and(any_baron_blade_requirement(), e_and(e_environment(ENV_ROOK_CITY), e_hero(HERO_EXPATRIETTE))),
        VAR_DARK_WATCH_MISTER_FIXER => e_and(e_villain(VILLAIN_THE_CHAIRMAN), e_hero(HERO_MISTER_FIXER)),
        VAR_DARK_WATCH_NIGHTMIST => e_and(e_hero(HERO_NIGHTMIST), e_and(e_environment(ENV_REALM_OF_DISCORD), e_hero(HERO_EXPATRIETTE))),
        VAR_DARK_WATCH_SETBACK => e_and(e_villain(VILLAIN_THE_CHAIRMAN), e_and(e_environment(ENV_ROOK_CITY), e_and(e_hero_variant(VAR_DARK_WATCH_EXPATRIETTE), e_and(e_hero_variant(VAR_DARK_WATCH_MISTER_FIXER), e_and(e_hero_variant(VAR_DARK_WATCH_NIGHTMIST), e_base_hero(HERO_SETBACK)))))),
        VAR_DARK_WATCH_HARPY => e_and(e_or(e_villain(VILLAIN_GLOOMWEAVER), e_villain(VILLAIN_SKINWALKER_GLOOMWEAVER)), e_and(e_hero(HERO_THE_HARPY), e_environment(ENV_REALM_OF_DISCORD))),
        VAR_PRIME_WARDENS_ARGENT_ADEPT => e_and(e_villain(VILLAIN_AKASH_BHUTA), e_and(e_base_hero(HERO_ARGENT_ADEPT), e_and(e_base_hero(HERO_CAPTAIN_COSMIC), e_and(e_base_hero(HERO_HAKA), e_and(e_base_hero(HERO_TEMPEST), e_hero_variant(VAR_REDEEMER_FANATIC)))))),
        VAR_PRIME_WARDENS_CAPTAIN_COSMIC => e_and(e_hero_variant(VAR_PRIME_WARDENS_ARGENT_ADEPT), e_and(e_base_hero(HERO_CAPTAIN_COSMIC), e_environment(ENV_DOK_THORATH_CAPITAL))),
        VAR_PRIME_WARDENS_FANATIC => e_and(e_hero_variant(VAR_PRIME_WARDENS_ARGENT_ADEPT), e_and(e_or(e_base_hero(HERO_FANATIC), e_hero_variant(VAR_REDEEMER_FANATIC)), e_villain(VILLAIN_APOSTATE))),
        VAR_PRIME_WARDENS_HAKA => e_and(e_hero_variant(VAR_PRIME_WARDENS_ARGENT_ADEPT), e_and(e_base_hero(HERO_HAKA), e_villain(VILLAIN_AMBUSCADE))),
        VAR_PRIME_WARDENS_TEMPEST => e_and(e_hero_variant(VAR_PRIME_WARDENS_ARGENT_ADEPT), e_base_hero(HERO_TEMPEST)),
        VAR_XTREME_PRIME_WARDENS_ARGENT_ADEPT => e_and(e_base_hero(HERO_ARGENT_ADEPT), e_environment(ENV_INSULA_PRIMALIS)),
        VAR_XTREME_PRIME_WARDENS_TEMPEST => e_and(e_base_hero(HERO_TEMPEST), e_environment(ENV_THE_ENCLAVE_OF_THE_ENDLINGS)),
        VAR_XTREME_PRIME_WARDENS_CAPTAIN_COSMIC => e_and(e_base_hero(HERO_CAPTAIN_COSMIC), e_environment(ENV_DOK_THORATH_CAPITAL)),
        VAR_XTREME_PRIME_WARDENS_FANATIC => e_and(e_base_hero(HERO_FANATIC), e_environment(ENV_THE_COURT_OF_BLOOD)),
        VAR_XTREME_PRIME_WARDENS_HAKA => e_and(e_base_hero(HERO_HAKA), e_environment(ENV_MAGMARIA)),
        VAR_FREEDOM_FIVE_ABSOLUTE_ZERO => freedom_five_requirement(),
        VAR_FREEDOM_FIVE_BUNKER => freedom_five_requirement(),
        VAR_FREEDOM_FIVE_WRAITH => freedom_five_requirement(),
        VAR_FREEDOM_FIVE_TACHYON => freedom_five_requirement(),
        VAR_FREEDOM_FIVE_LEGACY => freedom_five_requirement(),
        VAR_SUPER_SENTAI_IDEALIST => e_hero(HERO_THE_IDEALIST),
        VAR_DR_MEDICO_MALPRACTICE => e_and(e_hero(HERO_DOCTOR_MEDICO), e_and(e_team_villain(TEAM_AMBUSCADE), e_team_villains_at_least(3))),
        VAR_COSMIC_INVENTOR_WRITHE => e_hero(HERO_WRITHE),
        VAR_ROAD_WARRIOR_MAINSTAY => e_hero(HERO_MAINSTAY),
        VAR_MAD_BOMBER_BARON_BLADE => e_and(e_villain(VILLAIN_BARON_BLADE), e_villain(VILLAIN_CITIZEN_DAWN)),
        VAR_OMNITRON_II => e_and(e_villain(VILLAIN_OMNITRON), e_villain(VILLAIN_GRAND_WARLORD_VOSS)),
        VAR_SPITE_AGENT_OF_GLOOM => e_and(e_villain(VILLAIN_SPITE), e_villain(VILLAIN_GLOOMWEAVER)),
        VAR_SKINWALKER_GLOOMWEAVER => e_and(e_villain(VILLAIN_SPITE), e_and(e_villain(VILLAIN_GLOOMWEAVER), e_and(e_villain(VILLAIN_SPITE_AGENT_OF_GLOOM), e_environment(ENV_ROOK_CITY)))),
        VAR_TRICKSTER_KISMET => e_and(e_villain(VILLAIN_KISMET), e_and(e_environment(ENV_THE_BLOCK), e_and(e_hero(HERO_KNYFE), e_and(e_hero(HERO_ARGENT_ADEPT), e_hero(HERO_FANATIC))))),
        VAR_HEROIC_INFINITOR => e_and(e_or(e_villain(VILLAIN_INFINITOR), e_villain(VILLAIN_HEROIC_INFINITOR)), e_hero(HERO_CAPTAIN_COSMIC)),
        _ => Expr::Const(false),
    }
}

/// Every expression in the table carries only in-range ordinals.
pub proof fn lemma_unlock_requirement_wf(variant: u16)
    ensures
        spec_unlock_requirement(variant).wf(),
{
    reveal_with_fuel(Expr::wf, 40);
}

/// Whether an inventory satisfies a variant's unlock requirement.
pub open spec fn spec_can_unlock(variant: u16, items: Items) -> bool {
    spec_unlock_requirement(variant).spec_eval(items)
}

/// Evaluate a variant's unlock requirement against the current inventory.
pub fn can_unlock(variant: u16, items: &Items) -> (r: bool)
    requires
        items.wf(),
    ensures
        r == spec_can_unlock(variant, *items),
{
    let e = unlock_requirement(variant);
    proof {
        lemma_unlock_requirement_wf(variant);
    }
    eval(&e, items)
}

/// Whether any version of the recurring arch-nemesis is owned.
pub fn any_baron_blade(items: &Items) -> (r: bool)
    requires
        items.wf(),
    ensures
        r == spec_any_baron_blade_requirement().spec_eval(*items),
{
    let e = any_baron_blade_requirement();
    proof {
        reveal_with_fuel(Expr::wf, 4);
    }
    eval(&e, items)
}

/// Whether the shared requirement of the five team-ending variants holds.
pub fn freedom_five_reqs(items: &Items) -> (r: bool)
    requires
        items.wf(),
    ensures
        r == spec_freedom_five_requirement().spec_eval(*items),
{
    let e = freedom_five_requirement();
    proof {
        reveal_with_fuel(Expr::wf, 40);
    }
    eval(&e, items)
}

} // verus!