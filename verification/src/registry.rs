//! The identifier registry's ordinal structure: dense ordinals for
//! villains, team villains, heroes, environments and hero variants, the
//! per-category cardinalities, and the variant-to-owning-hero table. Display
//! strings live with the presentation layer; the core works on ordinals
//! alone, and their stability is what keeps persisted state meaningful.

use vstd::prelude::*;

verus! {

/// Number of villain ordinals; the villain inventory bitmask uses one bit each.
pub const VILLAIN_COUNT: u8 = 53;

/// Number of team-villain ordinals.
pub const TEAM_VILLAIN_COUNT: u8 = 15;

/// Number of hero ordinals; the inventory keeps one byte per hero.
pub const HERO_COUNT: u8 = 59;

/// Number of environment ordinals.
pub const ENVIRONMENT_COUNT: u8 = 42;

/// Number of variant ordinals. Ordinal 0 stands for the base (non-variant)
/// version of a hero and is owned by no one.
pub const VARIANT_COUNT: u16 = 139;

/// Variants with an ordinal below this bound have an unlock objective and one
/// bit each in the checked-set bitfield; variants at or above it are items
/// only and are never tracked as locations.
pub const TRACKED_VARIANT_COUNT: u16 = 69;

pub const VILLAIN_BARON_BLADE: u8 = 0;
pub const VILLAIN_MAD_BOMBER_BARON_BLADE: u8 = 1;
pub const VILLAIN_CITIZEN_DAWN: u8 = 2;
pub const VILLAIN_GRAND_WARLORD_VOSS: u8 = 3;
pub const VILLAIN_OMNITRON: u8 = 4;
pub const VILLAIN_OMNITRON_II: u8 = 5;
pub const VILLAIN_AMBUSCADE: u8 = 6;
pub const VILLAIN_THE_CHAIRMAN: u8 = 7;
pub const VILLAIN_THE_MATRIARCH: u8 = 8;
pub const VILLAIN_PLAGUE_RAT: u8 = 9;
pub const VILLAIN_SPITE: u8 = 10;
pub const VILLAIN_SPITE_AGENT_OF_GLOOM: u8 = 11;
pub const VILLAIN_AKASH_BHUTA: u8 = 12;
pub const VILLAIN_APOSTATE: u8 = 13;
pub const VILLAIN_THE_ENNEAD: u8 = 14;
pub const VILLAIN_GLOOMWEAVER: u8 = 15;
pub const VILLAIN_SKINWALKER_GLOOMWEAVER: u8 = 16;
pub const VILLAIN_MISS_INFORMATION: u8 = 17;
pub const VILLAIN_LA_CAPITAN: u8 = 18;
pub const VILLAIN_THE_DREAMER: u8 = 19;
pub const VILLAIN_IRON_LEGACY: u8 = 20;
pub const VILLAIN_KISMET: u8 = 21;
pub const VILLAIN_TRICKSTER_KISMET: u8 = 22;
pub const VILLAIN_DEADLINE: u8 = 23;
pub const VILLAIN_INFINITOR: u8 = 24;
pub const VILLAIN_HEROIC_INFINITOR: u8 = 25;
pub const VILLAIN_KAARGRA_WARFANG: u8 = 26;
pub const VILLAIN_PROGENY: u8 = 27;
pub const VILLAIN_WAGER_MASTER: u8 = 28;
pub const VILLAIN_CHOKEPOINT: u8 = 29;
pub const VILLAIN_ANATHEMA: u8 = 30;
pub const VILLAIN_EVOLVED_ANATHEMA: u8 = 31;
pub const VILLAIN_CELADROCH: u8 = 32;
pub const VILLAIN_DENDRON: u8 = 33;
pub const VILLAIN_WINDCOLOR_DENDRON: u8 = 34;
pub const VILLAIN_DYNAMO: u8 = 35;
pub const VILLAIN_GRAY: u8 = 36;
pub const VILLAIN_THE_INFERNAL_CHOIR: u8 = 37;
pub const VILLAIN_MENAGERIE: u8 = 38;
pub const VILLAIN_THE_MISTRESS_OF_FATE: u8 = 39;
pub const VILLAIN_MYTHOS: u8 = 40;
pub const VILLAIN_ORIPHEL: u8 = 41;
pub const VILLAIN_OUTLANDER: u8 = 42;
pub const VILLAIN_PHASE: u8 = 43;
pub const VILLAIN_THE_RAM: u8 = 44;
pub const VILLAIN_RAM_1929: u8 = 45;
pub const VILLAIN_SCREAM_MACHINE: u8 = 46;
pub const VILLAIN_SWARM_EATER: u8 = 47;
pub const VILLAIN_HIVEMIND_SWARM_EATER: u8 = 48;
pub const VILLAIN_TIAMAT: u8 = 49;
pub const VILLAIN_HYDRA_TIAMAT: u8 = 50;
pub const VILLAIN_TIAMAT_2199: u8 = 51;
pub const VILLAIN_VECTOR: u8 = 52;

pub const TEAM_BARON_BLADE: u8 = 0;
pub const TEAM_ERMINE: u8 = 1;
pub const TEAM_FRICTION: u8 = 2;
pub const TEAM_FRIGHT_TRAIN: u8 = 3;
pub const TEAM_PROLETARIAT: u8 = 4;
pub const TEAM_AMBUSCADE: u8 = 5;
pub const TEAM_BIOMANCER: u8 = 6;
pub const TEAM_BUGBEAR: u8 = 7;
pub const TEAM_LA_CAPITAN: u8 = 8;
pub const TEAM_CITIZENS_HAMMER_AND_ANVIL: u8 = 9;
pub const TEAM_GREAZER: u8 = 10;
pub const TEAM_MISS_INFORMATION: u8 = 11;
pub const TEAM_THE_OPERATIVE: u8 = 12;
pub const TEAM_PLAGUE_RAT: u8 = 13;
pub const TEAM_SERGEANT_STEEL: u8 = 14;

pub const HERO_ABSOLUTE_ZERO: u8 = 0;
pub const HERO_BUNKER: u8 = 1;
pub const HERO_FANATIC: u8 = 2;
pub const HERO_HAKA: u8 = 3;
pub const HERO_LEGACY: u8 = 4;
pub const HERO_RA: u8 = 5;
pub const HERO_TACHYON: u8 = 6;
pub const HERO_TEMPEST: u8 = 7;
pub const HERO_VISIONARY: u8 = 8;
pub const HERO_WRAITH: u8 = 9;
pub const HERO_UNITY: u8 = 10;
pub const HERO_EXPATRIETTE: u8 = 11;
pub const HERO_MISTER_FIXER: u8 = 12;
pub const HERO_ARGENT_ADEPT: u8 = 13;
pub const HERO_NIGHTMIST: u8 = 14;
pub const HERO_THE_SCHOLAR: u8 = 15;
pub const HERO_CHRONO_RANGER: u8 = 16;
pub const HERO_OMNITRON_X: u8 = 17;
pub const HERO_CAPTAIN_COSMIC: u8 = 18;
pub const HERO_SKY_SCRAPER: u8 = 19;
pub const HERO_GUISE: u8 = 20;
pub const HERO_KNYFE: u8 = 21;
pub const HERO_THE_NATURALIST: u8 = 22;
pub const HERO_PARSE: u8 = 23;
pub const HERO_THE_SENTINELS: u8 = 24;
pub const HERO_SETBACK: u8 = 25;
pub const HERO_BENCHMARK: u8 = 26;
pub const HERO_STUNTMAN: u8 = 27;
pub const HERO_DOCTOR_MEDICO: u8 = 28;
pub const HERO_THE_IDEALIST: u8 = 29;
pub const HERO_MAINSTAY: u8 = 30;
pub const HERO_WRITHE: u8 = 31;
pub const HERO_AKASH_THRIYA: u8 = 32;
pub const HERO_LA_COMODORA: u8 = 33;
pub const HERO_THE_HARPY: u8 = 34;
pub const HERO_LIFELINE: u8 = 35;
pub const HERO_LUMINARY: u8 = 36;
pub const HERO_BACCARAT: u8 = 37;
pub const HERO_THE_CRICKET: u8 = 38;
pub const HERO_CYPHER: u8 = 39;
pub const HERO_DOC_HAVOC: u8 = 40;
pub const HERO_DRIFT: u8 = 41;
pub const HERO_ECHELON: u8 = 42;
pub const HERO_GARGOYLE: u8 = 43;
pub const HERO_GYROSAUR: u8 = 44;
pub const HERO_IMPACT: u8 = 45;
pub const HERO_THE_KNIGHT: u8 = 46;
pub const HERO_LADY_OF_THE_WOOD: u8 = 47;
pub const HERO_MAGNIFICENT_MARA: u8 = 48;
pub const HERO_MALICHAE: u8 = 49;
pub const HERO_NECRO: u8 = 50;
pub const HERO_PYRE: u8 = 51;
pub const HERO_QUICKSILVER: u8 = 52;
pub const HERO_STARLIGHT: u8 = 53;
pub const HERO_THE_STRANGER: u8 = 54;
pub const HERO_TANGO_ONE: u8 = 55;
pub const HERO_TERMINUS: u8 = 56;
pub const HERO_TITAN: u8 = 57;
pub const HERO_VANISH: u8 = 58;

pub const ENV_INSULA_PRIMALIS: u8 = 0;
pub const ENV_MEGALOPOLIS: u8 = 1;
pub const ENV_RUINS_OF_ATLANTIS: u8 = 2;
pub const ENV_WAGNER_MARS_BASE: u8 = 3;
pub const ENV_SILVER_GULCH_1883: u8 = 4;
pub const ENV_PIKE_INDUSTRIAL_COMPLEX: u8 = 5;
pub const ENV_ROOK_CITY: u8 = 6;
pub const ENV_REALM_OF_DISCORD: u8 = 7;
pub const ENV_TOMB_OF_ANUBIS: u8 = 8;
pub const ENV_THE_FINAL_WASTELAND: u8 = 9;
pub const ENV_THE_BLOCK: u8 = 10;
pub const ENV_TIME_CATACLYSM: u8 = 11;
pub const ENV_DOK_THORATH_CAPITAL: u8 = 12;
pub const ENV_THE_ENCLAVE_OF_THE_ENDLINGS: u8 = 13;
pub const ENV_OMNITRON_IV: u8 = 14;
pub const ENV_FREEDOM_TOWER: u8 = 15;
pub const ENV_MOBILE_DEFENSE_PLATFORM: u8 = 16;
pub const ENV_THE_COURT_OF_BLOOD: u8 = 17;
pub const ENV_MADAME_MITTERMEIERS_FANTASTICAL_FESTIVAL_OF_CONUNDRUMS_AND_CURIOSITIES: u8 = 18;
pub const ENV_MAGMARIA: u8 = 19;
pub const ENV_THE_TEMPLE_OF_ZHU_LONG: u8 = 20;
pub const ENV_THE_CELESTIAL_TRIBUNAL: u8 = 21;
pub const ENV_CHAMPION_STUDIOS: u8 = 22;
pub const ENV_FORT_ADAMANT: u8 = 23;
pub const ENV_MAERYNIAN_REFUGE: u8 = 24;
pub const ENV_MORDENGRAD: u8 = 25;
pub const ENV_NEXUS_OF_THE_VOID: u8 = 26;
pub const ENV_BLACKWOOD_FOREST: u8 = 27;
pub const ENV_CATCHWATER_HARBOR_1929: u8 = 28;
pub const ENV_THE_CHASM_OF_A_THOUSAND_NIGHTS: u8 = 29;
pub const ENV_THE_CYBERSPHERE: u8 = 30;
pub const ENV_DUNGEONS_OF_TERROR: u8 = 31;
pub const ENV_FSC_CONTINUANCE_WANDERER: u8 = 32;
pub const ENV_HALBERD_ERC: u8 = 33;
pub const ENV_NIGHTLORE_CITADEL: u8 = 34;
pub const ENV_NORTHSPAR: u8 = 35;
pub const ENV_OBLASK_CRATER: u8 = 36;
pub const ENV_ST_SIMEONS_CATACOMBS: u8 = 37;
pub const ENV_SUPERSTORM_AKELA: u8 = 38;
pub const ENV_VAULT_5: u8 = 39;
pub const ENV_THE_WANDERING_ISLE: u8 = 40;
pub const ENV_WINDMILL_CITY: u8 = 41;

pub const VAR_AMERICAS_GREATEST_LEGACY: u16 = 1;
pub const VAR_AMERICAS_NEWEST_LEGACY: u16 = 2;
pub const VAR_DARK_VISIONARY: u16 = 3;
pub const VAR_THE_ETERNAL_HAKA: u16 = 4;
pub const VAR_GI_BUNKER: u16 = 5;
pub const VAR_RA_HORUS_OF_TWO_HORIZONS: u16 = 6;
pub const VAR_RA_SETTING_SUN: u16 = 7;
pub const VAR_REDEEMER_FANATIC: u16 = 8;
pub const VAR_ROOK_CITY_WRAITH: u16 = 9;
pub const VAR_THE_SUPER_SCIENTIFIC_TACHYON: u16 = 10;
pub const VAR_THE_VISIONARY_UNLEASHED: u16 = 11;
pub const VAR_CAPTAIN_COSMIC_REQUITAL: u16 = 12;
pub const VAR_CHRONO_RANGER_THE_BEST_OF_TIMES: u16 = 13;
pub const VAR_DARK_CONDUCTOR_ARGENT_ADEPT: u16 = 14;
pub const VAR_EXTREMIST_SKY_SCRAPER: u16 = 15;
pub const VAR_OMNITRON_U: u16 = 16;
pub const VAR_SANTA_GUISE: u16 = 17;
pub const VAR_THE_SCHOLAR_OF_THE_INFINITE: u16 = 18;
pub const VAR_ACTION_HERO_STUNTMAN: u16 = 19;
pub const VAR_AKASH_THRIYA_SPIRIT_OF_THE_VOID: u16 = 20;
pub const VAR_BENCHMARK_SUPPLY_AND_DEMAND: u16 = 21;
pub const VAR_HEROIC_LUMINARY: u16 = 22;
pub const VAR_KNYFE_ROGUE_AGENT: u16 = 23;
pub const VAR_LA_COMODORA_CURSE_OF_THE_BLACK_SPOT: u16 = 24;
pub const VAR_LIFELINE_BLOOD_MAGE: u16 = 25;
pub const VAR_PARSE_FUGUE_STATE: u16 = 26;
pub const VAR_THE_ADAMANT_SENTINELS: u16 = 27;
pub const VAR_THE_HUNTED_NATURALIST: u16 = 28;
pub const VAR_TERMI_NATION_BUNKER: u16 = 29;
pub const VAR_TERMI_NATION_ABSOLUTE_ZERO: u16 = 30;
pub const VAR_TERMI_NATION_UNITY: u16 = 31;
pub const VAR_FREEDOM_SIX_ABSOLUTE_ZERO: u16 = 32;
pub const VAR_FREEDOM_SIX_BUNKER: u16 = 33;
pub const VAR_FREEDOM_SIX_TACHYON: u16 = 34;
pub const VAR_FREEDOM_SIX_TEMPEST: u16 = 35;
pub const VAR_FREEDOM_SIX_WRAITH: u16 = 36;
pub const VAR_FREEDOM_SIX_UNITY: u16 = 37;
pub const VAR_DARK_WATCH_EXPATRIETTE: u16 = 38;
pub const VAR_DARK_WATCH_MISTER_FIXER: u16 = 39;
pub const VAR_DARK_WATCH_NIGHTMIST: u16 = 40;
pub const VAR_DARK_WATCH_SETBACK: u16 = 41;
pub const VAR_DARK_WATCH_HARPY: u16 = 42;
pub const VAR_PRIME_WARDENS_ARGENT_ADEPT: u16 = 43;
pub const VAR_PRIME_WARDENS_CAPTAIN_COSMIC: u16 = 44;
pub const VAR_PRIME_WARDENS_FANATIC: u16 = 45;
pub const VAR_PRIME_WARDENS_HAKA: u16 = 46;
pub const VAR_PRIME_WARDENS_TEMPEST: u16 = 47;
pub const VAR_XTREME_PRIME_WARDENS_ARGENT_ADEPT: u16 = 48;
pub const VAR_XTREME_PRIME_WARDENS_TEMPEST: u16 = 49;
pub const VAR_XTREME_PRIME_WARDENS_CAPTAIN_COSMIC: u16 = 50;
pub const VAR_XTREME_PRIME_WARDENS_FANATIC: u16 = 51;
pub const VAR_XTREME_PRIME_WARDENS_HAKA: u16 = 52;
pub const VAR_FREEDOM_FIVE_ABSOLUTE_ZERO: u16 = 53;
pub const VAR_FREEDOM_FIVE_BUNKER: u16 = 54;
pub const VAR_FREEDOM_FIVE_WRAITH: u16 = 55;
pub const VAR_FREEDOM_FIVE_TACHYON: u16 = 56;
pub const VAR_FREEDOM_FIVE_LEGACY: u16 = 57;
pub const VAR_SUPER_SENTAI_IDEALIST: u16 = 58;
pub const VAR_DR_MEDICO_MALPRACTICE: u16 = 59;
pub const VAR_COSMIC_INVENTOR_WRITHE: u16 = 60;
pub const VAR_ROAD_WARRIOR_MAINSTAY: u16 = 61;
pub const VAR_COMPLETIONIST_GUISE: u16 = 62;
pub const VAR_MAD_BOMBER_BARON_BLADE: u16 = 63;
pub const VAR_OMNITRON_II: u16 = 64;
pub const VAR_SPITE_AGENT_OF_GLOOM: u16 = 65;
pub const VAR_SKINWALKER_GLOOMWEAVER: u16 = 66;
pub const VAR_TRICKSTER_KISMET: u16 = 67;
pub const VAR_HEROIC_INFINITOR: u16 = 68;
pub const VAR_BACCARAT_ACE_OF_SWORDS: u16 = 69;
pub const VAR_BACCARAT_ACE_OF_SORROWS: u16 = 70;
pub const VAR_BACCARAT_1929: u16 = 71;
pub const VAR_FIRST_RESPONSE_CRICKET: u16 = 72;
pub const VAR_THE_CRICKET_RENEGADE: u16 = 73;
pub const VAR_THE_CRICKET_WASTELAND_RONIN: u16 = 74;
pub const VAR_FIRST_RESPONSE_CYPHER: u16 = 75;
pub const VAR_CYPHER_SWARMING_PROTOCOL: u16 = 76;
pub const VAR_FIRST_RESPONSE_DOC_HAVOC: u16 = 77;
pub const VAR_DOC_HAVOC_2199: u16 = 78;
pub const VAR_DRIFT_THROUGH_THE_BREACH: u16 = 79;
pub const VAR_DRIFT_1929_AND_2199: u16 = 80;
pub const VAR_DRIFT_1609: u16 = 81;
pub const VAR_DRIFT_1789: u16 = 82;
pub const VAR_TEST_SUBJECT_DRIFT: u16 = 83;
pub const VAR_FIRST_RESPONSE_ECHELON: u16 = 84;
pub const VAR_ECHELON_2199: u16 = 85;
pub const VAR_GARGOYLE_WASTELAND_RONIN: u16 = 86;
pub const VAR_GARGOYLE_2199: u16 = 87;
pub const VAR_GARGOYLE_DRAGON_RANGER: u16 = 88;
pub const VAR_GARGOYLE_INFILTRATOR: u16 = 89;
pub const VAR_GYROSAUR_SPEED_DEMON: u16 = 90;
pub const VAR_GYROSAUR_RENEGADE: u16 = 91;
pub const VAR_CAPTAIN_GYROSAUR: u16 = 92;
pub const VAR_IMPACT_RENEGADE: u16 = 93;
pub const VAR_IMPACT_WASTELAND_RONIN: u16 = 94;
pub const VAR_THE_FAIR_KNIGHT: u16 = 95;
pub const VAR_THE_BERSERKER_KNIGHT: u16 = 96;
pub const VAR_THE_KNIGHT_1929: u16 = 97;
pub const VAR_THE_KNIGHTS_WASTELAND_RONIN: u16 = 98;
pub const VAR_LADY_OF_THE_WOOD_SEASON_OF_CHANGE: u16 = 99;
pub const VAR_MINISTRY_OF_STRATEGIC_SCIENCE_LADY_OF_THE_WOOD: u16 = 100;
pub const VAR_LADY_OF_THE_WOOD_2199: u16 = 101;
pub const VAR_MINISTRY_OF_STRATEGIC_SCIENCE_MAGNIFICENT_MARA: u16 = 102;
pub const VAR_MAGNIFICENT_MARA_1929: u16 = 103;
pub const VAR_SHARDMASTER_MALICHAE: u16 = 104;
pub const VAR_MINISTRY_OF_STRATEGIC_SCIENCE_MALICHAE: u16 = 105;
pub const VAR_NECRO_WARDEN_OF_CHAOS: u16 = 106;
pub const VAR_NECRO_1929: u16 = 107;
pub const VAR_NECRO_LAST_OF_THE_FORGOTTEN_ORDER: u16 = 108;
pub const VAR_THE_UNSTABLE_PYRE: u16 = 109;
pub const VAR_PYRE_WASTELAND_RONIN: u16 = 110;
pub const VAR_PYRE_EXPEDITION_OBLASK: u16 = 111;
pub const VAR_THE_UNCANNY_QUICKSILVER: u16 = 112;
pub const VAR_QUICKSILVER_RENEGADE: u16 = 113;
pub const VAR_HARBINGER_QUICKSILVER: u16 = 114;
pub const VAR_STARLIGHT_GENESIS: u16 = 115;
pub const VAR_NIGHTLORE_COUNCIL_STARLIGHT: u16 = 116;
pub const VAR_STARLIGHT_AREA_51: u16 = 117;
pub const VAR_THE_RUNECARVED_STRANGER: u16 = 118;
pub const VAR_THE_STRANGER_1929: u16 = 119;
pub const VAR_THE_STRANGER_WASTELAND_RONIN: u16 = 120;
pub const VAR_THE_STRANGER_IN_THE_CORN: u16 = 121;
pub const VAR_TANGO_ONE_GHOST_OPS: u16 = 122;
pub const VAR_TANGO_ONE_1929: u16 = 123;
pub const VAR_TANGO_ONE_CREED_OF_THE_SNIPER: u16 = 124;
pub const VAR_MINISTRY_OF_STRATEGIC_SCIENCE_TERMINUS: u16 = 125;
pub const VAR_TERMINUS_2199: u16 = 126;
pub const VAR_MINISTRY_OF_STRATEGIC_SCIENCE_TITAN: u16 = 127;
pub const VAR_TITAN_2199: u16 = 128;
pub const VAR_TITAN_ONI: u16 = 129;
pub const VAR_FIRST_RESPONSE_VANISH: u16 = 130;
pub const VAR_VANISH_1929: u16 = 131;
pub const VAR_VANISH_TOMB_OF_THIEVES: u16 = 132;
pub const VAR_URBAN_WARFARE_EXPATRIETTE: u16 = 133;
pub const VAR_SIEGE_BREAKER_BUNKER: u16 = 134;
pub const VAR_NITRO_BOOST_ABSOLUTE_ZERO: u16 = 135;
pub const VAR_ENLIGHTENED_MISTER_FIXER: u16 = 136;
pub const VAR_NORTHERN_WIND_MISTER_FIXER: u16 = 137;
pub const VAR_OMNITRON_XI: u16 = 138;

/// Owning hero and per-hero bit slot of each hero variant: slot 0 of a
/// hero's byte is its base version, slots 1 and up are its variants in
/// registry order. Villain-attached variants have no owning hero.
pub open spec fn spec_variant_owner(v: u16) -> Option<(u8, u8)> {
    match v {
        1u16 => Some((HERO_LEGACY, 1)),
        2u16 => Some((HERO_LEGACY, 2)),
        3u16 => Some((HERO_VISIONARY, 1)),
        4u16 => Some((HERO_HAKA, 1)),
        5u16 => Some((HERO_BUNKER, 1)),
        6u16 => Some((HERO_RA, 1)),
        7u16 => Some((HERO_RA, 2)),
        8u16 => Some((HERO_FANATIC, 1)),
        9u16 => Some((HERO_WRAITH, 1)),
        10u16 => Some((HERO_TACHYON, 1)),
        11u16 => Some((HERO_VISIONARY, 2)),
        12u16 => Some((HERO_CAPTAIN_COSMIC, 1)),
        13u16 => Some((HERO_CHRONO_RANGER, 1)),
        14u16 => Some((HERO_ARGENT_ADEPT, 1)),
        15u16 => Some((HERO_SKY_SCRAPER, 1)),
        16u16 => Some((HERO_OMNITRON_X, 1)),
        17u16 => Some((HERO_GUISE, 1)),
        18u16 => Some((HERO_THE_SCHOLAR, 1)),
        19u16 => Some((HERO_STUNTMAN, 1)),
        20u16 => Some((HERO_AKASH_THRIYA, 1)),
        21u16 => Some((HERO_BENCHMARK, 1)),
        22u16 => Some((HERO_LUMINARY, 1)),
        23u16 => Some((HERO_KNYFE, 1)),
        24u16 => Some((HERO_LA_COMODORA, 1)),
        25u16 => Some((HERO_LIFELINE, 1)),
        26u16 => Some((HERO_PARSE, 1)),
        27u16 => Some((HERO_THE_SENTINELS, 1)),
        28u16 => Some((HERO_THE_NATURALIST, 1)),
        29u16 => Some((HERO_BUNKER, 2)),
        30u16 => Some((HERO_ABSOLUTE_ZERO, 1)),
        31u16 => Some((HERO_UNITY, 1)),
        32u16 => Some((HERO_ABSOLUTE_ZERO, 2)),
        33u16 => Some((HERO_BUNKER, 3)),
        34u16 => Some((HERO_TACHYON, 2)),
        35u16 => Some((HERO_TEMPEST, 1)),
        36u16 => Some((HERO_WRAITH, 2)),
        37u16 => Some((HERO_UNITY, 2)),
        38u16 => Some((HERO_EXPATRIETTE, 1)),
        39u16 => Some((HERO_MISTER_FIXER, 1)),
        40u16 => Some((HERO_NIGHTMIST, 1)),
        41u16 => Some((HERO_SETBACK, 1)),
        42u16 => Some((HERO_THE_HARPY, 1)),
        43u16 => Some((HERO_ARGENT_ADEPT, 2)),
        44u16 => Some((HERO_CAPTAIN_COSMIC, 2)),
        45u16 => Some((HERO_FANATIC, 2)),
        46u16 => Some((HERO_HAKA, 2)),
        47u16 => Some((HERO_TEMPEST, 2)),
        48u16 => Some((HERO_ARGENT_ADEPT, 3)),
        49u16 => Some((HERO_TEMPEST, 3)),
        50u16 => Some((HERO_CAPTAIN_COSMIC, 3)),
        51u16 => Some((HERO_FANATIC, 3)),
        52u16 => Some((HERO_HAKA, 3)),
        53u16 => Some((HERO_ABSOLUTE_ZERO, 3)),
        54u16 => Some((HERO_BUNKER, 4)),
        55u16 => Some((HERO_WRAITH, 3)),
        56u16 => Some((HERO_TACHYON, 3)),
        57u16 => Some((HERO_LEGACY, 3)),
        58u16 => Some((HERO_THE_IDEALIST, 1)),
        59u16 => Some((HERO_DOCTOR_MEDICO, 1)),
        60u16 => Some((HERO_WRITHE, 1)),
        61u16 => Some((HERO_MAINSTAY, 1)),
        62u16 => Some((HERO_GUISE, 2)),
        63u16 => None,
        64u16 => None,
        65u16 => None,
        66u16 => None,
        67u16 => None,
        68u16 => None,
        69u16 => Some((HERO_BACCARAT, 1)),
        70u16 => Some((HERO_BACCARAT, 2)),
        71u16 => Some((HERO_BACCARAT, 3)),
        72u16 => Some((HERO_THE_CRICKET, 1)),
        73u16 => Some((HERO_THE_CRICKET, 2)),
        74u16 => Some((HERO_THE_CRICKET, 3)),
        75u16 => Some((HERO_CYPHER, 1)),
        76u16 => Some((HERO_CYPHER, 2)),
        77u16 => Some((HERO_DOC_HAVOC, 1)),
        78u16 => Some((HERO_DOC_HAVOC, 2)),
        79u16 => Some((HERO_DRIFT, 1)),
        80u16 => Some((HERO_DRIFT, 2)),
        81u16 => Some((HERO_DRIFT, 3)),
        82u16 => Some((HERO_DRIFT, 4)),
        83u16 => Some((HERO_DRIFT, 5)),
        84u16 => Some((HERO_ECHELON, 1)),
        85u16 => Some((HERO_ECHELON, 2)),
        86u16 => Some((HERO_GARGOYLE, 1)),
        87u16 => Some((HERO_GARGOYLE, 2)),
        88u16 => Some((HERO_GARGOYLE, 3)),
        89u16 => Some((HERO_GARGOYLE, 4)),
        90u16 => Some((HERO_GYROSAUR, 1)),
        91u16 => Some((HERO_GYROSAUR, 2)),
        92u16 => Some((HERO_GYROSAUR, 3)),
        93u16 => Some((HERO_IMPACT, 1)),
        94u16 => Some((HERO_IMPACT, 2)),
        95u16 => Some((HERO_THE_KNIGHT, 1)),
        96u16 => Some((HERO_THE_KNIGHT, 2)),
        97u16 => Some((HERO_THE_KNIGHT, 3)),
        98u16 => Some((HERO_THE_KNIGHT, 4)),
        99u16 => Some((HERO_LADY_OF_THE_WOOD, 1)),
        100u16 => Some((HERO_LADY_OF_THE_WOOD, 2)),
        101u16 => Some((HERO_LADY_OF_THE_WOOD, 3)),
        102u16 => Some((HERO_MAGNIFICENT_MARA, 1)),
        103u16 => Some((HERO_MAGNIFICENT_MARA, 2)),
        104u16 => Some((HERO_MALICHAE, 1)),
        105u16 => Some((HERO_MALICHAE, 2)),
        106u16 => Some((HERO_NECRO, 1)),
        107u16 => Some((HERO_NECRO, 2)),
        108u16 => Some((HERO_NECRO, 3)),
        109u16 => Some((HERO_PYRE, 1)),
        110u16 => Some((HERO_PYRE, 2)),
        111u16 => Some((HERO_PYRE, 3)),
        112u16 => Some((HERO_QUICKSILVER, 1)),
        113u16 => Some((HERO_QUICKSILVER, 2)),
        114u16 => Some((HERO_QUICKSILVER, 3)),
        115u16 => Some((HERO_STARLIGHT, 1)),
        116u16 => Some((HERO_STARLIGHT, 2)),
        117u16 => Some((HERO_STARLIGHT, 3)),
        118u16 => Some((HERO_THE_STRANGER, 1)),
        119u16 => Some((HERO_THE_STRANGER, 2)),
        120u16 => Some((HERO_THE_STRANGER, 3)),
        121u16 => Some((HERO_THE_STRANGER, 4)),
        122u16 => Some((HERO_TANGO_ONE, 1)),
        123u16 => Some((HERO_TANGO_ONE, 2)),
        124u16 => Some((HERO_TANGO_ONE, 3)),
        125u16 => Some((HERO_TERMINUS, 1)),
        126u16 => Some((HERO_TERMINUS, 2)),
        127u16 => Some((HERO_TITAN, 1)),
        128u16 => Some((HERO_TITAN, 2)),
        129u16 => Some((HERO_TITAN, 3)),
        130u16 => Some((HERO_VANISH, 1)),
        131u16 => Some((HERO_VANISH, 2)),
        132u16 => Some((HERO_VANISH, 3)),
        133u16 => Some((HERO_EXPATRIETTE, 2)),
        134u16 => Some((HERO_BUNKER, 5)),
        135u16 => Some((HERO_ABSOLUTE_ZERO, 4)),
        136u16 => Some((HERO_MISTER_FIXER, 2)),
        137u16 => Some((HERO_MISTER_FIXER, 3)),
        138u16 => Some((HERO_OMNITRON_X, 2)),
        _ => None,
    }
}

/// Looks a variant ordinal up in the owner table.
pub fn variant_owner(v: u16) -> (r: Option<(u8, u8)>)
    ensures
        r == spec_variant_owner(v),
        match r {
            Some((hero, slot)) => hero < HERO_COUNT && 1 <= slot <= 7,
            None => true,
        },
{
    match v {
        1u16 => Some((HERO_LEGACY, 1)),
        2u16 => Some((HERO_LEGACY, 2)),
        3u16 => Some((HERO_VISIONARY, 1)),
        4u16 => Some((HERO_HAKA, 1)),
        5u16 => Some((HERO_BUNKER, 1)),
        6u16 => Some((HERO_RA, 1)),
        7u16 => Some((HERO_RA, 2)),
        8u16 => Some((HERO_FANATIC, 1)),
        9u16 => Some((HERO_WRAITH, 1)),
        10u16 => Some((HERO_TACHYON, 1)),
        11u16 => Some((HERO_VISIONARY, 2)),
        12u16 => Some((HERO_CAPTAIN_COSMIC, 1)),
        13u16 => Some((HERO_CHRONO_RANGER, 1)),
        14u16 => Some((HERO_ARGENT_ADEPT, 1)),
        15u16 => Some((HERO_SKY_SCRAPER, 1)),
        16u16 => Some((HERO_OMNITRON_X, 1)),
        17u16 => Some((HERO_GUISE, 1)),
        18u16 => Some((HERO_THE_SCHOLAR, 1)),
        19u16 => Some((HERO_STUNTMAN, 1)),
        20u16 => Some((HERO_AKASH_THRIYA, 1)),
        21u16 => Some((HERO_BENCHMARK, 1)),
        22u16 => Some((HERO_LUMINARY, 1)),
        23u16 => Some((HERO_KNYFE, 1)),
        24u16 => Some((HERO_LA_COMODORA, 1)),
        25u16 => Some((HERO_LIFELINE, 1)),
        26u16 => Some((HERO_PARSE, 1)),
        27u16 => Some((HERO_THE_SENTINELS, 1)),
        28u16 => Some((HERO_THE_NATURALIST, 1)),
        29u16 => Some((HERO_BUNKER, 2)),
        30u16 => Some((HERO_ABSOLUTE_ZERO, 1)),
        31u16 => Some((HERO_UNITY, 1)),
        32u16 => Some((HERO_ABSOLUTE_ZERO, 2)),
        33u16 => Some((HERO_BUNKER, 3)),
        34u16 => Some((HERO_TACHYON, 2)),
        35u16 => Some((HERO_TEMPEST, 1)),
        36u16 => Some((HERO_WRAITH, 2)),
        37u16 => Some((HERO_UNITY, 2)),
        38u16 => Some((HERO_EXPATRIETTE, 1)),
        39u16 => Some((HERO_MISTER_FIXER, 1)),
        40u16 => Some((HERO_NIGHTMIST, 1)),
        41u16 => Some((HERO_SETBACK, 1)),
        42u16 => Some((HERO_THE_HARPY, 1)),
        43u16 => Some((HERO_ARGENT_ADEPT, 2)),
        44u16 => Some((HERO_CAPTAIN_COSMIC, 2)),
        45u16 => Some((HERO_FANATIC, 2)),
        46u16 => Some((HERO_HAKA, 2)),
        47u16 => Some((HERO_TEMPEST, 2)),
        48u16 => Some((HERO_ARGENT_ADEPT, 3)),
        49u16 => Some((HERO_TEMPEST, 3)),
        50u16 => Some((HERO_CAPTAIN_COSMIC, 3)),
        51u16 => Some((HERO_FANATIC, 3)),
        52u16 => Some((HERO_HAKA, 3)),
        53u16 => Some((HERO_ABSOLUTE_ZERO, 3)),
        54u16 => Some((HERO_BUNKER, 4)),
        55u16 => Some((HERO_WRAITH, 3)),
        56u16 => Some((HERO_TACHYON, 3)),
        57u16 => Some((HERO_LEGACY, 3)),
        58u16 => Some((HERO_THE_IDEALIST, 1)),
        59u16 => Some((HERO_DOCTOR_MEDICO, 1)),
        60u16 => Some((HERO_WRITHE, 1)),
        61u16 => Some((HERO_MAINSTAY, 1)),
        62u16 => Some((HERO_GUISE, 2)),
        63u16 => None,
        64u16 => None,
        65u16 => None,
        66u16 => None,
        67u16 => None,
        68u16 => None,
        69u16 => Some((HERO_BACCARAT, 1)),
        70u16 => Some((HERO_BACCARAT, 2)),
        71u16 => Some((HERO_BACCARAT, 3)),
        72u16 => Some((HERO_THE_CRICKET, 1)),
        73u16 => Some((HERO_THE_CRICKET, 2)),
        74u16 => Some((HERO_THE_CRICKET, 3)),
        75u16 => Some((HERO_CYPHER, 1)),
        76u16 => Some((HERO_CYPHER, 2)),
        77u16 => Some((HERO_DOC_HAVOC, 1)),
        78u16 => Some((HERO_DOC_HAVOC, 2)),
        79u16 => Some((HERO_DRIFT, 1)),
        80u16 => Some((HERO_DRIFT, 2)),
        81u16 => Some((HERO_DRIFT, 3)),
        82u16 => Some((HERO_DRIFT, 4)),
        83u16 => Some((HERO_DRIFT, 5)),
        84u16 => Some((HERO_ECHELON, 1)),
        85u16 => Some((HERO_ECHELON, 2)),
        86u16 => Some((HERO_GARGOYLE, 1)),
        87u16 => Some((HERO_GARGOYLE, 2)),
        88u16 => Some((HERO_GARGOYLE, 3)),
        89u16 => Some((HERO_GARGOYLE, 4)),
        90u16 => Some((HERO_GYROSAUR, 1)),
        91u16 => Some((HERO_GYROSAUR, 2)),
        92u16 => Some((HERO_GYROSAUR, 3)),
        93u16 => Some((HERO_IMPACT, 1)),
        94u16 => Some((HERO_IMPACT, 2)),
        95u16 => Some((HERO_THE_KNIGHT, 1)),
        96u16 => Some((HERO_THE_KNIGHT, 2)),
        97u16 => Some((HERO_THE_KNIGHT, 3)),
        98u16 => Some((HERO_THE_KNIGHT, 4)),
        99u16 => Some((HERO_LADY_OF_THE_WOOD, 1)),
        100u16 => Some((HERO_LADY_OF_THE_WOOD, 2)),
        101u16 => Some((HERO_LADY_OF_THE_WOOD, 3)),
        102u16 => Some((HERO_MAGNIFICENT_MARA, 1)),
        103u16 => Some((HERO_MAGNIFICENT_MARA, 2)),
        104u16 => Some((HERO_MALICHAE, 1)),
        105u16 => Some((HERO_MALICHAE, 2)),
        106u16 => Some((HERO_NECRO, 1)),
        107u16 => Some((HERO_NECRO, 2)),
        108u16 => Some((HERO_NECRO, 3)),
        109u16 => Some((HERO_PYRE, 1)),
        110u16 => Some((HERO_PYRE, 2)),
        111u16 => Some((HERO_PYRE, 3)),
        112u16 => Some((HERO_QUICKSILVER, 1)),
        113u16 => Some((HERO_QUICKSILVER, 2)),
        114u16 => Some((HERO_QUICKSILVER, 3)),
        115u16 => Some((HERO_STARLIGHT, 1)),
        116u16 => Some((HERO_STARLIGHT, 2)),
        117u16 => Some((HERO_STARLIGHT, 3)),
        118u16 => Some((HERO_THE_STRANGER, 1)),
        119u16 => Some((HERO_THE_STRANGER, 2)),
        120u16 => Some((HERO_THE_STRANGER, 3)),
        121u16 => Some((HERO_THE_STRANGER, 4)),
        122u16 => Some((HERO_TANGO_ONE, 1)),
        123u16 => Some((HERO_TANGO_ONE, 2)),
        124u16 => Some((HERO_TANGO_ONE, 3)),
        125u16 => Some((HERO_TERMINUS, 1)),
        126u16 => Some((HERO_TERMINUS, 2)),
        127u16 => Some((HERO_TITAN, 1)),
        128u16 => Some((HERO_TITAN, 2)),
        129u16 => Some((HERO_TITAN, 3)),
        130u16 => Some((HERO_VANISH, 1)),
        131u16 => Some((HERO_VANISH, 2)),
        132u16 => Some((HERO_VANISH, 3)),
        133u16 => Some((HERO_EXPATRIETTE, 2)),
        134u16 => Some((HERO_BUNKER, 5)),
        135u16 => Some((HERO_ABSOLUTE_ZERO, 4)),
        136u16 => Some((HERO_MISTER_FIXER, 2)),
        137u16 => Some((HERO_MISTER_FIXER, 3)),
        138u16 => Some((HERO_OMNITRON_X, 2)),
        _ => None,
    }
}

} // verus!