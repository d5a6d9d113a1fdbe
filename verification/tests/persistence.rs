use sotm_client::locations::Locations;
use sotm_client::persist::{decode_locations, encode_locations, RECORD_LEN};
use sotm_client::registry::{
    ENV_MEGALOPOLIS, TEAM_FRICTION, VAR_DARK_VISIONARY, VAR_SANTA_GUISE, VILLAIN_OMNITRON,
};

fn sample_locations() -> Locations {
    let mut locs = Locations::new();
    locs.mark_victory();
    locs.mark_villain(VILLAIN_OMNITRON, 1);
    locs.mark_villain(VILLAIN_OMNITRON, 3);
    locs.mark_team_villain(TEAM_FRICTION, 2);
    locs.mark_variant(VAR_DARK_VISIONARY);
    locs.mark_variant(VAR_SANTA_GUISE);
    locs.mark_environment(ENV_MEGALOPOLIS);
    locs
}

#[test]
fn record_has_the_fixed_width() {
    let encoded = encode_locations(&Locations::new());
    assert_eq!(encoded.len(), RECORD_LEN);
    assert_eq!(RECORD_LEN, 1 + 53 + 15 + 16 + 8);
}

#[test]
fn encode_decode_round_trip() {
    let locs = sample_locations();
    let encoded = encode_locations(&locs);
    let decoded = decode_locations(&encoded);
    assert_eq!(decoded.victory, locs.victory);
    assert_eq!(decoded.villains, locs.villains);
    assert_eq!(decoded.team_villains, locs.team_villains);
    assert_eq!(decoded.variants, locs.variants);
    assert_eq!(decoded.environments, locs.environments);
}

#[test]
fn empty_round_trip() {
    let locs = Locations::new();
    let decoded = decode_locations(&encode_locations(&locs));
    assert!(!decoded.victory);
    assert_eq!(decoded.variants, 0);
    assert_eq!(decoded.environments, 0);
    assert!(decoded.villains.iter().all(|b| *b == 0));
    assert!(decoded.team_villains.iter().all(|b| *b == 0));
}

#[test]
fn short_record_decodes_to_all_unchecked() {
    // A record one byte shorter than the fixed width was written by an
    // incompatible build and must decode to a fresh checked-set.
    let mut encoded = encode_locations(&sample_locations());
    encoded.pop();
    assert_eq!(encoded.len(), RECORD_LEN - 1);
    let decoded = decode_locations(&encoded);
    assert!(!decoded.victory);
    assert_eq!(decoded.variants, 0);
    assert_eq!(decoded.environments, 0);
    assert!(decoded.villains.iter().all(|b| *b == 0));
    assert!(decoded.team_villains.iter().all(|b| *b == 0));
}

#[test]
fn long_record_decodes_to_all_unchecked() {
    let mut encoded = encode_locations(&sample_locations());
    encoded.push(0);
    let decoded = decode_locations(&encoded);
    assert!(!decoded.victory);
    assert_eq!(decoded.variants, 0);
}

#[test]
fn encoded_layout_is_fixed() {
    let locs = sample_locations();
    let encoded = encode_locations(&locs);
    assert_eq!(encoded[0], 1);
    assert_eq!(encoded[1 + VILLAIN_OMNITRON as usize], (1 << 1) | (1 << 3));
    assert_eq!(encoded[1 + 53 + TEAM_FRICTION as usize], 1 << 2);
    let mut variant_bytes = [0u8; 16];
    variant_bytes.copy_from_slice(&encoded[69..85]);
    assert_eq!(u128::from_le_bytes(variant_bytes), locs.variants);
    let mut env_bytes = [0u8; 8];
    env_bytes.copy_from_slice(&encoded[85..93]);
    assert_eq!(u64::from_le_bytes(env_bytes), locs.environments);
}
