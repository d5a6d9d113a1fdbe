//! Fixed-width binary persistence of the checked-set: one victory byte, one
//! difficulty byte per villain and team-villain ordinal, the 16-byte
//! little-endian variant field, the 8-byte little-endian environment field.
//! The inventory is never persisted; it is rebuilt from the server's replay.

use vstd::prelude::*;

use vstd::bytes::{
    spec_u128_from_le_bytes, spec_u128_to_le_bytes, spec_u64_from_le_bytes, spec_u64_to_le_bytes,
    u128_from_le_bytes, u128_to_le_bytes, u64_from_le_bytes, u64_to_le_bytes,
};
use vstd::slice::{slice_subrange, slice_to_vec};

use crate::locations::Locations;
use crate::registry::{TEAM_VILLAIN_COUNT, VILLAIN_COUNT};

verus! {

/// Exact byte width of one persisted record: the victory byte, one byte per
/// villain ordinal, one per team-villain ordinal, sixteen for the variant
/// field and eight for the environment field. A file of any other length
/// was produced by an incompatible build.
pub const RECORD_LEN: usize = 93;

/// Offset of the villain difficulty bytes.
pub const VILLAINS_AT: usize = 1;

/// Offset of the team-villain difficulty bytes.
pub const TEAM_VILLAINS_AT: usize = 54;

/// Offset of the little-endian variant field.
pub const VARIANTS_AT: usize = 69;

/// Offset of the little-endian environment field.
pub const ENVIRONMENTS_AT: usize = 85;

/// The encoded record of a checked-set.
pub open spec fn spec_encode(l: Locations) -> Seq<u8> {
    seq![
        if l.victory {
            1u8
        } else {
            0u8
        },
    ] + l.villains@ + l.team_villains@ + spec_u128_to_le_bytes(l.variants)
        + spec_u64_to_le_bytes(l.environments)
}

/// A record of the right length decodes to exactly this checked-set.
pub open spec fn spec_decodes_to(s: Seq<u8>, l: Locations) -> bool {
    &&& l.wf()
    &&& l.victory == (s[0] != 0)
    &&& l.villains@ == s.subrange(VILLAINS_AT as int, TEAM_VILLAINS_AT as int)
    &&& l.team_villains@ == s.subrange(TEAM_VILLAINS_AT as int, VARIANTS_AT as int)
    &&& l.variants == spec_u128_from_le_bytes(
        s.subrange(VARIANTS_AT as int, ENVIRONMENTS_AT as int),
    )
    &&& l.environments == spec_u64_from_le_bytes(
        s.subrange(ENVIRONMENTS_AT as int, RECORD_LEN as int),
    )
}

/// A checked-set with nothing resolved, as a fresh one is.
pub open spec fn spec_all_unchecked(l: Locations) -> bool {
    &&& l.wf()
    &&& !l.victory
    &&& l.variants == 0
    &&& l.environments == 0
    &&& forall|v: int| 0 <= v < VILLAIN_COUNT ==> l.villains@[v] == 0
    &&& forall|t: int| 0 <= t < TEAM_VILLAIN_COUNT ==> l.team_villains@[t] == 0
}

/// Encode a checked-set into its fixed-width record.
pub fn encode_locations(l: &Locations) -> (r: Vec<u8>)
    requires
        l.wf(),
    ensures
        r@ == spec_encode(*l),
        r@.len() == RECORD_LEN,
{
    let mut out: Vec<u8> = Vec::new();
    out.push(if l.victory {
        1u8
    } else {
        0u8
    });
    let mut villains = slice_to_vec(l.villains.as_slice());
    out.append(&mut villains);
    let mut team_villains = slice_to_vec(l.team_villains.as_slice());
    out.append(&mut team_villains);
    let mut variants = u128_to_le_bytes(l.variants);
    out.append(&mut variants);
    let mut environments = u64_to_le_bytes(l.environments);
    out.append(&mut environments);
    proof {
        assert(out@ =~= spec_encode(*l));
    }
    out
}

/// Decode a fixed-width record back into a checked-set. A buffer of any
/// other length was written by an incompatible build and yields the
/// all-unchecked checked-set instead of an error or a partial decode;
/// renaming such a file aside is its keeper's job.
pub fn decode_locations(buf: &Vec<u8>) -> (r: Locations)
    ensures
        r.wf(),
        buf@.len() == RECORD_LEN ==> spec_decodes_to(buf@, r),
        buf@.len() != RECORD_LEN ==> spec_all_unchecked(r),
{
    if buf.len() != RECORD_LEN {
        return Locations::new();
    }
    let victory = buf[0] != 0;
    let villains = slice_to_vec(slice_subrange(buf.as_slice(), VILLAINS_AT, TEAM_VILLAINS_AT));
    let team_villains = slice_to_vec(
        slice_subrange(buf.as_slice(), TEAM_VILLAINS_AT, VARIANTS_AT),
    );
    let variants = u128_from_le_bytes(slice_subrange(buf.as_slice(), VARIANTS_AT, ENVIRONMENTS_AT));
    let environments = u64_from_le_bytes(
        slice_subrange(buf.as_slice(), ENVIRONMENTS_AT, RECORD_LEN),
    );
    Locations { victory, villains, team_villains, variants, environments }
}

/// Persistence round trip: encoding a checked-set and decoding the record
/// restores every field exactly, so `decode_locations` after
/// `encode_locations` gives back the checked-set it was handed. Together
/// with `spec_decode_deterministic` this pins the decoded value completely.
pub proof fn lemma_persistence_round_trip(l: Locations)
    requires
        l.wf(),
    ensures
        spec_encode(l).len() == RECORD_LEN,
        spec_decodes_to(spec_encode(l), l),
{
    vstd::bytes::lemma_auto_spec_u128_to_from_le_bytes();
    vstd::bytes::lemma_auto_spec_u64_to_from_le_bytes();
    let s = spec_encode(l);
    assert(s.subrange(VILLAINS_AT as int, TEAM_VILLAINS_AT as int) =~= l.villains@);
    assert(s.subrange(TEAM_VILLAINS_AT as int, VARIANTS_AT as int) =~= l.team_villains@);
    assert(s.subrange(VARIANTS_AT as int, ENVIRONMENTS_AT as int) =~= spec_u128_to_le_bytes(
        l.variants,
    ));
    assert(s.subrange(ENVIRONMENTS_AT as int, RECORD_LEN as int) =~= spec_u64_to_le_bytes(
        l.environments,
    ));
}

/// A record determines the decoded checked-set: two checked-sets decoded
/// from the same bytes agree on every field.
pub proof fn spec_decode_deterministic(s: Seq<u8>, a: Locations, b: Locations)
    requires
        spec_decodes_to(s, a),
        spec_decodes_to(s, b),
    ensures
        a.victory == b.victory,
        a.villains@ == b.villains@,
        a.team_villains@ == b.team_villains@,
        a.variants == b.variants,
        a.environments == b.environments,
{
}

/// Durable storage of the checked-set, keyed by the seed identifier; the
/// transport-facing layer implements it over its file store or equivalent.
/// Loading tolerates a record of the wrong width by yielding a fresh
/// checked-set, as `decode_locations` does.
pub trait PersistentStore where Self: Sized {
    fn new(seed: &str) -> Self;

    fn load(&self) -> Locations;

    fn save(&self, locations: &Locations);
}

} // verus!
