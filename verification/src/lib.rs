//! Run-time x86 CPU feature detection: a capability catalog, a CPUID query
//! engine with a build-time safety classification, and a lock-free one-shot
//! cache for the detected feature bitset.
use vstd::prelude::*;

pub mod cache;
pub mod catalog;
pub mod engine;

verus! {

/// True iff bit `i` of `w` is set.
pub open spec fn bit64(w: u64, i: u32) -> bool {
    w & (1u64 << i) != 0
}

/// True iff bit `i` of `w` is set.
pub open spec fn bit32(w: u32, i: u32) -> bool {
    w & (1u32 << i) != 0
}

/// Tests one bit of a 32-bit register word.
pub fn test_bit32(w: u32, i: u32) -> (r: bool)
    requires
        i < 32,
    ensures
        r == bit32(w, i),
{
    w & (1u32 << i) != 0
}

/// Tests one bit of the feature bitset.
pub fn test_bit64(w: u64, i: u32) -> (r: bool)
    requires
        i < 64,
    ensures
        r == bit64(w, i),
{
    w & (1u64 << i) != 0
}

/// Writes bit `i` of `bits` to `value`, leaving every other bit unchanged.
pub fn set_bit64(bits: u64, i: u32, value: bool) -> (r: u64)
    requires
        i < 64,
    ensures
        forall|j: u32| j < 64 ==> bit64(r, j) == (if j == i { value } else { bit64(bits, j) }),
{
    if value {
        let r = bits | (1u64 << i);
        proof {
            assert(forall|j: u32| j < 64 ==> ((bits | (1u64 << i)) & (1u64 << j) != 0) == (if j
                == i {
                true
            } else {
                bits & (1u64 << j) != 0
            })) by (bit_vector)
                requires
                    i < 64,
            ;
        }
        r
    } else {
        let r = bits & !(1u64 << i);
        proof {
            assert(forall|j: u32| j < 64 ==> ((bits & !(1u64 << i)) & (1u64 << j) != 0) == (if j
                == i {
                false
            } else {
                bits & (1u64 << j) != 0
            })) by (bit_vector)
                requires
                    i < 64,
            ;
        }
        r
    }
}

/// No bit of the all-zero word is set.
pub proof fn lemma_zero_word_clear()
    ensures
        forall|j: u32| j < 64 ==> !bit64(0u64, j),
{
    assert(forall|j: u32| j < 64 ==> 0u64 & (1u64 << j) == 0) by (bit_vector);
}

/// Performs run-time feature detection through the process-wide cache:
/// resolves the feature's bit position and tests it against the cache,
/// initializing the cache with the query engine on first use.
///
/// The atomic cell's value cannot be named in a contract under the
/// permitted atomic specification, so the contract states what holds of
/// every outcome: the answer is the feature's bit of some marker-free
/// bitset. That this bitset is the engine's detection result rests on
/// the word-level laws of `cache` and the exact contract of
/// `engine::decode_features`.
pub fn check_for(
    cache: &cache::FeatureCache,
    policy: engine::SafetyPolicy,
    x: catalog::Feature,
) -> (r: bool)
    ensures
        exists|b: u64| !bit64(b, 63) && r == bit64(b, catalog::bit_of(x)),
{
    let i = x.bit_position();
    let r = cache.test(policy, i);
    proof {
        let b0 = choose|b: u64| !bit64(b, 63) && r == bit64(b, i);
        assert(!bit64(b0, 63) && r == bit64(b0, catalog::bit_of(x)));
    }
    r
}

/// The dynamic query surface: resolves a feature name against the catalog
/// and tests it through the cache. Unknown names come back as the typed
/// error, never as "absent"; a resolved name's answer is that feature's
/// bit of a marker-free bitset, as in `check_for`.
pub fn is_feature_detected(
    cache: &cache::FeatureCache,
    policy: engine::SafetyPolicy,
    name: &str,
) -> (r: Result<bool, catalog::UnknownFeature>)
    ensures
        (r is Err) <==> (forall|f: catalog::Feature| !catalog::is_alias(name@, f)),
        r matches Ok(v) ==> exists|f: catalog::Feature, b: u64|
            catalog::is_alias(name@, f) && !bit64(b, 63) && v == bit64(b, catalog::bit_of(f)),
{
    match catalog::Feature::from_str(name) {
        Ok(f) => {
            let v = check_for(cache, policy, f);
            proof {
                let b0 = choose|b: u64| !bit64(b, 63) && v == bit64(b, catalog::bit_of(f));
                assert(catalog::is_alias(name@, f) && !bit64(b0, 63) && v == bit64(
                    b0,
                    catalog::bit_of(f),
                ));
            }
            Ok(v)
        },
        Err(e) => Err(e),
    }
}

/// Two words that agree on every bit are the same word.
pub proof fn lemma_u64_ext(a: u64, b: u64)
    requires
        bit64(a, 0) == bit64(b, 0),
        bit64(a, 1) == bit64(b, 1),
        bit64(a, 2) == bit64(b, 2),
        bit64(a, 3) == bit64(b, 3),
        bit64(a, 4) == bit64(b, 4),
        bit64(a, 5) == bit64(b, 5),
        bit64(a, 6) == bit64(b, 6),
        bit64(a, 7) == bit64(b, 7),
        bit64(a, 8) == bit64(b, 8),
        bit64(a, 9) == bit64(b, 9),
        bit64(a, 10) == bit64(b, 10),
        bit64(a, 11) == bit64(b, 11),
        bit64(a, 12) == bit64(b, 12),
        bit64(a, 13) == bit64(b, 13),
        bit64(a, 14) == bit64(b, 14),
        bit64(a, 15) == bit64(b, 15),
        bit64(a, 16) == bit64(b, 16),
        bit64(a, 17) == bit64(b, 17),
        bit64(a, 18) == bit64(b, 18),
        bit64(a, 19) == bit64(b, 19),
        bit64(a, 20) == bit64(b, 20),
        bit64(a, 21) == bit64(b, 21),
        bit64(a, 22) == bit64(b, 22),
        bit64(a, 23) == bit64(b, 23),
        bit64(a, 24) == bit64(b, 24),
        bit64(a, 25) == bit64(b, 25),
        bit64(a, 26) == bit64(b, 26),
        bit64(a, 27) == bit64(b, 27),
        bit64(a, 28) == bit64(b, 28),
        bit64(a, 29) == bit64(b, 29),
        bit64(a, 30) == bit64(b, 30),
        bit64(a, 31) == bit64(b, 31),
        bit64(a, 32) == bit64(b, 32),
        bit64(a, 33) == bit64(b, 33),
        bit64(a, 34) == bit64(b, 34),
        bit64(a, 35) == bit64(b, 35),
        bit64(a, 36) == bit64(b, 36),
        bit64(a, 37) == bit64(b, 37),
        bit64(a, 38) == bit64(b, 38),
        bit64(a, 39) == bit64(b, 39),
        bit64(a, 40) == bit64(b, 40),
        bit64(a, 41) == bit64(b, 41),
        bit64(a, 42) == bit64(b, 42),
        bit64(a, 43) == bit64(b, 43),
        bit64(a, 44) == bit64(b, 44),
        bit64(a, 45) == bit64(b, 45),
        bit64(a, 46) == bit64(b, 46),
        bit64(a, 47) == bit64(b, 47),
        bit64(a, 48) == bit64(b, 48),
        bit64(a, 49) == bit64(b, 49),
        bit64(a, 50) == bit64(b, 50),
        bit64(a, 51) == bit64(b, 51),
        bit64(a, 52) == bit64(b, 52),
        bit64(a, 53) == bit64(b, 53),
        bit64(a, 54) == bit64(b, 54),
        bit64(a, 55) == bit64(b, 55),
        bit64(a, 56) == bit64(b, 56),
        bit64(a, 57) == bit64(b, 57),
        bit64(a, 58) == bit64(b, 58),
        bit64(a, 59) == bit64(b, 59),
        bit64(a, 60) == bit64(b, 60),
        bit64(a, 61) == bit64(b, 61),
        bit64(a, 62) == bit64(b, 62),
        bit64(a, 63) == bit64(b, 63),
    ensures
        a == b,
{
    assert(a == b) by (bit_vector)
        requires
            (a & (1u64 << 0u32) != 0) == (b & (1u64 << 0u32) != 0),
            (a & (1u64 << 1u32) != 0) == (b & (1u64 << 1u32) != 0),
            (a & (1u64 << 2u32) != 0) == (b & (1u64 << 2u32) != 0),
            (a & (1u64 << 3u32) != 0) == (b & (1u64 << 3u32) != 0),
            (a & (1u64 << 4u32) != 0) == (b & (1u64 << 4u32) != 0),
            (a & (1u64 << 5u32) != 0) == (b & (1u64 << 5u32) != 0),
            (a & (1u64 << 6u32) != 0) == (b & (1u64 << 6u32) != 0),
            (a & (1u64 << 7u32) != 0) == (b & (1u64 << 7u32) != 0),
            (a & (1u64 << 8u32) != 0) == (b & (1u64 << 8u32) != 0),
            (a & (1u64 << 9u32) != 0) == (b & (1u64 << 9u32) != 0),
            (a & (1u64 << 10u32) != 0) == (b & (1u64 << 10u32) != 0),
            (a & (1u64 << 11u32) != 0) == (b & (1u64 << 11u32) != 0),
            (a & (1u64 << 12u32) != 0) == (b & (1u64 << 12u32) != 0),
            (a & (1u64 << 13u32) != 0) == (b & (1u64 << 13u32) != 0),
            (a & (1u64 << 14u32) != 0) == (b & (1u64 << 14u32) != 0),
            (a & (1u64 << 15u32) != 0) == (b & (1u64 << 15u32) != 0),
            (a & (1u64 << 16u32) != 0) == (b & (1u64 << 16u32) != 0),
            (a & (1u64 << 17u32) != 0) == (b & (1u64 << 17u32) != 0),
            (a & (1u64 << 18u32) != 0) == (b & (1u64 << 18u32) != 0),
            (a & (1u64 << 19u32) != 0) == (b & (1u64 << 19u32) != 0),
            (a & (1u64 << 20u32) != 0) == (b & (1u64 << 20u32) != 0),
            (a & (1u64 << 21u32) != 0) == (b & (1u64 << 21u32) != 0),
            (a & (1u64 << 22u32) != 0) == (b & (1u64 << 22u32) != 0),
            (a & (1u64 << 23u32) != 0) == (b & (1u64 << 23u32) != 0),
            (a & (1u64 << 24u32) != 0) == (b & (1u64 << 24u32) != 0),
            (a & (1u64 << 25u32) != 0) == (b & (1u64 << 25u32) != 0),
            (a & (1u64 << 26u32) != 0) == (b & (1u64 << 26u32) != 0),
            (a & (1u64 << 27u32) != 0) == (b & (1u64 << 27u32) != 0),
            (a & (1u64 << 28u32) != 0) == (b & (1u64 << 28u32) != 0),
            (a & (1u64 << 29u32) != 0) == (b & (1u64 << 29u32) != 0),
            (a & (1u64 << 30u32) != 0) == (b & (1u64 << 30u32) != 0),
            (a & (1u64 << 31u32) != 0) == (b & (1u64 << 31u32) != 0),
            (a & (1u64 << 32u32) != 0) == (b & (1u64 << 32u32) != 0),
            (a & (1u64 << 33u32) != 0) == (b & (1u64 << 33u32) != 0),
            (a & (1u64 << 34u32) != 0) == (b & (1u64 << 34u32) != 0),
            (a & (1u64 << 35u32) != 0) == (b & (1u64 << 35u32) != 0),
            (a & (1u64 << 36u32) != 0) == (b & (1u64 << 36u32) != 0),
            (a & (1u64 << 37u32) != 0) == (b & (1u64 << 37u32) != 0),
            (a & (1u64 << 38u32) != 0) == (b & (1u64 << 38u32) != 0),
            (a & (1u64 << 39u32) != 0) == (b & (1u64 << 39u32) != 0),
            (a & (1u64 << 40u32) != 0) == (b & (1u64 << 40u32) != 0),
            (a & (1u64 << 41u32) != 0) == (b & (1u64 << 41u32) != 0),
            (a & (1u64 << 42u32) != 0) == (b & (1u64 << 42u32) != 0),
            (a & (1u64 << 43u32) != 0) == (b & (1u64 << 43u32) != 0),
            (a & (1u64 << 44u32) != 0) == (b & (1u64 << 44u32) != 0),
            (a & (1u64 << 45u32) != 0) == (b & (1u64 << 45u32) != 0),
            (a & (1u64 << 46u32) != 0) == (b & (1u64 << 46u32) != 0),
            (a & (1u64 << 47u32) != 0) == (b & (1u64 << 47u32) != 0),
            (a & (1u64 << 48u32) != 0) == (b & (1u64 << 48u32) != 0),
            (a & (1u64 << 49u32) != 0) == (b & (1u64 << 49u32) != 0),
            (a & (1u64 << 50u32) != 0) == (b & (1u64 << 50u32) != 0),
            (a & (1u64 << 51u32) != 0) == (b & (1u64 << 51u32) != 0),
            (a & (1u64 << 52u32) != 0) == (b & (1u64 << 52u32) != 0),
            (a & (1u64 << 53u32) != 0) == (b & (1u64 << 53u32) != 0),
            (a & (1u64 << 54u32) != 0) == (b & (1u64 << 54u32) != 0),
            (a & (1u64 << 55u32) != 0) == (b & (1u64 << 55u32) != 0),
            (a & (1u64 << 56u32) != 0) == (b & (1u64 << 56u32) != 0),
            (a & (1u64 << 57u32) != 0) == (b & (1u64 << 57u32) != 0),
            (a & (1u64 << 58u32) != 0) == (b & (1u64 << 58u32) != 0),
            (a & (1u64 << 59u32) != 0) == (b & (1u64 << 59u32) != 0),
            (a & (1u64 << 60u32) != 0) == (b & (1u64 << 60u32) != 0),
            (a & (1u64 << 61u32) != 0) == (b & (1u64 << 61u32) != 0),
            (a & (1u64 << 62u32) != 0) == (b & (1u64 << 62u32) != 0),
            (a & (1u64 << 63u32) != 0) == (b & (1u64 << 63u32) != 0),
    ;
}

} // verus!
