use core_detect::cache::FeatureCache;
use core_detect::catalog::{Feature, UnknownFeature};
use core_detect::engine::{
    decode_features, detect_features, target_policy, CpuInfo, SafetyClassification, SafetyPolicy,
};

fn detect(name: &str) -> bool {
    let cache = FeatureCache::new();
    core_detect::is_feature_detected(&cache, target_policy(), name).unwrap()
}

#[test]
fn compare_with_cupid() {
    let information = cupid::master().unwrap();
    assert_eq!(detect("aes"), information.aesni());
    assert_eq!(detect("pclmulqdq"), information.pclmulqdq());
    assert_eq!(detect("rdrand"), information.rdrand());
    assert_eq!(detect("rdseed"), information.rdseed());
    assert_eq!(detect("tsc"), information.tsc());
    assert_eq!(detect("sse"), information.sse());
    assert_eq!(detect("sse2"), information.sse2());
    assert_eq!(detect("sse3"), information.sse3());
    assert_eq!(detect("ssse3"), information.ssse3());
    assert_eq!(detect("sse4.1"), information.sse4_1());
    assert_eq!(detect("sse4.2"), information.sse4_2());
    assert_eq!(detect("sse4a"), information.sse4a());
    assert_eq!(detect("sha"), information.sha());
    assert_eq!(detect("avx"), information.avx());
    assert_eq!(detect("avx2"), information.avx2());
    assert_eq!(detect("avx512f"), information.avx512f());
    assert_eq!(detect("avx512cd"), information.avx512cd());
    assert_eq!(detect("avx512er"), information.avx512er());
    assert_eq!(detect("avx512pf"), information.avx512pf());
    assert_eq!(detect("avx512bw"), information.avx512bw());
    assert_eq!(detect("avx512dq"), information.avx512dq());
    assert_eq!(detect("avx512vl"), information.avx512vl());
    assert_eq!(detect("avx512ifma"), information.avx512_ifma());
    assert_eq!(detect("avx512vbmi"), information.avx512_vbmi());
    assert_eq!(detect("avx512vpopcntdq"), information.avx512_vpopcntdq());
    assert_eq!(detect("fma"), information.fma());
    assert_eq!(detect("bmi1"), information.bmi1());
    assert_eq!(detect("bmi2"), information.bmi2());
    assert_eq!(detect("popcnt"), information.popcnt());
    assert_eq!(detect("abm"), information.lzcnt());
    assert_eq!(detect("tbm"), information.tbm());
    assert_eq!(detect("lzcnt"), information.lzcnt());
    assert_eq!(detect("xsave"), information.xsave());
    assert_eq!(detect("xsaveopt"), information.xsaveopt());
    assert_eq!(detect("xsavec"), information.xsavec_and_xrstor());
    assert_eq!(detect("xsaves"), information.xsaves_xrstors_and_ia32_xss());
    assert_eq!(detect("cmpxchg16b"), information.cmpxchg16b());
    assert_eq!(detect("adx"), information.adx());
    assert_eq!(detect("rtm"), information.rtm());
}

const ALL_NAMES: [&str; 39] = [
    "aes",
    "pclmulqdq",
    "rdrand",
    "rdseed",
    "tsc",
    "sse",
    "sse2",
    "sse3",
    "ssse3",
    "sse4.1",
    "sse4.2",
    "sse4a",
    "sha",
    "avx",
    "avx2",
    "avx512f",
    "avx512cd",
    "avx512er",
    "avx512pf",
    "avx512bw",
    "avx512dq",
    "avx512vl",
    "avx512ifma",
    "avx512vbmi",
    "avx512vpopcntdq",
    "fma",
    "bmi1",
    "bmi2",
    "popcnt",
    "abm",
    "tbm",
    "lzcnt",
    "xsave",
    "xsaveopt",
    "xsavec",
    "xsaves",
    "cmpxchg16b",
    "adx",
    "rtm",
];

#[test]
fn catalog_totality() {
    // Every name in the fixed list resolves, and apart from the documented
    // "abm"/"lzcnt" alias, all resolved features have distinct bit positions.
    let mut seen: Vec<(String, u32)> = Vec::new();
    for name in ALL_NAMES.iter() {
        let f = Feature::from_str(name).unwrap();
        let bit = f.bit_position();
        assert!(bit < 38);
        for (other, other_bit) in seen.iter() {
            let alias_pair = (name == &"abm" && other == "lzcnt")
                || (name == &"lzcnt" && other == "abm");
            if !alias_pair {
                assert_ne!(bit, *other_bit, "{} and {} share a bit", name, other);
            }
        }
        seen.push((name.to_string(), bit));
    }
}

#[test]
fn display_name_roundtrip() {
    for name in ALL_NAMES.iter() {
        let f = Feature::from_str(name).unwrap();
        let shown = f.to_str();
        // "abm" is the one alias: it displays under its canonical name.
        if name == &"abm" {
            assert_eq!(shown, "lzcnt");
        } else {
            assert_eq!(&shown, name);
        }
        assert_eq!(Feature::from_str(shown).unwrap(), f);
    }
}

#[test]
fn unknown_name_is_an_error() {
    let cache = FeatureCache::new();
    let r = core_detect::is_feature_detected(&cache, target_policy(), "made_up_feature_xyz");
    assert_eq!(r, Err(UnknownFeature));
    assert_eq!(Feature::from_str(""), Err(UnknownFeature));
    assert_eq!(Feature::from_str("SSE"), Err(UnknownFeature));
}

#[test]
fn never_safe_reports_everything_absent() {
    let policy = SafetyPolicy { classification: SafetyClassification::Never, cautious_assume_safe: false };
    assert_eq!(detect_features(policy), 0);
    let cache = FeatureCache::new();
    for name in ALL_NAMES.iter() {
        assert_eq!(core_detect::is_feature_detected(&cache, policy, name), Ok(false));
    }
}

#[test]
fn cautious_default_reports_everything_absent() {
    let policy = SafetyPolicy { classification: SafetyClassification::Cautious, cautious_assume_safe: false };
    assert_eq!(detect_features(policy), 0);
}

#[test]
fn cautious_override_probes() {
    let policy = SafetyPolicy { classification: SafetyClassification::Cautious, cautious_assume_safe: true };
    let always = SafetyPolicy { classification: SafetyClassification::Always, cautious_assume_safe: false };
    assert_eq!(detect_features(policy), detect_features(always));
}

fn synthetic_host() -> CpuInfo {
    // A host with SSE/SSE2, AVX and AVX2 (OS-enabled), but no AVX-512.
    CpuInfo {
        max_leaf: 0xd,
        proc_ecx: (1 << 26) | (1 << 27) | (1 << 28) | (1 << 0),
        proc_edx: (1 << 25) | (1 << 26),
        ext7_ebx: 1 << 5,
        ext7_ecx: 0,
        max_ext_leaf: 0x8000_0001,
        ext1_ecx: 0,
        xcr0: 0x7,
        xstate1_eax: 0,
    }
}

fn bit_of(name: &str) -> u32 {
    Feature::from_str(name).unwrap().bit_position()
}

#[test]
fn cross_reference_scenario() {
    let bits = decode_features(synthetic_host());
    for (name, expect) in [
        ("sse", true),
        ("sse2", true),
        ("sse3", true),
        ("avx", true),
        ("avx2", true),
        ("avx512f", false),
        ("avx512bw", false),
        ("avx512vl", false),
        ("xsave", true),
        ("aes", false),
    ] {
        assert_eq!(bits & (1u64 << bit_of(name)) != 0, expect, "{}", name);
    }
}

#[test]
fn xsave_gating_scenario() {
    // CPUID advertises AVX, but XCR0 shows the OS never enabled the AVX
    // state: the feature must be reported absent.
    let mut info = synthetic_host();
    info.xcr0 = 0x1;
    let bits = decode_features(info);
    assert_eq!(bits & (1u64 << bit_of("avx")) != 0, false);
    assert_eq!(bits & (1u64 << bit_of("avx2")) != 0, false);
    // The non-AVX features are unaffected.
    assert_eq!(bits & (1u64 << bit_of("sse2")) != 0, true);
    assert_eq!(bits & (1u64 << bit_of("xsave")) != 0, true);
}

#[test]
fn engine_is_idempotent() {
    let p = target_policy();
    assert_eq!(detect_features(p), detect_features(p));
    let info = synthetic_host();
    assert_eq!(decode_features(info), decode_features(info));
}

#[test]
fn cache_is_stable_and_race_free() {
    // Simulated concurrent first use: many callers race on one cell; all
    // must agree, and the answer never changes once the cell is observed
    // initialized.
    let cache = FeatureCache::new();
    let p = target_policy();
    let first = core_detect::check_for(&cache, p, Feature::Sse2);
    for _ in 0..64 {
        assert_eq!(core_detect::check_for(&cache, p, Feature::Sse2), first);
    }
    // Independent cells (stand-ins for other racing threads) agree too.
    for _ in 0..8 {
        let other = FeatureCache::new();
        assert_eq!(core_detect::check_for(&other, p, Feature::Sse2), first);
        for name in ALL_NAMES.iter() {
            assert_eq!(
                core_detect::is_feature_detected(&other, p, name),
                core_detect::is_feature_detected(&cache, p, name)
            );
        }
    }
}

#[test]
fn zero_features_still_initializes() {
    // Under a Never-safe policy the detected bitset is all-zero; the cache
    // must still record "initialized" and keep serving the zero bitset.
    let never = SafetyPolicy { classification: SafetyClassification::Never, cautious_assume_safe: false };
    let cache = FeatureCache::new();
    for _ in 0..3 {
        assert_eq!(core_detect::check_for(&cache, never, Feature::Sse2), false);
    }
}
