//! The capability catalog: the closed set of detectable x86 features, each
//! with a stable bit position in the capability bitset and a canonical name.
use vstd::prelude::*;
use vstd::string::*;

verus! {

/// A feature name that is not in the catalog.
#[derive(Clone, Copy, Debug, PartialEq, Eq, Structural)]
pub struct UnknownFeature;

/// One variant per detectable CPU capability. The bit position of each
/// variant in the capability bitset is given by `bit_of`.
#[derive(Clone, Copy, Debug, PartialEq, Eq, Structural)]
pub enum Feature {
    Aes,
    Pclmulqdq,
    Rdrand,
    Rdseed,
    Tsc,
    Sse,
    Sse2,
    Sse3,
    Ssse3,
    Sse41,
    Sse42,
    Sse4a,
    Sha,
    Avx,
    Avx2,
    Avx512f,
    Avx512cd,
    Avx512er,
    Avx512pf,
    Avx512bw,
    Avx512dq,
    Avx512vl,
    Avx512ifma,
    Avx512vbmi,
    Avx512vpopcntdq,
    Fma,
    Bmi1,
    Bmi2,
    Popcnt,
    Lzcnt,
    Tbm,
    Xsave,
    Xsaveopt,
    Xsavec,
    Xsaves,
    Cmpxchg16b,
    Adx,
    Rtm,
}

/// How many features the catalog holds; every bit position is below this.
pub const FEATURE_COUNT: u32 = 38;

/// The bit position of a feature in the capability bitset.
pub open spec fn bit_of(f: Feature) -> u32 {
    match f {
        Feature::Aes => 0,
        Feature::Pclmulqdq => 1,
        Feature::Rdrand => 2,
        Feature::Rdseed => 3,
        Feature::Tsc => 4,
        Feature::Sse => 5,
        Feature::Sse2 => 6,
        Feature::Sse3 => 7,
        Feature::Ssse3 => 8,
        Feature::Sse41 => 9,
        Feature::Sse42 => 10,
        Feature::Sse4a => 11,
        Feature::Sha => 12,
        Feature::Avx => 13,
        Feature::Avx2 => 14,
        Feature::Avx512f => 15,
        Feature::Avx512cd => 16,
        Feature::Avx512er => 17,
        Feature::Avx512pf => 18,
        Feature::Avx512bw => 19,
        Feature::Avx512dq => 20,
        Feature::Avx512vl => 21,
        Feature::Avx512ifma => 22,
        Feature::Avx512vbmi => 23,
        Feature::Avx512vpopcntdq => 24,
        Feature::Fma => 25,
        Feature::Bmi1 => 26,
        Feature::Bmi2 => 27,
        Feature::Popcnt => 28,
        Feature::Lzcnt => 29,
        Feature::Tbm => 30,
        Feature::Xsave => 31,
        Feature::Xsaveopt => 32,
        Feature::Xsavec => 33,
        Feature::Xsaves => 34,
        Feature::Cmpxchg16b => 35,
        Feature::Adx => 36,
        Feature::Rtm => 37,
    }
}

/// The canonical (display) name of a feature.
pub open spec fn name_of(f: Feature) -> Seq<char> {
    match f {
        Feature::Aes => "aes"@,
        Feature::Pclmulqdq => "pclmulqdq"@,
        Feature::Rdrand => "rdrand"@,
        Feature::Rdseed => "rdseed"@,
        Feature::Tsc => "tsc"@,
        Feature::Sse => "sse"@,
        Feature::Sse2 => "sse2"@,
        Feature::Sse3 => "sse3"@,
        Feature::Ssse3 => "ssse3"@,
        Feature::Sse41 => "sse4.1"@,
        Feature::Sse42 => "sse4.2"@,
        Feature::Sse4a => "sse4a"@,
        Feature::Sha => "sha"@,
        Feature::Avx => "avx"@,
        Feature::Avx2 => "avx2"@,
        Feature::Avx512f => "avx512f"@,
        Feature::Avx512cd => "avx512cd"@,
        Feature::Avx512er => "avx512er"@,
        Feature::Avx512pf => "avx512pf"@,
        Feature::Avx512bw => "avx512bw"@,
        Feature::Avx512dq => "avx512dq"@,
        Feature::Avx512vl => "avx512vl"@,
        Feature::Avx512ifma => "avx512ifma"@,
        Feature::Avx512vbmi => "avx512vbmi"@,
        Feature::Avx512vpopcntdq => "avx512vpopcntdq"@,
        Feature::Fma => "fma"@,
        Feature::Bmi1 => "bmi1"@,
        Feature::Bmi2 => "bmi2"@,
        Feature::Popcnt => "popcnt"@,
        Feature::Lzcnt => "lzcnt"@,
        Feature::Tbm => "tbm"@,
        Feature::Xsave => "xsave"@,
        Feature::Xsaveopt => "xsaveopt"@,
        Feature::Xsavec => "xsavec"@,
        Feature::Xsaves => "xsaves"@,
        Feature::Cmpxchg16b => "cmpxchg16b"@,
        Feature::Adx => "adx"@,
        Feature::Rtm => "rtm"@,
    }
}

/// A name resolves to a feature when it is the feature's canonical name, or
/// when it is "abm", AMD's historical name for the LZCNT capability.
pub open spec fn is_alias(name: Seq<char>, f: Feature) -> bool {
    name == name_of(f) || (name == "abm"@ && f == Feature::Lzcnt)
}

/// Exact character-for-character string equality.
fn str_eq(a: &str, b: &str) -> (r: bool)
    ensures
        r == (a@ == b@),
{
    let alen = a.unicode_len();
    let blen = b.unicode_len();
    if alen != blen {
        return false;
    }
    let mut i: usize = 0;
    while i < alen
        invariant
            alen == a@.len(),
            alen == b@.len(),
            i <= alen,
            forall|k: int| 0 <= k < i ==> a@[k] == b@[k],
        decreases alen - i,
    {
        if a.get_char(i) != b.get_char(i) {
            return false;
        }
        i = i + 1;
    }
    proof {
        assert(a@ =~= b@);
    }
    true
}

impl Feature {
    /// Resolves a feature name to its catalog entry; names outside the
    /// catalog are rejected with a typed error, never treated as absent.
    pub fn from_str(s: &str) -> (r: Result<Feature, UnknownFeature>)
        ensures
            match r {
                Ok(f) => is_alias(s@, f),
                Err(_) => forall|f: Feature| !is_alias(s@, f),
            },
    {
        if str_eq(s, "aes") {
            Ok(Feature::Aes)
        } else if str_eq(s, "pclmulqdq") {
            Ok(Feature::Pclmulqdq)
        } else if str_eq(s, "rdrand") {
            Ok(Feature::Rdrand)
        } else if str_eq(s, "rdseed") {
            Ok(Feature::Rdseed)
        } else if str_eq(s, "tsc") {
            Ok(Feature::Tsc)
        } else if str_eq(s, "sse") {
            Ok(Feature::Sse)
        } else if str_eq(s, "sse2") {
            Ok(Feature::Sse2)
        } else if str_eq(s, "sse3") {
            Ok(Feature::Sse3)
        } else if str_eq(s, "ssse3") {
            Ok(Feature::Ssse3)
        } else if str_eq(s, "sse4.1") {
            Ok(Feature::Sse41)
        } else if str_eq(s, "sse4.2") {
            Ok(Feature::Sse42)
        } else if str_eq(s, "sse4a") {
            Ok(Feature::Sse4a)
        } else if str_eq(s, "sha") {
            Ok(Feature::Sha)
        } else if str_eq(s, "avx") {
            Ok(Feature::Avx)
        } else if str_eq(s, "avx2") {
            Ok(Feature::Avx2)
        } else if str_eq(s, "avx512f") {
            Ok(Feature::Avx512f)
        } else if str_eq(s, "avx512cd") {
            Ok(Feature::Avx512cd)
        } else if str_eq(s, "avx512er") {
            Ok(Feature::Avx512er)
        } else if str_eq(s, "avx512pf") {
            Ok(Feature::Avx512pf)
        } else if str_eq(s, "avx512bw") {
            Ok(Feature::Avx512bw)
        } else if str_eq(s, "avx512dq") {
            Ok(Feature::Avx512dq)
        } else if str_eq(s, "avx512vl") {
            Ok(Feature::Avx512vl)
        } else if str_eq(s, "avx512ifma") {
            Ok(Feature::Avx512ifma)
        } else if str_eq(s, "avx512vbmi") {
            Ok(Feature::Avx512vbmi)
        } else if str_eq(s, "avx512vpopcntdq") {
            Ok(Feature::Avx512vpopcntdq)
        } else if str_eq(s, "fma") {
            Ok(Feature::Fma)
        } else if str_eq(s, "bmi1") {
            Ok(Feature::Bmi1)
        } else if str_eq(s, "bmi2") {
            Ok(Feature::Bmi2)
        } else if str_eq(s, "popcnt") {
            Ok(Feature::Popcnt)
        } else if str_eq(s, "abm") {
            Ok(Feature::Lzcnt)
        } else if str_eq(s, "lzcnt") {
            Ok(Feature::Lzcnt)
        } else if str_eq(s, "tbm") {
            Ok(Feature::Tbm)
        } else if str_eq(s, "xsave") {
            Ok(Feature::Xsave)
        } else if str_eq(s, "xsaveopt") {
            Ok(Feature::Xsaveopt)
        } else if str_eq(s, "xsavec") {
            Ok(Feature::Xsavec)
        } else if str_eq(s, "xsaves") {
            Ok(Feature::Xsaves)
        } else if str_eq(s, "cmpxchg16b") {
            Ok(Feature::Cmpxchg16b)
        } else if str_eq(s, "adx") {
            Ok(Feature::Adx)
        } else if str_eq(s, "rtm") {
            Ok(Feature::Rtm)
        } else {
            Err(UnknownFeature)
        }
    }

    /// The canonical display name, the inverse of `from_str` for every
    /// feature (the alias "abm" also maps to `Lzcnt`, whose canonical name
    /// is "lzcnt").
    pub fn to_str(self) -> (r: &'static str)
        ensures
            r@ == name_of(self),
    {
        match self {
            Feature::Aes => "aes",
            Feature::Pclmulqdq => "pclmulqdq",
            Feature::Rdrand => "rdrand",
            Feature::Rdseed => "rdseed",
            Feature::Tsc => "tsc",
            Feature::Sse => "sse",
            Feature::Sse2 => "sse2",
            Feature::Sse3 => "sse3",
            Feature::Ssse3 => "ssse3",
            Feature::Sse41 => "sse4.1",
            Feature::Sse42 => "sse4.2",
            Feature::Sse4a => "sse4a",
            Feature::Sha => "sha",
            Feature::Avx => "avx",
            Feature::Avx2 => "avx2",
            Feature::Avx512f => "avx512f",
            Feature::Avx512cd => "avx512cd",
            Feature::Avx512er => "avx512er",
            Feature::Avx512pf => "avx512pf",
            Feature::Avx512bw => "avx512bw",
            Feature::Avx512dq => "avx512dq",
            Feature::Avx512vl => "avx512vl",
            Feature::Avx512ifma => "avx512ifma",
            Feature::Avx512vbmi => "avx512vbmi",
            Feature::Avx512vpopcntdq => "avx512vpopcntdq",
            Feature::Fma => "fma",
            Feature::Bmi1 => "bmi1",
            Feature::Bmi2 => "bmi2",
            Feature::Popcnt => "popcnt",
            Feature::Lzcnt => "lzcnt",
            Feature::Tbm => "tbm",
            Feature::Xsave => "xsave",
            Feature::Xsaveopt => "xsaveopt",
            Feature::Xsavec => "xsavec",
            Feature::Xsaves => "xsaves",
            Feature::Cmpxchg16b => "cmpxchg16b",
            Feature::Adx => "adx",
            Feature::Rtm => "rtm",
        }
    }

    /// The bit position of this feature in the capability bitset.
    pub fn bit_position(self) -> (r: u32)
        ensures
            r == bit_of(self),
            r < FEATURE_COUNT,
    {
        match self {
            Feature::Aes => 0,
            Feature::Pclmulqdq => 1,
            Feature::Rdrand => 2,
            Feature::Rdseed => 3,
            Feature::Tsc => 4,
            Feature::Sse => 5,
            Feature::Sse2 => 6,
            Feature::Sse3 => 7,
            Feature::Ssse3 => 8,
            Feature::Sse41 => 9,
            Feature::Sse42 => 10,
            Feature::Sse4a => 11,
            Feature::Sha => 12,
            Feature::Avx => 13,
            Feature::Avx2 => 14,
            Feature::Avx512f => 15,
            Feature::Avx512cd => 16,
            Feature::Avx512er => 17,
            Feature::Avx512pf => 18,
            Feature::Avx512bw => 19,
            Feature::Avx512dq => 20,
            Feature::Avx512vl => 21,
            Feature::Avx512ifma => 22,
            Feature::Avx512vbmi => 23,
            Feature::Avx512vpopcntdq => 24,
            Feature::Fma => 25,
            Feature::Bmi1 => 26,
            Feature::Bmi2 => 27,
            Feature::Popcnt => 28,
            Feature::Lzcnt => 29,
            Feature::Tbm => 30,
            Feature::Xsave => 31,
            Feature::Xsaveopt => 32,
            Feature::Xsavec => 33,
            Feature::Xsaves => 34,
            Feature::Cmpxchg16b => 35,
            Feature::Adx => 36,
            Feature::Rtm => 37,
        }
    }
}

/// Law: catalog totality. Every feature's display name resolves back to
/// that feature, no two features share a display name, no two features
/// share a bit position, and every bit position is inside the bitset.
#[verifier::rlimit(100)]
pub proof fn lemma_catalog_total()
    ensures
        forall|f: Feature| #[trigger] is_alias(name_of(f), f),
        forall|f1: Feature, f2: Feature| name_of(f1) == name_of(f2) ==> f1 == f2,
        forall|f1: Feature, f2: Feature| bit_of(f1) == bit_of(f2) ==> f1 == f2,
        forall|f: Feature| #[trigger] bit_of(f) < FEATURE_COUNT,
{
    reveal_strlit("aes");
    reveal_strlit("pclmulqdq");
    reveal_strlit("rdrand");
    reveal_strlit("rdseed");
    reveal_strlit("tsc");
    reveal_strlit("sse");
    reveal_strlit("sse2");
    reveal_strlit("sse3");
    reveal_strlit("ssse3");
    reveal_strlit("sse4.1");
    reveal_strlit("sse4.2");
    reveal_strlit("sse4a");
    reveal_strlit("sha");
    reveal_strlit("avx");
    reveal_strlit("avx2");
    reveal_strlit("avx512f");
    reveal_strlit("avx512cd");
    reveal_strlit("avx512er");
    reveal_strlit("avx512pf");
    reveal_strlit("avx512bw");
    reveal_strlit("avx512dq");
    reveal_strlit("avx512vl");
    reveal_strlit("avx512ifma");
    reveal_strlit("avx512vbmi");
    reveal_strlit("avx512vpopcntdq");
    reveal_strlit("fma");
    reveal_strlit("bmi1");
    reveal_strlit("bmi2");
    reveal_strlit("popcnt");
    reveal_strlit("abm");
    reveal_strlit("lzcnt");
    reveal_strlit("tbm");
    reveal_strlit("xsave");
    reveal_strlit("xsaveopt");
    reveal_strlit("xsavec");
    reveal_strlit("xsaves");
    reveal_strlit("cmpxchg16b");
    reveal_strlit("adx");
    reveal_strlit("rtm");
    assert("aes"@.len() == 3 && "aes"@[0] == 'a' && "aes"@[1] == 'e' && "aes"@[2] == 's');
    assert("pclmulqdq"@.len() == 9 && "pclmulqdq"@[0] == 'p' && "pclmulqdq"@[1] == 'c'
        && "pclmulqdq"@[2] == 'l' && "pclmulqdq"@[8] == 'q');
    assert("rdrand"@.len() == 6 && "rdrand"@[0] == 'r' && "rdrand"@[1] == 'd' && "rdrand"@[2]
        == 'r' && "rdrand"@[5] == 'd');
    assert("rdseed"@.len() == 6 && "rdseed"@[0] == 'r' && "rdseed"@[1] == 'd' && "rdseed"@[2]
        == 's' && "rdseed"@[5] == 'd');
    assert("tsc"@.len() == 3 && "tsc"@[0] == 't' && "tsc"@[1] == 's' && "tsc"@[2] == 'c');
    assert("sse"@.len() == 3 && "sse"@[0] == 's' && "sse"@[1] == 's' && "sse"@[2] == 'e');
    assert("sse2"@.len() == 4 && "sse2"@[0] == 's' && "sse2"@[1] == 's' && "sse2"@[2] == 'e'
        && "sse2"@[3] == '2');
    assert("sse3"@.len() == 4 && "sse3"@[0] == 's' && "sse3"@[1] == 's' && "sse3"@[2] == 'e'
        && "sse3"@[3] == '3');
    assert("ssse3"@.len() == 5 && "ssse3"@[0] == 's' && "ssse3"@[1] == 's' && "ssse3"@[2] == 's'
        && "ssse3"@[4] == '3');
    assert("sse4.1"@.len() == 6 && "sse4.1"@[0] == 's' && "sse4.1"@[1] == 's' && "sse4.1"@[2]
        == 'e' && "sse4.1"@[5] == '1');
    assert("sse4.2"@.len() == 6 && "sse4.2"@[0] == 's' && "sse4.2"@[1] == 's' && "sse4.2"@[2]
        == 'e' && "sse4.2"@[5] == '2');
    assert("sse4a"@.len() == 5 && "sse4a"@[0] == 's' && "sse4a"@[1] == 's' && "sse4a"@[2] == 'e'
        && "sse4a"@[4] == 'a');
    assert("sha"@.len() == 3 && "sha"@[0] == 's' && "sha"@[1] == 'h' && "sha"@[2] == 'a');
    assert("avx"@.len() == 3 && "avx"@[0] == 'a' && "avx"@[1] == 'v' && "avx"@[2] == 'x');
    assert("avx2"@.len() == 4 && "avx2"@[0] == 'a' && "avx2"@[1] == 'v' && "avx2"@[2] == 'x'
        && "avx2"@[3] == '2');
    assert("avx512f"@.len() == 7 && "avx512f"@[0] == 'a' && "avx512f"@[6] == 'f');
    assert("avx512cd"@.len() == 8 && "avx512cd"@[0] == 'a' && "avx512cd"@[1] == 'v'
        && "avx512cd"@[2] == 'x' && "avx512cd"@[7] == 'd');
    assert("avx512er"@.len() == 8 && "avx512er"@[0] == 'a' && "avx512er"@[1] == 'v'
        && "avx512er"@[2] == 'x' && "avx512er"@[7] == 'r');
    assert("avx512pf"@.len() == 8 && "avx512pf"@[0] == 'a' && "avx512pf"@[1] == 'v'
        && "avx512pf"@[2] == 'x' && "avx512pf"@[7] == 'f');
    assert("avx512bw"@.len() == 8 && "avx512bw"@[0] == 'a' && "avx512bw"@[1] == 'v'
        && "avx512bw"@[2] == 'x' && "avx512bw"@[7] == 'w');
    assert("avx512dq"@.len() == 8 && "avx512dq"@[0] == 'a' && "avx512dq"@[1] == 'v'
        && "avx512dq"@[2] == 'x' && "avx512dq"@[7] == 'q');
    assert("avx512vl"@.len() == 8 && "avx512vl"@[0] == 'a' && "avx512vl"@[1] == 'v'
        && "avx512vl"@[2] == 'x' && "avx512vl"@[7] == 'l');
    assert("avx512ifma"@.len() == 10 && "avx512ifma"@[0] == 'a' && "avx512ifma"@[1] == 'v'
        && "avx512ifma"@[2] == 'x' && "avx512ifma"@[9] == 'a');
    assert("avx512vbmi"@.len() == 10 && "avx512vbmi"@[0] == 'a' && "avx512vbmi"@[1] == 'v'
        && "avx512vbmi"@[2] == 'x' && "avx512vbmi"@[9] == 'i');
    assert("avx512vpopcntdq"@.len() == 15 && "avx512vpopcntdq"@[0] == 'a');
    assert("fma"@.len() == 3 && "fma"@[0] == 'f' && "fma"@[1] == 'm' && "fma"@[2] == 'a');
    assert("bmi1"@.len() == 4 && "bmi1"@[0] == 'b' && "bmi1"@[1] == 'm' && "bmi1"@[2] == 'i'
        && "bmi1"@[3] == '1');
    assert("bmi2"@.len() == 4 && "bmi2"@[0] == 'b' && "bmi2"@[1] == 'm' && "bmi2"@[2] == 'i'
        && "bmi2"@[3] == '2');
    assert("popcnt"@.len() == 6 && "popcnt"@[0] == 'p' && "popcnt"@[1] == 'o' && "popcnt"@[2]
        == 'p' && "popcnt"@[5] == 't');
    assert("lzcnt"@.len() == 5 && "lzcnt"@[0] == 'l' && "lzcnt"@[1] == 'z' && "lzcnt"@[2] == 'c'
        && "lzcnt"@[4] == 't');
    assert("tbm"@.len() == 3 && "tbm"@[0] == 't' && "tbm"@[1] == 'b' && "tbm"@[2] == 'm');
    assert("xsave"@.len() == 5 && "xsave"@[0] == 'x' && "xsave"@[1] == 's' && "xsave"@[2] == 'a'
        && "xsave"@[4] == 'e');
    assert("xsaveopt"@.len() == 8 && "xsaveopt"@[0] == 'x' && "xsaveopt"@[1] == 's'
        && "xsaveopt"@[2] == 'a' && "xsaveopt"@[7] == 't');
    assert("xsavec"@.len() == 6 && "xsavec"@[0] == 'x' && "xsavec"@[1] == 's' && "xsavec"@[2]
        == 'a' && "xsavec"@[5] == 'c');
    assert("xsaves"@.len() == 6 && "xsaves"@[0] == 'x' && "xsaves"@[1] == 's' && "xsaves"@[2]
        == 'a' && "xsaves"@[5] == 's');
    assert("cmpxchg16b"@.len() == 10 && "cmpxchg16b"@[0] == 'c' && "cmpxchg16b"@[1] == 'm'
        && "cmpxchg16b"@[2] == 'p' && "cmpxchg16b"@[9] == 'b');
    assert("adx"@.len() == 3 && "adx"@[0] == 'a' && "adx"@[1] == 'd' && "adx"@[2] == 'x');
    assert("rtm"@.len() == 3 && "rtm"@[0] == 'r' && "rtm"@[1] == 't' && "rtm"@[2] == 'm');
}

} // verus!
