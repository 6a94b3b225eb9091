//! The CPUID query engine: a build-time safety classification gates whether
//! the identification instruction may be issued at all; when it may, the
//! engine reads the leaves that cover the whole capability catalog (never
//! querying past the hardware's advertised maximum leaf) and decodes them
//! into a single capability bitset, ANDing every AVX-family bit with the
//! OS-enablement state read from XCR0.
use vstd::prelude::*;

use crate::catalog::{bit_of, Feature, FEATURE_COUNT};
use crate::{bit32, bit64, lemma_zero_word_clear, set_bit64, test_bit32};

verus! {

/// Whether issuing the identification instruction is known-safe on the
/// compilation target: known-unsafe (`Never`), known-safe (`Always`), or
/// unknown (`Cautious`), which defaults to not probing.
#[derive(Clone, Copy, Debug, PartialEq, Eq, Structural)]
pub enum SafetyClassification {
    Never,
    Cautious,
    Always,
}

/// The safety classification for a build, together with the explicit
/// opt-in that upgrades `Cautious` from "assume unsafe" to "assume safe".
#[derive(Clone, Copy, Debug, PartialEq, Eq, Structural)]
pub struct SafetyPolicy {
    pub classification: SafetyClassification,
    pub cautious_assume_safe: bool,
}

impl SafetyPolicy {
    /// Whether this policy lets the engine execute CPUID.
    pub open spec fn permits_probe_spec(self) -> bool {
        match self.classification {
            SafetyClassification::Never => false,
            SafetyClassification::Cautious => self.cautious_assume_safe,
            SafetyClassification::Always => true,
        }
    }

    /// Whether this policy lets the engine execute CPUID.
    pub fn permits_probe(&self) -> (r: bool)
        ensures
            r == self.permits_probe_spec(),
    {
        match self.classification {
            SafetyClassification::Never => false,
            SafetyClassification::Cautious => self.cautious_assume_safe,
            SafetyClassification::Always => true,
        }
    }
}

/// The classification resolved for this build: CPUID is architecturally
/// guaranteed on 64-bit x86 targets, so probing is always safe here.
pub fn target_policy() -> (p: SafetyPolicy)
    ensures
        p.permits_probe_spec(),
{
    SafetyPolicy { classification: SafetyClassification::Always, cautious_assume_safe: false }
}

/// One hardware response: the raw register words of every CPUID leaf the
/// engine reads, plus the raw XCR0 value. A leaf that was not queried
/// (because the hardware does not advertise it, or because the XSAVE gate
/// for XGETBV was closed) is recorded as zero, so an unqueried word never
/// contributes a feature.
#[derive(Clone, Copy, Debug, PartialEq, Eq, Structural)]
pub struct CpuInfo {
    /// EAX of leaf 0: the highest supported standard leaf.
    pub max_leaf: u32,
    /// ECX of leaf 1: baseline feature word.
    pub proc_ecx: u32,
    /// EDX of leaf 1: baseline feature word.
    pub proc_edx: u32,
    /// EBX of leaf 7, sub-leaf 0: extended feature word.
    pub ext7_ebx: u32,
    /// ECX of leaf 7, sub-leaf 0: extended feature word.
    pub ext7_ecx: u32,
    /// EAX of leaf 0x8000_0000: the highest supported extended leaf.
    pub max_ext_leaf: u32,
    /// ECX of leaf 0x8000_0001: vendor-extended feature word.
    pub ext1_ecx: u32,
    /// The XCR0 extended control register, read via XGETBV.
    pub xcr0: u64,
    /// EAX of leaf 0xD, sub-leaf 1: XSAVE sub-feature word.
    pub xstate1_eax: u32,
}

/// The CPU supports XSAVE.
pub open spec fn cpu_has_xsave(info: CpuInfo) -> bool {
    bit32(info.proc_ecx, 26)
}

/// The CPU supports XSAVE and the OS has enabled XGETBV (OSXSAVE).
pub open spec fn os_has_xsave(info: CpuInfo) -> bool {
    cpu_has_xsave(info) && bit32(info.proc_ecx, 27)
}

/// The OS saves and restores the AVX register state (XCR0 bits 1 and 2).
pub open spec fn os_has_avx(info: CpuInfo) -> bool {
    os_has_xsave(info) && info.xcr0 & 6 == 6
}

/// The OS also saves and restores the AVX-512 register state
/// (XCR0 bits 5, 6 and 7 on top of the AVX state).
pub open spec fn os_has_avx512(info: CpuInfo) -> bool {
    os_has_xsave(info) && info.xcr0 & 0xe6 == 0xe6
}

/// Which bit of which leaf word grants each feature, with every
/// AVX-family feature ANDed with the OS-enablement state from XCR0.
pub open spec fn feature_in(info: CpuInfo, f: Feature) -> bool {
    match f {
        Feature::Aes => bit32(info.proc_ecx, 25),
        Feature::Pclmulqdq => bit32(info.proc_ecx, 1),
        Feature::Rdrand => bit32(info.proc_ecx, 30),
        Feature::Rdseed => bit32(info.ext7_ebx, 18),
        Feature::Tsc => bit32(info.proc_edx, 4),
        Feature::Sse => bit32(info.proc_edx, 25),
        Feature::Sse2 => bit32(info.proc_edx, 26),
        Feature::Sse3 => bit32(info.proc_ecx, 0),
        Feature::Ssse3 => bit32(info.proc_ecx, 9),
        Feature::Sse41 => bit32(info.proc_ecx, 19),
        Feature::Sse42 => bit32(info.proc_ecx, 20),
        Feature::Sse4a => bit32(info.ext1_ecx, 6),
        Feature::Sha => bit32(info.ext7_ebx, 29),
        Feature::Avx => os_has_avx(info) && bit32(info.proc_ecx, 28),
        Feature::Avx2 => os_has_avx(info) && bit32(info.ext7_ebx, 5),
        Feature::Avx512f => os_has_avx512(info) && bit32(info.ext7_ebx, 16),
        Feature::Avx512cd => os_has_avx512(info) && bit32(info.ext7_ebx, 28),
        Feature::Avx512er => os_has_avx512(info) && bit32(info.ext7_ebx, 27),
        Feature::Avx512pf => os_has_avx512(info) && bit32(info.ext7_ebx, 26),
        Feature::Avx512bw => os_has_avx512(info) && bit32(info.ext7_ebx, 30),
        Feature::Avx512dq => os_has_avx512(info) && bit32(info.ext7_ebx, 17),
        Feature::Avx512vl => os_has_avx512(info) && bit32(info.ext7_ebx, 31),
        Feature::Avx512ifma => os_has_avx512(info) && bit32(info.ext7_ebx, 21),
        Feature::Avx512vbmi => os_has_avx512(info) && bit32(info.ext7_ecx, 1),
        Feature::Avx512vpopcntdq => os_has_avx512(info) && bit32(info.ext7_ecx, 14),
        Feature::Fma => bit32(info.proc_ecx, 12),
        Feature::Bmi1 => bit32(info.ext7_ebx, 3),
        Feature::Bmi2 => bit32(info.ext7_ebx, 8),
        Feature::Popcnt => bit32(info.proc_ecx, 23),
        Feature::Lzcnt => bit32(info.ext1_ecx, 5),
        Feature::Tbm => bit32(info.ext1_ecx, 21),
        Feature::Xsave => bit32(info.proc_ecx, 26),
        Feature::Xsaveopt => os_has_avx(info) && bit32(info.xstate1_eax, 0),
        Feature::Xsavec => os_has_avx(info) && bit32(info.xstate1_eax, 1),
        Feature::Xsaves => os_has_avx(info) && bit32(info.xstate1_eax, 3),
        Feature::Cmpxchg16b => bit32(info.proc_ecx, 13),
        Feature::Adx => bit32(info.ext7_ebx, 19),
        Feature::Rtm => bit32(info.ext7_ebx, 11),
    }
}

/// `bits` is the capability bitset decoded from `info`: every feature's
/// bit reflects `feature_in`, and the bits above the catalog are clear.
pub open spec fn engine_result(info: CpuInfo, bits: u64) -> bool {
    &&& bit64(bits, 0) == feature_in(info, Feature::Aes)
    &&& bit64(bits, 1) == feature_in(info, Feature::Pclmulqdq)
    &&& bit64(bits, 2) == feature_in(info, Feature::Rdrand)
    &&& bit64(bits, 3) == feature_in(info, Feature::Rdseed)
    &&& bit64(bits, 4) == feature_in(info, Feature::Tsc)
    &&& bit64(bits, 5) == feature_in(info, Feature::Sse)
    &&& bit64(bits, 6) == feature_in(info, Feature::Sse2)
    &&& bit64(bits, 7) == feature_in(info, Feature::Sse3)
    &&& bit64(bits, 8) == feature_in(info, Feature::Ssse3)
    &&& bit64(bits, 9) == feature_in(info, Feature::Sse41)
    &&& bit64(bits, 10) == feature_in(info, Feature::Sse42)
    &&& bit64(bits, 11) == feature_in(info, Feature::Sse4a)
    &&& bit64(bits, 12) == feature_in(info, Feature::Sha)
    &&& bit64(bits, 13) == feature_in(info, Feature::Avx)
    &&& bit64(bits, 14) == feature_in(info, Feature::Avx2)
    &&& bit64(bits, 15) == feature_in(info, Feature::Avx512f)
    &&& bit64(bits, 16) == feature_in(info, Feature::Avx512cd)
    &&& bit64(bits, 17) == feature_in(info, Feature::Avx512er)
    &&& bit64(bits, 18) == feature_in(info, Feature::Avx512pf)
    &&& bit64(bits, 19) == feature_in(info, Feature::Avx512bw)
    &&& bit64(bits, 20) == feature_in(info, Feature::Avx512dq)
    &&& bit64(bits, 21) == feature_in(info, Feature::Avx512vl)
    &&& bit64(bits, 22) == feature_in(info, Feature::Avx512ifma)
    &&& bit64(bits, 23) == feature_in(info, Feature::Avx512vbmi)
    &&& bit64(bits, 24) == feature_in(info, Feature::Avx512vpopcntdq)
    &&& bit64(bits, 25) == feature_in(info, Feature::Fma)
    &&& bit64(bits, 26) == feature_in(info, Feature::Bmi1)
    &&& bit64(bits, 27) == feature_in(info, Feature::Bmi2)
    &&& bit64(bits, 28) == feature_in(info, Feature::Popcnt)
    &&& bit64(bits, 29) == feature_in(info, Feature::Lzcnt)
    &&& bit64(bits, 30) == feature_in(info, Feature::Tbm)
    &&& bit64(bits, 31) == feature_in(info, Feature::Xsave)
    &&& bit64(bits, 32) == feature_in(info, Feature::Xsaveopt)
    &&& bit64(bits, 33) == feature_in(info, Feature::Xsavec)
    &&& bit64(bits, 34) == feature_in(info, Feature::Xsaves)
    &&& bit64(bits, 35) == feature_in(info, Feature::Cmpxchg16b)
    &&& bit64(bits, 36) == feature_in(info, Feature::Adx)
    &&& bit64(bits, 37) == feature_in(info, Feature::Rtm)
    &&& forall|j: u32| FEATURE_COUNT <= j < 64 ==> !bit64(bits, j)
}

/// Relies on `core::arch::x86_64::__cpuid_count`: executes the CPUID
/// instruction for the given leaf and sub-leaf and returns the four result
/// registers as (eax, ebx, ecx, edx). The result depends on the processor,
/// so nothing is assumed about it.
#[verifier::external_body]
fn cpuid_leaf(leaf: u32, sub_leaf: u32) -> (u32, u32, u32, u32) {
    let r = core::arch::x86_64::__cpuid_count(leaf, sub_leaf);
    (r.eax, r.ebx, r.ecx, r.edx)
}

/// Relies on `x86_64::registers::xcontrol::XCr0::read_raw`: executes
/// XGETBV with ECX = 0 and returns the raw XCR0 value. XGETBV raises an
/// invalid-opcode fault unless the OS has enabled XSAVE, so the caller
/// must pass the ECX word of CPUID leaf 1 and the precondition demands
/// its XSAVE and OSXSAVE bits. The value read depends on the machine, so
/// nothing is assumed about it.
#[verifier::external_body]
fn read_xcr0(_proc_ecx: u32) -> u64
    requires
        bit32(_proc_ecx, 26),
        bit32(_proc_ecx, 27),
{
    x86_64::registers::xcontrol::XCr0::read_raw()
}

/// Issues the identification instruction for every leaf the catalog needs,
/// gating each leaf on the hardware's advertised maximum so that no leaf
/// beyond it is ever queried, and gating XGETBV on the OSXSAVE bit.
/// Unqueried words are zero, which the postconditions record.
fn query_hardware() -> (info: CpuInfo)
    ensures
        info.max_leaf < 1 ==> info.proc_ecx == 0 && info.proc_edx == 0,
        info.max_leaf < 7 ==> info.ext7_ebx == 0 && info.ext7_ecx == 0,
        info.max_ext_leaf < 0x8000_0001 ==> info.ext1_ecx == 0,
        !os_has_xsave(info) ==> info.xcr0 == 0,
        !os_has_avx(info) || info.max_leaf < 0xd ==> info.xstate1_eax == 0,
{
    let (max_leaf, _ebx0, _ecx0, _edx0) = cpuid_leaf(0, 0);
    let mut proc_ecx: u32 = 0;
    let mut proc_edx: u32 = 0;
    if max_leaf >= 1 {
        let (_a1, _b1, c1, d1) = cpuid_leaf(1, 0);
        proc_ecx = c1;
        proc_edx = d1;
    }
    let mut ext7_ebx: u32 = 0;
    let mut ext7_ecx: u32 = 0;
    if max_leaf >= 7 {
        let (_a7, b7, c7, _d7) = cpuid_leaf(7, 0);
        ext7_ebx = b7;
        ext7_ecx = c7;
    }
    let (max_ext_leaf, _bx, _cx, _dx) = cpuid_leaf(0x8000_0000, 0);
    let mut ext1_ecx: u32 = 0;
    if max_ext_leaf >= 0x8000_0001 {
        let (_ae, _be, ce, _de) = cpuid_leaf(0x8000_0001, 0);
        ext1_ecx = ce;
    }
    let mut xcr0: u64 = 0;
    if test_bit32(proc_ecx, 26) && test_bit32(proc_ecx, 27) {
        xcr0 = read_xcr0(proc_ecx);
    }
    let mut xstate1_eax: u32 = 0;
    if test_bit32(proc_ecx, 26) && test_bit32(proc_ecx, 27) && (xcr0 & 6) == 6 && max_leaf >= 0xd {
        let (ax, _bs, _cs, _ds) = cpuid_leaf(0xd, 1);
        xstate1_eax = ax;
    }
    CpuInfo {
        max_leaf,
        proc_ecx,
        proc_edx,
        ext7_ebx,
        ext7_ecx,
        max_ext_leaf,
        ext1_ecx,
        xcr0,
        xstate1_eax,
    }
}

/// Decodes the baseline feature words of leaf 1 and the vendor-extended word
/// into bits 0 to 12 of the accumulator, leaving every other bit unchanged.
fn decode_baseline(info: CpuInfo, acc: u64) -> (w: u64)
    ensures
        bit64(w, 0) == feature_in(info, Feature::Aes),
        bit64(w, 1) == feature_in(info, Feature::Pclmulqdq),
        bit64(w, 2) == feature_in(info, Feature::Rdrand),
        bit64(w, 3) == feature_in(info, Feature::Rdseed),
        bit64(w, 4) == feature_in(info, Feature::Tsc),
        bit64(w, 5) == feature_in(info, Feature::Sse),
        bit64(w, 6) == feature_in(info, Feature::Sse2),
        bit64(w, 7) == feature_in(info, Feature::Sse3),
        bit64(w, 8) == feature_in(info, Feature::Ssse3),
        bit64(w, 9) == feature_in(info, Feature::Sse41),
        bit64(w, 10) == feature_in(info, Feature::Sse42),
        bit64(w, 11) == feature_in(info, Feature::Sse4a),
        bit64(w, 12) == feature_in(info, Feature::Sha),
        forall|j: u32| j < 64 && !(0 <= j < 13) ==> bit64(w, j) == bit64(acc, j),
{
    let mut w: u64 = acc;
    w = set_bit64(w, 0, test_bit32(info.proc_ecx, 25));
    proof {
        assert(bit64(w, 0) == feature_in(info, Feature::Aes));
        assert(forall|j: u32| j < 64 && !(0 <= j < 13) ==> bit64(w, j) == bit64(acc, j));
    }
    w = set_bit64(w, 1, test_bit32(info.proc_ecx, 1));
    proof {
        assert(bit64(w, 1) == feature_in(info, Feature::Pclmulqdq));
        assert(forall|j: u32| j < 64 && !(0 <= j < 13) ==> bit64(w, j) == bit64(acc, j));
    }
    w = set_bit64(w, 2, test_bit32(info.proc_ecx, 30));
    proof {
        assert(bit64(w, 2) == feature_in(info, Feature::Rdrand));
        assert(forall|j: u32| j < 64 && !(0 <= j < 13) ==> bit64(w, j) == bit64(acc, j));
    }
    w = set_bit64(w, 3, test_bit32(info.ext7_ebx, 18));
    proof {
        assert(bit64(w, 3) == feature_in(info, Feature::Rdseed));
        assert(forall|j: u32| j < 64 && !(0 <= j < 13) ==> bit64(w, j) == bit64(acc, j));
    }
    w = set_bit64(w, 4, test_bit32(info.proc_edx, 4));
    proof {
        assert(bit64(w, 4) == feature_in(info, Feature::Tsc));
        assert(forall|j: u32| j < 64 && !(0 <= j < 13) ==> bit64(w, j) == bit64(acc, j));
    }
    w = set_bit64(w, 5, test_bit32(info.proc_edx, 25));
    proof {
        assert(bit64(w, 5) == feature_in(info, Feature::Sse));
        assert(forall|j: u32| j < 64 && !(0 <= j < 13) ==> bit64(w, j) == bit64(acc, j));
    }
    w = set_bit64(w, 6, test_bit32(info.proc_edx, 26));
    proof {
        assert(bit64(w, 6) == feature_in(info, Feature::Sse2));
        assert(forall|j: u32| j < 64 && !(0 <= j < 13) ==> bit64(w, j) == bit64(acc, j));
    }
    w = set_bit64(w, 7, test_bit32(info.proc_ecx, 0));
    proof {
        assert(bit64(w, 7) == feature_in(info, Feature::Sse3));
        assert(forall|j: u32| j < 64 && !(0 <= j < 13) ==> bit64(w, j) == bit64(acc, j));
    }
    w = set_bit64(w, 8, test_bit32(info.proc_ecx, 9));
    proof {
        assert(bit64(w, 8) == feature_in(info, Feature::Ssse3));
        assert(forall|j: u32| j < 64 && !(0 <= j < 13) ==> bit64(w, j) == bit64(acc, j));
    }
    w = set_bit64(w, 9, test_bit32(info.proc_ecx, 19));
    proof {
        assert(bit64(w, 9) == feature_in(info, Feature::Sse41));
        assert(forall|j: u32| j < 64 && !(0 <= j < 13) ==> bit64(w, j) == bit64(acc, j));
    }
    w = set_bit64(w, 10, test_bit32(info.proc_ecx, 20));
    proof {
        assert(bit64(w, 10) == feature_in(info, Feature::Sse42));
        assert(forall|j: u32| j < 64 && !(0 <= j < 13) ==> bit64(w, j) == bit64(acc, j));
    }
    w = set_bit64(w, 11, test_bit32(info.ext1_ecx, 6));
    proof {
        assert(bit64(w, 11) == feature_in(info, Feature::Sse4a));
        assert(forall|j: u32| j < 64 && !(0 <= j < 13) ==> bit64(w, j) == bit64(acc, j));
    }
    w = set_bit64(w, 12, test_bit32(info.ext7_ebx, 29));
    proof {
        assert(bit64(w, 12) == feature_in(info, Feature::Sha));
        assert(forall|j: u32| j < 64 && !(0 <= j < 13) ==> bit64(w, j) == bit64(acc, j));
    }
    w
}

/// Decodes the AVX and AVX-512 families, each ANDed with the OS-enablement state from XCR0
/// into bits 13 to 24 of the accumulator, leaving every other bit unchanged.
fn decode_vector_state(info: CpuInfo, acc: u64, os_avx: bool, os_avx512: bool) -> (w: u64)
    requires
        os_avx == os_has_avx(info),
        os_avx512 == os_has_avx512(info),
    ensures
        bit64(w, 13) == feature_in(info, Feature::Avx),
        bit64(w, 14) == feature_in(info, Feature::Avx2),
        bit64(w, 15) == feature_in(info, Feature::Avx512f),
        bit64(w, 16) == feature_in(info, Feature::Avx512cd),
        bit64(w, 17) == feature_in(info, Feature::Avx512er),
        bit64(w, 18) == feature_in(info, Feature::Avx512pf),
        bit64(w, 19) == feature_in(info, Feature::Avx512bw),
        bit64(w, 20) == feature_in(info, Feature::Avx512dq),
        bit64(w, 21) == feature_in(info, Feature::Avx512vl),
        bit64(w, 22) == feature_in(info, Feature::Avx512ifma),
        bit64(w, 23) == feature_in(info, Feature::Avx512vbmi),
        bit64(w, 24) == feature_in(info, Feature::Avx512vpopcntdq),
        forall|j: u32| j < 64 && !(13 <= j < 25) ==> bit64(w, j) == bit64(acc, j),
{
    let mut w: u64 = acc;
    w = set_bit64(w, 13, os_avx && test_bit32(info.proc_ecx, 28));
    proof {
        assert(bit64(w, 13) == feature_in(info, Feature::Avx));
        assert(forall|j: u32| j < 64 && !(13 <= j < 25) ==> bit64(w, j) == bit64(acc, j));
    }
    w = set_bit64(w, 14, os_avx && test_bit32(info.ext7_ebx, 5));
    proof {
        assert(bit64(w, 14) == feature_in(info, Feature::Avx2));
        assert(forall|j: u32| j < 64 && !(13 <= j < 25) ==> bit64(w, j) == bit64(acc, j));
    }
    w = set_bit64(w, 15, os_avx512 && test_bit32(info.ext7_ebx, 16));
    proof {
        assert(bit64(w, 15) == feature_in(info, Feature::Avx512f));
        assert(forall|j: u32| j < 64 && !(13 <= j < 25) ==> bit64(w, j) == bit64(acc, j));
    }
    w = set_bit64(w, 16, os_avx512 && test_bit32(info.ext7_ebx, 28));
    proof {
        assert(bit64(w, 16) == feature_in(info, Feature::Avx512cd));
        assert(forall|j: u32| j < 64 && !(13 <= j < 25) ==> bit64(w, j) == bit64(acc, j));
    }
    w = set_bit64(w, 17, os_avx512 && test_bit32(info.ext7_ebx, 27));
    proof {
        assert(bit64(w, 17) == feature_in(info, Feature::Avx512er));
        assert(forall|j: u32| j < 64 && !(13 <= j < 25) ==> bit64(w, j) == bit64(acc, j));
    }
    w = set_bit64(w, 18, os_avx512 && test_bit32(info.ext7_ebx, 26));
    proof {
        assert(bit64(w, 18) == feature_in(info, Feature::Avx512pf));
        assert(forall|j: u32| j < 64 && !(13 <= j < 25) ==> bit64(w, j) == bit64(acc, j));
    }
    w = set_bit64(w, 19, os_avx512 && test_bit32(info.ext7_ebx, 30));
    proof {
        assert(bit64(w, 19) == feature_in(info, Feature::Avx512bw));
        assert(forall|j: u32| j < 64 && !(13 <= j < 25) ==> bit64(w, j) == bit64(acc, j));
    }
    w = set_bit64(w, 20, os_avx512 && test_bit32(info.ext7_ebx, 17));
    proof {
        assert(bit64(w, 20) == feature_in(info, Feature::Avx512dq));
        assert(forall|j: u32| j < 64 && !(13 <= j < 25) ==> bit64(w, j) == bit64(acc, j));
    }
    w = set_bit64(w, 21, os_avx512 && test_bit32(info.ext7_ebx, 31));
    proof {
        assert(bit64(w, 21) == feature_in(info, Feature::Avx512vl));
        assert(forall|j: u32| j < 64 && !(13 <= j < 25) ==> bit64(w, j) == bit64(acc, j));
    }
    w = set_bit64(w, 22, os_avx512 && test_bit32(info.ext7_ebx, 21));
    proof {
        assert(bit64(w, 22) == feature_in(info, Feature::Avx512ifma));
        assert(forall|j: u32| j < 64 && !(13 <= j < 25) ==> bit64(w, j) == bit64(acc, j));
    }
    w = set_bit64(w, 23, os_avx512 && test_bit32(info.ext7_ecx, 1));
    proof {
        assert(bit64(w, 23) == feature_in(info, Feature::Avx512vbmi));
        assert(forall|j: u32| j < 64 && !(13 <= j < 25) ==> bit64(w, j) == bit64(acc, j));
    }
    w = set_bit64(w, 24, os_avx512 && test_bit32(info.ext7_ecx, 14));
    proof {
        assert(bit64(w, 24) == feature_in(info, Feature::Avx512vpopcntdq));
        assert(forall|j: u32| j < 64 && !(13 <= j < 25) ==> bit64(w, j) == bit64(acc, j));
    }
    w
}

/// Decodes the remaining extended and XSAVE sub-feature words
/// into bits 25 to 37 of the accumulator, leaving every other bit unchanged.
fn decode_extended(info: CpuInfo, acc: u64, os_avx: bool, os_avx512: bool) -> (w: u64)
    requires
        os_avx == os_has_avx(info),
        os_avx512 == os_has_avx512(info),
    ensures
        bit64(w, 25) == feature_in(info, Feature::Fma),
        bit64(w, 26) == feature_in(info, Feature::Bmi1),
        bit64(w, 27) == feature_in(info, Feature::Bmi2),
        bit64(w, 28) == feature_in(info, Feature::Popcnt),
        bit64(w, 29) == feature_in(info, Feature::Lzcnt),
        bit64(w, 30) == feature_in(info, Feature::Tbm),
        bit64(w, 31) == feature_in(info, Feature::Xsave),
        bit64(w, 32) == feature_in(info, Feature::Xsaveopt),
        bit64(w, 33) == feature_in(info, Feature::Xsavec),
        bit64(w, 34) == feature_in(info, Feature::Xsaves),
        bit64(w, 35) == feature_in(info, Feature::Cmpxchg16b),
        bit64(w, 36) == feature_in(info, Feature::Adx),
        bit64(w, 37) == feature_in(info, Feature::Rtm),
        forall|j: u32| j < 64 && !(25 <= j < 38) ==> bit64(w, j) == bit64(acc, j),
{
    let mut w: u64 = acc;
    w = set_bit64(w, 25, test_bit32(info.proc_ecx, 12));
    proof {
        assert(bit64(w, 25) == feature_in(info, Feature::Fma));
        assert(forall|j: u32| j < 64 && !(25 <= j < 38) ==> bit64(w, j) == bit64(acc, j));
    }
    w = set_bit64(w, 26, test_bit32(info.ext7_ebx, 3));
    proof {
        assert(bit64(w, 26) == feature_in(info, Feature::Bmi1));
        assert(forall|j: u32| j < 64 && !(25 <= j < 38) ==> bit64(w, j) == bit64(acc, j));
    }
    w = set_bit64(w, 27, test_bit32(info.ext7_ebx, 8));
    proof {
        assert(bit64(w, 27) == feature_in(info, Feature::Bmi2));
        assert(forall|j: u32| j < 64 && !(25 <= j < 38) ==> bit64(w, j) == bit64(acc, j));
    }
    w = set_bit64(w, 28, test_bit32(info.proc_ecx, 23));
    proof {
        assert(bit64(w, 28) == feature_in(info, Feature::Popcnt));
        assert(forall|j: u32| j < 64 && !(25 <= j < 38) ==> bit64(w, j) == bit64(acc, j));
    }
    w = set_bit64(w, 29, test_bit32(info.ext1_ecx, 5));
    proof {
        assert(bit64(w, 29) == feature_in(info, Feature::Lzcnt));
        assert(forall|j: u32| j < 64 && !(25 <= j < 38) ==> bit64(w, j) == bit64(acc, j));
    }
    w = set_bit64(w, 30, test_bit32(info.ext1_ecx, 21));
    proof {
        assert(bit64(w, 30) == feature_in(info, Feature::Tbm));
        assert(forall|j: u32| j < 64 && !(25 <= j < 38) ==> bit64(w, j) == bit64(acc, j));
    }
    w = set_bit64(w, 31, test_bit32(info.proc_ecx, 26));
    proof {
        assert(bit64(w, 31) == feature_in(info, Feature::Xsave));
        assert(forall|j: u32| j < 64 && !(25 <= j < 38) ==> bit64(w, j) == bit64(acc, j));
    }
    w = set_bit64(w, 32, os_avx && test_bit32(info.xstate1_eax, 0));
    proof {
        assert(bit64(w, 32) == feature_in(info, Feature::Xsaveopt));
        assert(forall|j: u32| j < 64 && !(25 <= j < 38) ==> bit64(w, j) == bit64(acc, j));
    }
    w = set_bit64(w, 33, os_avx && test_bit32(info.xstate1_eax, 1));
    proof {
        assert(bit64(w, 33) == feature_in(info, Feature::Xsavec));
        assert(forall|j: u32| j < 64 && !(25 <= j < 38) ==> bit64(w, j) == bit64(acc, j));
    }
    w = set_bit64(w, 34, os_avx && test_bit32(info.xstate1_eax, 3));
    proof {
        assert(bit64(w, 34) == feature_in(info, Feature::Xsaves));
        assert(forall|j: u32| j < 64 && !(25 <= j < 38) ==> bit64(w, j) == bit64(acc, j));
    }
    w = set_bit64(w, 35, test_bit32(info.proc_ecx, 13));
    proof {
        assert(bit64(w, 35) == feature_in(info, Feature::Cmpxchg16b));
        assert(forall|j: u32| j < 64 && !(25 <= j < 38) ==> bit64(w, j) == bit64(acc, j));
    }
    w = set_bit64(w, 36, test_bit32(info.ext7_ebx, 19));
    proof {
        assert(bit64(w, 36) == feature_in(info, Feature::Adx));
        assert(forall|j: u32| j < 64 && !(25 <= j < 38) ==> bit64(w, j) == bit64(acc, j));
    }
    w = set_bit64(w, 37, test_bit32(info.ext7_ebx, 11));
    proof {
        assert(bit64(w, 37) == feature_in(info, Feature::Rtm));
        assert(forall|j: u32| j < 64 && !(25 <= j < 38) ==> bit64(w, j) == bit64(acc, j));
    }
    w
}

/// Decodes one hardware response into the capability bitset. Total over
/// every possible response; never panics.
/// Chains the three decoding stages: every feature bit of the final word
/// comes from the stage that set it, and the bits above the catalog stay
/// clear.
proof fn lemma_stage_positions(info: CpuInfo, w1: u64, w2: u64, bits: u64)
    requires
        bit64(w1, 0) == feature_in(info, Feature::Aes),
        bit64(w1, 1) == feature_in(info, Feature::Pclmulqdq),
        bit64(w1, 2) == feature_in(info, Feature::Rdrand),
        bit64(w1, 3) == feature_in(info, Feature::Rdseed),
        bit64(w1, 4) == feature_in(info, Feature::Tsc),
        bit64(w1, 5) == feature_in(info, Feature::Sse),
        bit64(w1, 6) == feature_in(info, Feature::Sse2),
        bit64(w1, 7) == feature_in(info, Feature::Sse3),
        bit64(w1, 8) == feature_in(info, Feature::Ssse3),
        bit64(w1, 9) == feature_in(info, Feature::Sse41),
        bit64(w1, 10) == feature_in(info, Feature::Sse42),
        bit64(w1, 11) == feature_in(info, Feature::Sse4a),
        bit64(w1, 12) == feature_in(info, Feature::Sha),
        forall|j: u32| j < 64 && !(0 <= j < 13) ==> bit64(w1, j) == bit64(0u64, j),
        bit64(w2, 13) == feature_in(info, Feature::Avx),
        bit64(w2, 14) == feature_in(info, Feature::Avx2),
        bit64(w2, 15) == feature_in(info, Feature::Avx512f),
        bit64(w2, 16) == feature_in(info, Feature::Avx512cd),
        bit64(w2, 17) == feature_in(info, Feature::Avx512er),
        bit64(w2, 18) == feature_in(info, Feature::Avx512pf),
        bit64(w2, 19) == feature_in(info, Feature::Avx512bw),
        bit64(w2, 20) == feature_in(info, Feature::Avx512dq),
        bit64(w2, 21) == feature_in(info, Feature::Avx512vl),
        bit64(w2, 22) == feature_in(info, Feature::Avx512ifma),
        bit64(w2, 23) == feature_in(info, Feature::Avx512vbmi),
        bit64(w2, 24) == feature_in(info, Feature::Avx512vpopcntdq),
        forall|j: u32| j < 64 && !(13 <= j < 25) ==> bit64(w2, j) == bit64(w1, j),
        bit64(bits, 25) == feature_in(info, Feature::Fma),
        bit64(bits, 26) == feature_in(info, Feature::Bmi1),
        bit64(bits, 27) == feature_in(info, Feature::Bmi2),
        bit64(bits, 28) == feature_in(info, Feature::Popcnt),
        bit64(bits, 29) == feature_in(info, Feature::Lzcnt),
        bit64(bits, 30) == feature_in(info, Feature::Tbm),
        bit64(bits, 31) == feature_in(info, Feature::Xsave),
        bit64(bits, 32) == feature_in(info, Feature::Xsaveopt),
        bit64(bits, 33) == feature_in(info, Feature::Xsavec),
        bit64(bits, 34) == feature_in(info, Feature::Xsaves),
        bit64(bits, 35) == feature_in(info, Feature::Cmpxchg16b),
        bit64(bits, 36) == feature_in(info, Feature::Adx),
        bit64(bits, 37) == feature_in(info, Feature::Rtm),
        forall|j: u32| j < 64 && !(25 <= j < 38) ==> bit64(bits, j) == bit64(w2, j),
    ensures
        bit64(bits, 0) == feature_in(info, Feature::Aes),
        bit64(bits, 1) == feature_in(info, Feature::Pclmulqdq),
        bit64(bits, 2) == feature_in(info, Feature::Rdrand),
        bit64(bits, 3) == feature_in(info, Feature::Rdseed),
        bit64(bits, 4) == feature_in(info, Feature::Tsc),
        bit64(bits, 5) == feature_in(info, Feature::Sse),
        bit64(bits, 6) == feature_in(info, Feature::Sse2),
        bit64(bits, 7) == feature_in(info, Feature::Sse3),
        bit64(bits, 8) == feature_in(info, Feature::Ssse3),
        bit64(bits, 9) == feature_in(info, Feature::Sse41),
        bit64(bits, 10) == feature_in(info, Feature::Sse42),
        bit64(bits, 11) == feature_in(info, Feature::Sse4a),
        bit64(bits, 12) == feature_in(info, Feature::Sha),
        bit64(bits, 13) == feature_in(info, Feature::Avx),
        bit64(bits, 14) == feature_in(info, Feature::Avx2),
        bit64(bits, 15) == feature_in(info, Feature::Avx512f),
        bit64(bits, 16) == feature_in(info, Feature::Avx512cd),
        bit64(bits, 17) == feature_in(info, Feature::Avx512er),
        bit64(bits, 18) == feature_in(info, Feature::Avx512pf),
        bit64(bits, 19) == feature_in(info, Feature::Avx512bw),
        bit64(bits, 20) == feature_in(info, Feature::Avx512dq),
        bit64(bits, 21) == feature_in(info, Feature::Avx512vl),
        bit64(bits, 22) == feature_in(info, Feature::Avx512ifma),
        bit64(bits, 23) == feature_in(info, Feature::Avx512vbmi),
        bit64(bits, 24) == feature_in(info, Feature::Avx512vpopcntdq),
        bit64(bits, 25) == feature_in(info, Feature::Fma),
        bit64(bits, 26) == feature_in(info, Feature::Bmi1),
        bit64(bits, 27) == feature_in(info, Feature::Bmi2),
        bit64(bits, 28) == feature_in(info, Feature::Popcnt),
        bit64(bits, 29) == feature_in(info, Feature::Lzcnt),
        bit64(bits, 30) == feature_in(info, Feature::Tbm),
        bit64(bits, 31) == feature_in(info, Feature::Xsave),
        bit64(bits, 32) == feature_in(info, Feature::Xsaveopt),
        bit64(bits, 33) == feature_in(info, Feature::Xsavec),
        bit64(bits, 34) == feature_in(info, Feature::Xsaves),
        bit64(bits, 35) == feature_in(info, Feature::Cmpxchg16b),
        bit64(bits, 36) == feature_in(info, Feature::Adx),
        bit64(bits, 37) == feature_in(info, Feature::Rtm),
        forall|j: u32| FEATURE_COUNT <= j < 64 ==> !bit64(bits, j),
{
    lemma_zero_word_clear();
    assert(bit64(bits, 0) == bit64(w2, 0));
    assert(bit64(w2, 0) == bit64(w1, 0));
    assert(bit64(bits, 1) == bit64(w2, 1));
    assert(bit64(w2, 1) == bit64(w1, 1));
    assert(bit64(bits, 2) == bit64(w2, 2));
    assert(bit64(w2, 2) == bit64(w1, 2));
    assert(bit64(bits, 3) == bit64(w2, 3));
    assert(bit64(w2, 3) == bit64(w1, 3));
    assert(bit64(bits, 4) == bit64(w2, 4));
    assert(bit64(w2, 4) == bit64(w1, 4));
    assert(bit64(bits, 5) == bit64(w2, 5));
    assert(bit64(w2, 5) == bit64(w1, 5));
    assert(bit64(bits, 6) == bit64(w2, 6));
    assert(bit64(w2, 6) == bit64(w1, 6));
    assert(bit64(bits, 7) == bit64(w2, 7));
    assert(bit64(w2, 7) == bit64(w1, 7));
    assert(bit64(bits, 8) == bit64(w2, 8));
    assert(bit64(w2, 8) == bit64(w1, 8));
    assert(bit64(bits, 9) == bit64(w2, 9));
    assert(bit64(w2, 9) == bit64(w1, 9));
    assert(bit64(bits, 10) == bit64(w2, 10));
    assert(bit64(w2, 10) == bit64(w1, 10));
    assert(bit64(bits, 11) == bit64(w2, 11));
    assert(bit64(w2, 11) == bit64(w1, 11));
    assert(bit64(bits, 12) == bit64(w2, 12));
    assert(bit64(w2, 12) == bit64(w1, 12));
    assert(bit64(bits, 13) == bit64(w2, 13));
    assert(bit64(bits, 14) == bit64(w2, 14));
    assert(bit64(bits, 15) == bit64(w2, 15));
    assert(bit64(bits, 16) == bit64(w2, 16));
    assert(bit64(bits, 17) == bit64(w2, 17));
    assert(bit64(bits, 18) == bit64(w2, 18));
    assert(bit64(bits, 19) == bit64(w2, 19));
    assert(bit64(bits, 20) == bit64(w2, 20));
    assert(bit64(bits, 21) == bit64(w2, 21));
    assert(bit64(bits, 22) == bit64(w2, 22));
    assert(bit64(bits, 23) == bit64(w2, 23));
    assert(bit64(bits, 24) == bit64(w2, 24));
    assert forall|j: u32| FEATURE_COUNT <= j < 64 implies !bit64(bits, j) by {
        assert(bit64(bits, j) == bit64(w2, j));
        assert(bit64(w2, j) == bit64(w1, j));
        assert(bit64(w1, j) == bit64(0u64, j));
    }
}

/// Decodes one hardware response into the capability bitset. Total over
/// every possible response; never panics.
pub fn decode_features(info: CpuInfo) -> (bits: u64)
    ensures
        engine_result(info, bits),
{
    let os_xsave: bool = test_bit32(info.proc_ecx, 26) && test_bit32(info.proc_ecx, 27);
    let os_avx: bool = os_xsave && (info.xcr0 & 6) == 6;
    let os_avx512: bool = os_xsave && (info.xcr0 & 0xe6) == 0xe6;
    let w1 = decode_baseline(info, 0);
    let w2 = decode_vector_state(info, w1, os_avx, os_avx512);
    let bits = decode_extended(info, w2, os_avx, os_avx512);
    proof {
        lemma_stage_positions(info, w1, w2, bits);
    }
    bits
}

/// Performs feature detection under the given safety policy: when the
/// policy forbids probing, the all-zero bitset (no feature reported) comes
/// back without touching the hardware; otherwise the hardware is queried
/// once and decoded. Deterministic for a fixed hardware response, and the
/// reserved high bits of the bitset are always clear.
pub fn detect_features(policy: SafetyPolicy) -> (bits: u64)
    ensures
        !policy.permits_probe_spec() ==> bits == 0,
        forall|j: u32| FEATURE_COUNT <= j < 64 ==> !bit64(bits, j),
        policy.permits_probe_spec() ==> exists|info: CpuInfo| #[trigger] engine_result(
            info,
            bits,
        ),
{
    if policy.permits_probe() {
        let info = query_hardware();
        let bits = decode_features(info);
        bits
    } else {
        proof {
            lemma_zero_word_clear();
        }
        0
    }
}

/// Law: the query engine is idempotent and deterministic — one hardware
/// response has exactly one decoding, so two queries that observe the same
/// response yield bit-identical capability bitsets.
pub proof fn lemma_engine_deterministic(info: CpuInfo, b1: u64, b2: u64)
    requires
        engine_result(info, b1),
        engine_result(info, b2),
    ensures
        b1 == b2,
{
    crate::lemma_u64_ext(b1, b2);
}

/// Law: safety fail-safe — the all-zero bitset that a forbidden probe
/// produces reports every feature of the catalog as absent.
pub proof fn lemma_fail_safe()
    ensures
        forall|f: Feature| !bit64(0u64, #[trigger] bit_of(f)),
{
    lemma_zero_word_clear();
    crate::catalog::lemma_catalog_total();
}

/// Law: cross-reference — on a hardware response that advertises the SSE
/// baseline and the AVX pair with OS-enabled AVX state, and whose leaf-7
/// words advertise no feature of the AVX-512 family (what a processor
/// without AVX-512F reports), the decoded bitset has exactly the baseline
/// and AVX features present and every AVX-512 feature absent.
pub proof fn lemma_cross_reference(info: CpuInfo, bits: u64)
    requires
        engine_result(info, bits),
        bit32(info.proc_edx, 25),
        bit32(info.proc_edx, 26),
        os_has_avx(info),
        bit32(info.proc_ecx, 28),
        bit32(info.ext7_ebx, 5),
        !bit32(info.ext7_ebx, 16),
        !bit32(info.ext7_ebx, 28),
        !bit32(info.ext7_ebx, 27),
        !bit32(info.ext7_ebx, 26),
        !bit32(info.ext7_ebx, 30),
        !bit32(info.ext7_ebx, 17),
        !bit32(info.ext7_ebx, 31),
        !bit32(info.ext7_ebx, 21),
        !bit32(info.ext7_ecx, 1),
        !bit32(info.ext7_ecx, 14),
    ensures
        bit64(bits, bit_of(Feature::Sse)),
        bit64(bits, bit_of(Feature::Sse2)),
        bit64(bits, bit_of(Feature::Avx)),
        bit64(bits, bit_of(Feature::Avx2)),
        !bit64(bits, bit_of(Feature::Avx512f)),
        !bit64(bits, bit_of(Feature::Avx512cd)),
        !bit64(bits, bit_of(Feature::Avx512er)),
        !bit64(bits, bit_of(Feature::Avx512pf)),
        !bit64(bits, bit_of(Feature::Avx512bw)),
        !bit64(bits, bit_of(Feature::Avx512dq)),
        !bit64(bits, bit_of(Feature::Avx512vl)),
        !bit64(bits, bit_of(Feature::Avx512ifma)),
        !bit64(bits, bit_of(Feature::Avx512vbmi)),
        !bit64(bits, bit_of(Feature::Avx512vpopcntdq)),
{
}

/// Law: XSAVE gating — when the OS has not enabled the AVX register state
/// in XCR0, every AVX-dependent feature is reported absent, even when the
/// CPUID feature words advertise it.
pub proof fn lemma_xsave_gating(info: CpuInfo)
    requires
        info.xcr0 & 6 != 6,
    ensures
        !feature_in(info, Feature::Avx),
        !feature_in(info, Feature::Avx2),
        !feature_in(info, Feature::Avx512f),
        !feature_in(info, Feature::Avx512cd),
        !feature_in(info, Feature::Avx512er),
        !feature_in(info, Feature::Avx512pf),
        !feature_in(info, Feature::Avx512bw),
        !feature_in(info, Feature::Avx512dq),
        !feature_in(info, Feature::Avx512vl),
        !feature_in(info, Feature::Avx512ifma),
        !feature_in(info, Feature::Avx512vbmi),
        !feature_in(info, Feature::Avx512vpopcntdq),
        !feature_in(info, Feature::Xsaveopt),
        !feature_in(info, Feature::Xsavec),
        !feature_in(info, Feature::Xsaves),
{
    let x = info.xcr0;
    assert(x & 0xe6 == 0xe6 ==> x & 6 == 6) by (bit_vector);
}

} // verus!
