//! The lazy concurrent cache: a single atomically-accessed word that holds
//! either the "uninitialized" sentinel (zero) or the capability bitset with
//! a reserved high marker bit set, so that a CPU with no detected features
//! is still distinguishable from a cache that has never been filled.
use core::sync::atomic::{AtomicU64, Ordering};
use vstd::prelude::*;

use crate::catalog::FEATURE_COUNT;
use crate::engine::{detect_features, SafetyPolicy};
use crate::{bit64, test_bit64};

verus! {

/// The reserved top bit: set in every published cache word, never used by
/// a catalog feature.
pub const INITIALIZED_MARK: u64 = 0x8000_0000_0000_0000;

/// A cache word that carries a published capability bitset.
pub open spec fn is_initialized(w: u64) -> bool {
    w & INITIALIZED_MARK != 0
}

/// The capability bitset held in a cache word, with the marker masked out.
pub open spec fn stored_bits(w: u64) -> u64 {
    w & !INITIALIZED_MARK
}

/// The cache word that publishes a capability bitset.
pub open spec fn publish_spec(bits: u64) -> u64 {
    bits | INITIALIZED_MARK
}

/// Turns a capability bitset into the word the cache publishes: the word
/// is marked initialized, and as long as the bitset leaves the reserved
/// top bit clear — the engine always does — it is stored unchanged.
pub fn publish_word(bits: u64) -> (w: u64)
    ensures
        w == publish_spec(bits),
        is_initialized(w),
        !bit64(bits, 63) ==> stored_bits(w) == bits,
{
    proof {
        assert((bits | 0x8000_0000_0000_0000u64) & 0x8000_0000_0000_0000u64 != 0) by (bit_vector);
        assert(bits & (1u64 << 63u32) == 0 ==> (bits | 0x8000_0000_0000_0000u64)
            & !0x8000_0000_0000_0000u64 == bits) by (bit_vector);
    }
    bits | INITIALIZED_MARK
}

/// Reads one feature bit out of a cache word: a miss (`None`) on the
/// uninitialized sentinel, otherwise exactly the stored bit. The answer is
/// a function of the word alone, so re-reading an unchanged cell can never
/// produce a different answer.
pub fn lookup_word(w: u64, i: u32) -> (r: Option<bool>)
    requires
        i < 63,
    ensures
        r == (if is_initialized(w) {
            Some(bit64(stored_bits(w), i))
        } else {
            None::<bool>
        }),
{
    if w & INITIALIZED_MARK != 0 {
        Some(test_bit64(w & !INITIALIZED_MARK, i))
    } else {
        None
    }
}

/// The process-wide cache cell. Created zero-initialized (uninitialized),
/// written at most logically once, then read-only for the process
/// lifetime.
pub struct FeatureCache {
    /// Zero until a detection result is published into it.
    pub cell: AtomicU64,
}

impl FeatureCache {
    /// A fresh, uninitialized cache.
    pub fn new() -> FeatureCache {
        FeatureCache { cell: AtomicU64::new(0) }
    }

    /// Tests one feature bit against the cache. The first caller (or
    /// callers, racing) to find the sentinel runs the query engine and
    /// publishes the result with a release store; a later reader's acquire
    /// load observes the marker only together with the full bitset. A
    /// caller that loses the race simply uses the bitset it computed
    /// itself — the engine is idempotent, so every racer publishes and
    /// returns the same answers (`lemma_racers_agree`), and no locking is
    /// needed.
    ///
    /// The permitted specification of the atomic cell says nothing about
    /// the value a load returns, so the contract states what holds of
    /// every outcome: the answer is one bit of a marker-free bitset.
    /// That the bitset is the published detection result rests on the
    /// word-level laws: `lookup_word` and `publish_word` fix both
    /// directions of the encoding, and `lemma_racers_agree` fixes what
    /// every initializer stores.
    pub fn test(&self, policy: SafetyPolicy, i: u32) -> (r: bool)
        requires
            i < 63,
        ensures
            exists|b: u64| !bit64(b, 63) && r == bit64(b, i),
    {
        let w = self.cell.load(Ordering::Acquire);
        match lookup_word(w, i) {
            Some(b) => {
                proof {
                    lemma_stored_bits_marker_clear(w);
                    assert(!bit64(stored_bits(w), 63) && b == bit64(stored_bits(w), i));
                }
                b
            },
            None => {
                let bits = detect_features(policy);
                self.cell.store(publish_word(bits), Ordering::Release);
                let r = test_bit64(bits, i);
                proof {
                    assert(!bit64(bits, 63) && r == bit64(bits, i));
                }
                r
            },
        }
    }
}

/// The stored-bits view of any cache word leaves the marker bit clear.
pub proof fn lemma_stored_bits_marker_clear(w: u64)
    ensures
        !bit64(stored_bits(w), 63),
{
    assert((w & !0x8000_0000_0000_0000u64) & (1u64 << 63u32) == 0) by (bit_vector);
}

/// Law: cache stability — publishing a detection result and reading it
/// back returns exactly the published bits, for every feature position;
/// since the cell is never stored again after initialization, every later
/// read of the cache returns the same boolean.
pub proof fn lemma_publish_then_lookup(bits: u64)
    requires
        !bit64(bits, 63),
    ensures
        is_initialized(publish_spec(bits)),
        stored_bits(publish_spec(bits)) == bits,
{
    assert((bits | 0x8000_0000_0000_0000u64) & 0x8000_0000_0000_0000u64 != 0) by (bit_vector);
    assert(bits & (1u64 << 63u32) == 0 ==> (bits | 0x8000_0000_0000_0000u64)
        & !0x8000_0000_0000_0000u64 == bits) by (bit_vector);
}

/// Law: determinism under concurrency — two initializers that decode the
/// same hardware response publish identical cache words, so whichever
/// store wins the race, every thread observes the same bitset and every
/// feature query returns the same boolean in every thread.
pub proof fn lemma_racers_agree(info: crate::engine::CpuInfo, b1: u64, b2: u64)
    requires
        crate::engine::engine_result(info, b1),
        crate::engine::engine_result(info, b2),
    ensures
        b1 == b2,
        publish_spec(b1) == publish_spec(b2),
{
    crate::engine::lemma_engine_deterministic(info, b1, b2);
}

} // verus!
