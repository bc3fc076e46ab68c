//! Sealed operational configuration: price-variance thresholds (with their
//! compact 64-bit packing), the multi-sig admin key set, the pool fee tier and
//! the per-pool adaptive fee curve.
//!
//! Every configuration is validated as one complete value; the validators
//! return `Ok(())` exactly when all of the documented invariants hold.
use vstd::prelude::*;

use crate::error::ContractError;
use crate::{Address, AssetId};

verus! {

/// Default maximum spread between two oracle submissions (2 %).
pub const DEFAULT_MAX_SPREAD_BPS: u32 = 200;
/// Default maximum deviation of one submission from the running average (5 %).
pub const DEFAULT_MAX_DEVIATION_BPS: u32 = 500;
/// Default minimum number of submissions forming a consensus price.
pub const DEFAULT_MIN_SUBMISSION_COUNT: u32 = 3;
/// Default maximum age of an accepted submission (5 minutes).
pub const DEFAULT_MAX_SUBMISSION_AGE_SECS: u64 = 300;
/// Upper bound of the spread and deviation thresholds (50 %).
pub const VARIANCE_BPS_CEILING: u32 = 5_000;

/// Minimum allowed pool fee tier (0.05 %).
pub const MIN_FEE_TIER_BPS: u32 = 5;
/// Maximum allowed pool fee tier (1.00 %).
pub const MAX_FEE_TIER_BPS: u32 = 100;
/// Default pool fee tier (0.30 %).
pub const DEFAULT_FEE_TIER_BPS: u32 = 30;
/// LP share of collected fees (80 %).
pub const LP_FEE_SHARE_BPS: u32 = 8_000;
/// Protocol treasury share of collected fees (20 %).
pub const PROTOCOL_FEE_SHARE_BPS: u32 = 2_000;

/// Default adaptive base fee (0.30 %).
pub const DEFAULT_ADAPTIVE_BASE_FEE_BPS: u32 = 30;
/// Default adaptive fee cap (1.50 %).
pub const DEFAULT_ADAPTIVE_MAX_FEE_BPS: u32 = 150;
/// Default number of retained price observations per pool.
pub const DEFAULT_ADAPTIVE_RING_BUFFER_LEN: u32 = 20;
/// Default minimum spacing of recorded observations (seconds).
pub const DEFAULT_ADAPTIVE_SAMPLE_INTERVAL_SECS: u64 = 300;
/// Volatility at or below which no fee uplift applies (2 %).
pub const DEFAULT_ADAPTIVE_LOW_VOLATILITY_BPS: u32 = 200;
/// Volatility at which the fee reaches its cap (5 %).
pub const DEFAULT_ADAPTIVE_HIGH_VOLATILITY_BPS: u32 = 500;
/// Half-life of the volatility decay toward baseline (1 hour).
pub const DEFAULT_ADAPTIVE_DECAY_HALF_LIFE_SECS: u64 = 3600;
/// Upper bound of the adaptive fee cap (100 %).
pub const ADAPTIVE_FEE_BPS_CEILING: u32 = 10_000;

// ── Price variance ───────────────────────────────────────────────────────────

/// Snapshot of all price-variance operational settings.
#[derive(Clone, Copy, Debug, PartialEq, Eq, Structural)]
pub struct PriceVarianceConfig {
    pub max_spread_bps: u32,
    pub max_deviation_bps: u32,
    pub min_submission_count: u32,
    pub max_submission_age_secs: u64,
}

impl Default for PriceVarianceConfig {
    fn default() -> (r: Self)
        ensures
            r == (PriceVarianceConfig {
                max_spread_bps: DEFAULT_MAX_SPREAD_BPS,
                max_deviation_bps: DEFAULT_MAX_DEVIATION_BPS,
                min_submission_count: DEFAULT_MIN_SUBMISSION_COUNT,
                max_submission_age_secs: DEFAULT_MAX_SUBMISSION_AGE_SECS,
            }),
    {
        PriceVarianceConfig {
            max_spread_bps: DEFAULT_MAX_SPREAD_BPS,
            max_deviation_bps: DEFAULT_MAX_DEVIATION_BPS,
            min_submission_count: DEFAULT_MIN_SUBMISSION_COUNT,
            max_submission_age_secs: DEFAULT_MAX_SUBMISSION_AGE_SECS,
        }
    }
}

/// The price-variance configuration packed into one 64-bit word:
/// bits 0..16 spread, 16..32 deviation, 32..40 submission count,
/// 40..64 maximum age.
#[derive(Clone, Copy, Debug, PartialEq, Eq, Structural)]
pub struct PackedPriceVarianceConfig {
    pub packed: u64,
}

/// `x` saturated at `cap`.
pub open spec fn saturate(x: int, cap: int) -> int {
    if x < cap { x } else { cap }
}

/// The packed word of `cfg`: each field saturated at its width, then laid
/// out in its bit range.
pub open spec fn packed_word(cfg: PriceVarianceConfig) -> int {
    saturate(cfg.max_spread_bps as int, 0xFFFF)
        + saturate(cfg.max_deviation_bps as int, 0xFFFF) * 0x1_0000
        + saturate(cfg.min_submission_count as int, 0xFF) * 0x1_0000_0000
        + saturate(cfg.max_submission_age_secs as int, 0xFF_FFFF) * 0x100_0000_0000
}

/// The configuration stored in the packed word `p`.
pub open spec fn unpacked_config(p: u64) -> PriceVarianceConfig {
    PriceVarianceConfig {
        max_spread_bps: (p % 0x1_0000) as u32,
        max_deviation_bps: ((p / 0x1_0000) % 0x1_0000) as u32,
        min_submission_count: ((p / 0x1_0000_0000) % 0x100) as u32,
        max_submission_age_secs: (p / 0x100_0000_0000) as u64,
    }
}

/// A configuration whose every field fits its packed bit width.
pub open spec fn fits_packed_widths(cfg: PriceVarianceConfig) -> bool {
    &&& cfg.max_spread_bps <= 0xFFFF
    &&& cfg.max_deviation_bps <= 0xFFFF
    &&& cfg.min_submission_count <= 0xFF
    &&& cfg.max_submission_age_secs <= 0xFF_FFFF
}

proof fn lemma_or_is_sum(s: u64, d: u64, c: u64, a: u64)
    requires
        s <= 0xFFFF,
        d <= 0xFFFF,
        c <= 0xFF,
        a <= 0xFF_FFFF,
    ensures
        s | (d << 16u64) | (c << 32u64) | (a << 40u64) == s + d * 0x1_0000 + c * 0x1_0000_0000
            + a * 0x100_0000_0000,
{
    assert(s | (d << 16u64) | (c << 32u64) | (a << 40u64) == s + d * 0x1_0000 + c * 0x1_0000_0000
        + a * 0x100_0000_0000) by (bit_vector)
        requires
            s <= 0xFFFF,
            d <= 0xFFFF,
            c <= 0xFF,
            a <= 0xFF_FFFF,
    ;
}

proof fn lemma_fields_of_sum(s: u64, d: u64, c: u64, a: u64, p: u64)
    requires
        s <= 0xFFFF,
        d <= 0xFFFF,
        c <= 0xFF,
        a <= 0xFF_FFFF,
        p == s + d * 0x1_0000 + c * 0x1_0000_0000 + a * 0x100_0000_0000,
    ensures
        p % 0x1_0000 == s,
        (p / 0x1_0000) % 0x1_0000 == d,
        (p / 0x1_0000_0000) % 0x100 == c,
        p / 0x100_0000_0000 == a,
{
    assert(p % 0x1_0000 == s && (p / 0x1_0000) % 0x1_0000 == d && (p / 0x1_0000_0000) % 0x100 == c
        && p / 0x100_0000_0000 == a) by (bit_vector)
        requires
            s <= 0xFFFF,
            d <= 0xFFFF,
            c <= 0xFF,
            a <= 0xFF_FFFF,
            p == s + d * 0x1_0000 + c * 0x1_0000_0000 + a * 0x100_0000_0000,
    ;
}

impl PriceVarianceConfig {
    /// Packs the configuration into one 64-bit word (fields saturate at
    /// their bit width).
    pub fn pack(&self) -> (r: PackedPriceVarianceConfig)
        ensures
            r.packed == packed_word(*self),
    {
        let spread: u64 = if self.max_spread_bps < 0xFFFF { self.max_spread_bps as u64 } else { 0xFFFF };
        let dev: u64 = if self.max_deviation_bps < 0xFFFF { self.max_deviation_bps as u64 } else { 0xFFFF };
        let count: u64 = if self.min_submission_count < 0xFF { self.min_submission_count as u64 } else { 0xFF };
        let age: u64 = if self.max_submission_age_secs < 0xFF_FFFF {
            self.max_submission_age_secs
        } else {
            0xFF_FFFF
        };
        proof {
            lemma_or_is_sum(spread, dev, count, age);
        }
        PackedPriceVarianceConfig { packed: spread | (dev << 16u64) | (count << 32u64) | (age << 40u64) }
    }
}

impl PackedPriceVarianceConfig {
    /// Restores the configuration held in the packed word.
    pub fn unpack(&self) -> (r: PriceVarianceConfig)
        ensures
            r == unpacked_config(self.packed),
    {
        let p = self.packed;
        assert((p & 0xFFFFu64) == p % 0x1_0000 && ((p >> 16u64) & 0xFFFFu64) == (p / 0x1_0000) % 0x1_0000
            && ((p >> 32u64) & 0xFFu64) == (p / 0x1_0000_0000) % 0x100 && ((p >> 40u64) & 0xFF_FFFFu64)
            == p / 0x100_0000_0000) by (bit_vector);
        PriceVarianceConfig {
            max_spread_bps: (p & 0xFFFFu64) as u32,
            max_deviation_bps: ((p >> 16u64) & 0xFFFFu64) as u32,
            min_submission_count: ((p >> 32u64) & 0xFFu64) as u32,
            max_submission_age_secs: (p >> 40u64) & 0xFF_FFFFu64,
        }
    }
}

/// Packing then unpacking gives back every configuration whose fields fit
/// their packed bit widths.
pub proof fn lemma_pack_unpack_roundtrip(cfg: PriceVarianceConfig)
    requires
        fits_packed_widths(cfg),
    ensures
        0 <= packed_word(cfg) <= u64::MAX,
        unpacked_config(packed_word(cfg) as u64) == cfg,
{
    let s = cfg.max_spread_bps as u64;
    let d = cfg.max_deviation_bps as u64;
    let c = cfg.min_submission_count as u64;
    let a = cfg.max_submission_age_secs;
    assert(s + d * 0x1_0000 + c * 0x1_0000_0000 + a * 0x100_0000_0000 <= u64::MAX) by (nonlinear_arith)
        requires
            s <= 0xFFFF,
            d <= 0xFFFF,
            c <= 0xFF,
            a <= 0xFF_FFFF,
    ;
    let p = (s + d * 0x1_0000 + c * 0x1_0000_0000 + a * 0x100_0000_0000) as u64;
    lemma_fields_of_sum(s, d, c, a, p);
}

/// Whether `cfg` satisfies the price-variance invariants: every threshold is
/// positive, spread and deviation are within the ceiling, and the spread is
/// no wider than the deviation.
pub open spec fn price_variance_config_valid(cfg: PriceVarianceConfig) -> bool {
    &&& cfg.max_spread_bps > 0
    &&& cfg.max_deviation_bps > 0
    &&& cfg.min_submission_count > 0
    &&& cfg.max_submission_age_secs > 0
    &&& cfg.max_spread_bps <= VARIANCE_BPS_CEILING
    &&& cfg.max_deviation_bps <= VARIANCE_BPS_CEILING
    &&& cfg.max_spread_bps <= cfg.max_deviation_bps
}

/// Validates a complete price-variance configuration.
pub fn validate_price_variance_config(cfg: &PriceVarianceConfig) -> (r: Result<(), ContractError>)
    ensures
        r is Ok <==> price_variance_config_valid(*cfg),
        r is Err ==> r == Err::<(), ContractError>(ContractError::InvalidVarianceConfig),
{
    if cfg.max_spread_bps == 0 || cfg.max_deviation_bps == 0 || cfg.min_submission_count == 0
        || cfg.max_submission_age_secs == 0 {
        return Err(ContractError::InvalidVarianceConfig);
    }
    if cfg.max_spread_bps > VARIANCE_BPS_CEILING || cfg.max_deviation_bps > VARIANCE_BPS_CEILING {
        return Err(ContractError::InvalidVarianceConfig);
    }
    if cfg.max_spread_bps > cfg.max_deviation_bps {
        return Err(ContractError::InvalidVarianceConfig);
    }
    Ok(())
}

// ── Multi-sig admin key set ──────────────────────────────────────────────────

/// Multi-sig threshold governing admin-key rotations.
#[derive(Clone, Debug)]
pub struct AdminKeySet {
    pub signers: Vec<Address>,
    pub threshold: u32,
}

/// Whether some address occurs twice in `s`.
pub open spec fn has_duplicates(s: Seq<Address>) -> bool {
    exists|i: int, j: int| 0 <= i < j < s.len() && s[i] == s[j]
}

/// Whether `addrs` lists some address more than once.
pub fn has_duplicate_addresses(addrs: &Vec<Address>) -> (r: bool)
    ensures
        r == has_duplicates(addrs@),
{
    let n = addrs.len();
    let mut i: usize = 0;
    while i < n
        invariant
            n == addrs.len(),
            i <= n,
            forall|a: int, b: int| 0 <= a < b < n && a < i ==> addrs@[a] != addrs@[b],
        decreases n - i,
    {
        let mut j: usize = i + 1;
        while j < n
            invariant
                n == addrs.len(),
                i < n,
                i + 1 <= j <= n,
                forall|a: int, b: int| 0 <= a < b < n && a < i ==> addrs@[a] != addrs@[b],
                forall|b: int| i < b < j ==> addrs@[i as int] != addrs@[b],
            decreases n - j,
        {
            if addrs[i] == addrs[j] {
                return true;
            }
            j = j + 1;
        }
        i = i + 1;
    }
    false
}

/// Whether `keys` is a usable multi-sig set: non-empty, distinct signers and
/// a threshold between one and the number of signers.
pub open spec fn admin_key_set_valid(keys: AdminKeySet) -> bool {
    &&& keys.signers@.len() > 0
    &&& keys.threshold > 0
    &&& keys.threshold <= keys.signers@.len()
    &&& !has_duplicates(keys.signers@)
}

/// Validates a proposed admin key set.
pub fn validate_admin_key_set(keys: &AdminKeySet) -> (r: Result<(), ContractError>)
    ensures
        r is Ok <==> admin_key_set_valid(*keys),
        r is Err ==> r == Err::<(), ContractError>(ContractError::InvalidVarianceConfig),
{
    let len = keys.signers.len();
    if len == 0 || keys.threshold == 0 || (keys.threshold as usize) > len {
        return Err(ContractError::InvalidVarianceConfig);
    }
    if has_duplicate_addresses(&keys.signers) {
        return Err(ContractError::InvalidVarianceConfig);
    }
    Ok(())
}

// ── Pool fee tier ────────────────────────────────────────────────────────────

/// Active fee tier of the liquidity pool.
#[derive(Clone, Copy, Debug, PartialEq, Eq, Structural)]
pub struct FeeTierConfig {
    pub fee_tier_bps: u32,
}

impl Default for FeeTierConfig {
    fn default() -> (r: Self)
        ensures
            r.fee_tier_bps == DEFAULT_FEE_TIER_BPS,
    {
        FeeTierConfig { fee_tier_bps: DEFAULT_FEE_TIER_BPS }
    }
}

/// Whether `bps` is one of the governance fee tiers (5, 30 or 100 bps).
pub open spec fn is_allowed_fee_tier(bps: u32) -> bool {
    bps == MIN_FEE_TIER_BPS || bps == DEFAULT_FEE_TIER_BPS || bps == MAX_FEE_TIER_BPS
}

/// Validates that the fee tier is one of the allowed governance tiers.
pub fn validate_fee_tier_config(cfg: &FeeTierConfig) -> (r: Result<(), ContractError>)
    ensures
        r is Ok <==> is_allowed_fee_tier(cfg.fee_tier_bps),
        r is Err ==> r == Err::<(), ContractError>(ContractError::InvalidVarianceConfig),
{
    if cfg.fee_tier_bps != MIN_FEE_TIER_BPS && cfg.fee_tier_bps != DEFAULT_FEE_TIER_BPS
        && cfg.fee_tier_bps != MAX_FEE_TIER_BPS {
        return Err(ContractError::InvalidVarianceConfig);
    }
    Ok(())
}

// ── Adaptive fee curve ───────────────────────────────────────────────────────

/// Storage key of a pool's adaptive fee configuration.
#[derive(Clone, Copy, Debug, PartialEq, Eq, Structural)]
pub enum AdaptiveConfigKey {
    Pool(AssetId),
}

/// Adaptive fee scaling configuration of a pool.
#[derive(Clone, Copy, Debug, PartialEq, Eq, Structural)]
pub struct AdaptiveFeeConfig {
    pub base_fee_bps: u32,
    pub max_fee_bps: u32,
    pub ring_buffer_len: u32,
    pub sample_interval_secs: u64,
    pub low_volatility_bps: u32,
    pub high_volatility_bps: u32,
    pub decay_half_life_secs: u64,
}

impl Default for AdaptiveFeeConfig {
    fn default() -> (r: Self)
        ensures
            r == (AdaptiveFeeConfig {
                base_fee_bps: DEFAULT_ADAPTIVE_BASE_FEE_BPS,
                max_fee_bps: DEFAULT_ADAPTIVE_MAX_FEE_BPS,
                ring_buffer_len: DEFAULT_ADAPTIVE_RING_BUFFER_LEN,
                sample_interval_secs: DEFAULT_ADAPTIVE_SAMPLE_INTERVAL_SECS,
                low_volatility_bps: DEFAULT_ADAPTIVE_LOW_VOLATILITY_BPS,
                high_volatility_bps: DEFAULT_ADAPTIVE_HIGH_VOLATILITY_BPS,
                decay_half_life_secs: DEFAULT_ADAPTIVE_DECAY_HALF_LIFE_SECS,
            }),
    {
        AdaptiveFeeConfig {
            base_fee_bps: DEFAULT_ADAPTIVE_BASE_FEE_BPS,
            max_fee_bps: DEFAULT_ADAPTIVE_MAX_FEE_BPS,
            ring_buffer_len: DEFAULT_ADAPTIVE_RING_BUFFER_LEN,
            sample_interval_secs: DEFAULT_ADAPTIVE_SAMPLE_INTERVAL_SECS,
            low_volatility_bps: DEFAULT_ADAPTIVE_LOW_VOLATILITY_BPS,
            high_volatility_bps: DEFAULT_ADAPTIVE_HIGH_VOLATILITY_BPS,
            decay_half_life_secs: DEFAULT_ADAPTIVE_DECAY_HALF_LIFE_SECS,
        }
    }
}

/// Whether `cfg` satisfies the adaptive fee invariants.
pub open spec fn adaptive_fee_config_valid(cfg: AdaptiveFeeConfig) -> bool {
    &&& cfg.base_fee_bps > 0
    &&& cfg.max_fee_bps > 0
    &&& cfg.ring_buffer_len >= 2
    &&& cfg.sample_interval_secs > 0
    &&& cfg.low_volatility_bps > 0
    &&& cfg.high_volatility_bps > 0
    &&& cfg.decay_half_life_secs > 0
    &&& cfg.max_fee_bps <= ADAPTIVE_FEE_BPS_CEILING
    &&& cfg.base_fee_bps <= cfg.max_fee_bps
    &&& cfg.low_volatility_bps <= cfg.high_volatility_bps
}

/// Validates a complete adaptive fee configuration.
pub fn validate_adaptive_fee_config(cfg: &AdaptiveFeeConfig) -> (r: Result<(), ContractError>)
    ensures
        r is Ok <==> adaptive_fee_config_valid(*cfg),
        r is Err ==> r == Err::<(), ContractError>(ContractError::InvalidVarianceConfig),
{
    if cfg.base_fee_bps == 0 || cfg.max_fee_bps == 0 || cfg.ring_buffer_len < 2
        || cfg.sample_interval_secs == 0 || cfg.low_volatility_bps == 0
        || cfg.high_volatility_bps == 0 || cfg.decay_half_life_secs == 0 {
        return Err(ContractError::InvalidVarianceConfig);
    }
    if cfg.max_fee_bps > ADAPTIVE_FEE_BPS_CEILING {
        return Err(ContractError::InvalidVarianceConfig);
    }
    if cfg.base_fee_bps > cfg.max_fee_bps {
        return Err(ContractError::InvalidVarianceConfig);
    }
    if cfg.low_volatility_bps > cfg.high_volatility_bps {
        return Err(ContractError::InvalidVarianceConfig);
    }
    Ok(())
}

} // verus!
