//! Adaptive fee scaling driven by short-term pool volatility.
//!
//! Each pool keeps a bounded window of recent prices. The population
//! standard deviation of the window, in basis points of its mean, is the
//! instantaneous volatility. The effective volatility is the larger of that
//! and the previous effective volatility decayed by a half-life model, and
//! it is mapped linearly onto the configured `[base, max]` fee band.
use vstd::prelude::*;

use crate::config::AdaptiveFeeConfig;
use crate::error::ContractError;
use crate::AssetId;

verus! {

// ── Integer square root ──────────────────────────────────────────────────────

/// Whether `r` is the integer square root of `v`: `r ≥ 0` and
/// `r² ≤ v < (r + 1)²`.
pub open spec fn is_root(r: int, v: int) -> bool {
    0 <= r && r * r <= v < (r + 1) * (r + 1)
}

/// The integer square root of a non-negative `v`.
pub open spec fn int_sqrt(v: int) -> int {
    choose|r: int| #[trigger] is_root(r, v)
}

/// Whether `b` is a power of four.
pub open spec fn is_pow4(b: int) -> bool
    decreases b,
{
    if b <= 0 {
        false
    } else if b == 1 {
        true
    } else {
        b % 4 == 0 && is_pow4(b / 4)
    }
}

/// The scale that the digit-by-digit root carries while `bit` is the next
/// digit to settle.
spec fn digit_scale(bit: int) -> int {
    if bit == 0 { 1 } else { 4 * bit }
}

proof fn lemma_sqrt_unique(a: int, b: int, v: int)
    requires
        0 <= a,
        0 <= b,
        a * a <= v < (a + 1) * (a + 1),
        b * b <= v < (b + 1) * (b + 1),
    ensures
        a == b,
{
    if a < b {
        assert((a + 1) * (a + 1) <= b * b) by (nonlinear_arith)
            requires
                0 <= a,
                a + 1 <= b,
        ;
    } else if b < a {
        assert((b + 1) * (b + 1) <= a * a) by (nonlinear_arith)
            requires
                0 <= b,
                b + 1 <= a,
        ;
    }
}

/// Any root witness is the integer square root.
pub(crate) proof fn lemma_int_sqrt_is(r: int, v: int)
    requires
        0 <= r,
        r * r <= v < (r + 1) * (r + 1),
    ensures
        int_sqrt(v) == r,
{
    assert(is_root(r, v));
    let c = int_sqrt(v);
    assert(is_root(c, v));
    lemma_sqrt_unique(c, r, v);
}

/// Every non-negative integer has an integer square root.
pub proof fn lemma_int_sqrt_exists(v: int)
    requires
        v >= 0,
    ensures
        is_root(int_sqrt(v), v),
    decreases v,
{
    if v == 0 {
        assert(is_root(0, 0));
    } else {
        lemma_int_sqrt_exists(v - 1);
        let r = int_sqrt(v - 1);
        if (r + 1) * (r + 1) <= v {
            assert((r + 1) * (r + 1) == v);
            assert(v < (r + 2) * (r + 2)) by (nonlinear_arith)
                requires
                    (r + 1) * (r + 1) == v,
                    r >= 0,
            ;
            assert(is_root(r + 1, v));
        } else {
            assert(is_root(r, v));
        }
    }
}

proof fn lemma_digit_step(q: int, bit: int, x: int)
    requires
        0 <= q,
        bit > 0,
        q * q * (4 * bit) <= x < (q + 1) * (q + 1) * (4 * bit),
    ensures
        x - q * q * (4 * bit) >= q * (4 * bit) + bit <==> (2 * q + 1) * (2 * q + 1) * bit <= x,
        (2 * q + 1) * (2 * q + 1) * bit <= x ==> x - q * q * (4 * bit) - (q * (4 * bit) + bit) == x
            - (2 * q + 1) * (2 * q + 1) * bit,
        x - q * q * (4 * bit) == x - (2 * q) * (2 * q) * bit,
        (2 * q) * (2 * q) * bit <= x,
        x < (2 * q + 2) * (2 * q + 2) * bit,
        q * (4 * bit) / 2 == (2 * q) * bit,
        (2 * q + 1) * bit == (2 * q) * bit + bit,
{
    assert((2 * q + 1) * bit == (2 * q) * bit + bit) by (nonlinear_arith);
    assert((2 * q + 1) * (2 * q + 1) * bit == q * q * (4 * bit) + q * (4 * bit) + bit) by (nonlinear_arith);
    assert((2 * q) * (2 * q) * bit == q * q * (4 * bit)) by (nonlinear_arith);
    assert((2 * q + 2) * (2 * q + 2) * bit == (q + 1) * (q + 1) * (4 * bit)) by (nonlinear_arith);
    assert(q * (4 * bit) == 2 * ((2 * q) * bit)) by (nonlinear_arith);
}

/// Integer square root by the digit-by-digit (binary) method; exact for
/// every `u128`.
pub fn isqrt(num: u128) -> (r: u128)
    ensures
        r == int_sqrt(num as int),
        r * r <= num < (r + 1) * (r + 1),
{
    let ghost x: int = num as int;
    let mut num = num;
    let mut res: u128 = 0;
    let mut bit: u128 = 0x4000_0000_0000_0000_0000_0000_0000_0000u128;
    assert(is_pow4(0x4000_0000_0000_0000_0000_0000_0000_0000int)) by {
        reveal_with_fuel(is_pow4, 64);
    }
    while bit > num
        invariant
            num == x,
            bit == 0 || is_pow4(bit as int),
            bit <= 0x4000_0000_0000_0000_0000_0000_0000_0000u128,
            x < digit_scale(bit as int),
        decreases bit,
    {
        let ghost old_bit: int = bit as int;
        assert(bit >> 2u128 == bit / 4) by (bit_vector);
        bit = bit >> 2u128;
        proof {
            if old_bit > 1 {
                assert(old_bit % 4 == 0 && is_pow4(old_bit / 4));
            }
        }
    }
    let ghost mut q: int = 0;
    assert(q * q * digit_scale(bit as int) == 0 && (q + 1) * (q + 1) * digit_scale(bit as int)
        == digit_scale(bit as int)) by (nonlinear_arith)
        requires
            q == 0,
    ;
    while bit > 0
        invariant
            0 <= q,
            bit == 0 || is_pow4(bit as int),
            bit <= 0x4000_0000_0000_0000_0000_0000_0000_0000u128,
            res == q * digit_scale(bit as int),
            num == x - q * q * digit_scale(bit as int),
            q * q * digit_scale(bit as int) <= x < (q + 1) * (q + 1) * digit_scale(bit as int),
        decreases bit,
    {
        let ghost old_bit: int = bit as int;
        proof {
            lemma_digit_step(q, old_bit, x);
            if old_bit > 1 {
                assert(old_bit % 4 == 0 && is_pow4(old_bit / 4));
            }
        }
        assert(res >> 1u128 == res / 2) by (bit_vector);
        assert(bit >> 2u128 == bit / 4) by (bit_vector);
        if num >= res && num - res >= bit {
            num = num - res - bit;
            res = (res >> 1u128) + bit;
            proof {
                q = 2 * q + 1;
            }
        } else {
            res = res >> 1u128;
            proof {
                q = 2 * q;
            }
        }
        bit = bit >> 2u128;
        proof {
            assert(digit_scale(bit as int) == old_bit);
        }
    }
    proof {
        assert(digit_scale(bit as int) == 1);
        assert(q * q * 1 == q * q && (q + 1) * (q + 1) * 1 == (q + 1) * (q + 1));
        assert(res == q * 1);
        lemma_int_sqrt_is(q, x);
    }
    res
}


// ── Storage and state ────────────────────────────────────────────────────────

/// Storage namespace of all adaptive fee state, keyed by pool.
#[derive(Clone, Copy, Debug, PartialEq, Eq, Structural)]
pub enum AdaptiveStorageKey {
    /// Historical short-term price window of a pool.
    Ring(AssetId),
    /// Decaying adaptive fee/volatility state of a pool.
    State(AssetId),
}

/// Bounded window of recent short-term prices of a pool (newest last).
#[derive(Clone, Debug)]
pub struct PriceObservationBuffer {
    pub prices: Vec<i128>,
    /// The asset symbol whose feed was recorded.
    pub asset_symbol: String,
    /// Timestamp of the most recent observation.
    pub last_observed: u64,
}

impl PriceObservationBuffer {
    /// Every recorded price is strictly positive.
    pub open spec fn wf(&self) -> bool {
        forall|i: int| 0 <= i < self.prices@.len() ==> #[trigger] self.prices@[i] > 0
    }

    /// The window of a pool that never recorded a price.
    pub fn empty() -> (r: Self)
        ensures
            r.prices@.len() == 0,
            r.asset_symbol@ == Seq::<char>::empty(),
            r.last_observed == 0,
            r.wf(),
    {
        PriceObservationBuffer { prices: Vec::new(), asset_symbol: String::new(), last_observed: 0 }
    }
}

/// Decaying adaptive fee/volatility snapshot of a pool.
#[derive(Clone, Copy, Debug, PartialEq, Eq, Structural)]
pub struct AdaptiveFeeState {
    /// Effective (post-decay) short-term volatility in bps.
    pub volatility_bps: u64,
    /// The scaled swap fee in effect, in bps.
    pub fee_bps: u32,
    /// Timestamp of the last refresh.
    pub last_updated: u64,
}

impl Default for AdaptiveFeeState {
    fn default() -> (r: Self)
        ensures
            r == (AdaptiveFeeState { volatility_bps: 0, fee_bps: 0, last_updated: 0 }),
    {
        AdaptiveFeeState { volatility_bps: 0, fee_bps: 0, last_updated: 0 }
    }
}

/// Point-in-time view of a pool's adaptive fee for keepers and queries.
#[derive(Clone, Debug)]
pub struct AdaptiveFeeSnapshot {
    pub pool: AssetId,
    pub asset_symbol: String,
    pub volatility_bps: u64,
    pub fee_bps: u32,
    pub base_fee_bps: u32,
    pub max_fee_bps: u32,
    pub observations: u32,
}

// ── Price window ─────────────────────────────────────────────────────────────

/// The last `n` entries of `s` (all of `s` when it is shorter).
pub open spec fn last_n(s: Seq<i128>, n: int) -> Seq<i128> {
    if s.len() <= n {
        s
    } else {
        s.subrange(s.len() - n, s.len() as int)
    }
}

/// Drops the oldest prices until at most `max_len` remain.
fn trim_ring(buf: &mut Vec<i128>, max_len: u32)
    ensures
        final(buf)@ == last_n(old(buf)@, max_len as int),
{
    let len = buf.len();
    if len <= max_len as usize {
        return;
    }
    let start = len - max_len as usize;
    let mut trimmed: Vec<i128> = Vec::new();
    let mut i = start;
    while i < len
        invariant
            start <= i <= len,
            len == buf@.len(),
            trimmed@ == buf@.subrange(start as int, i as int),
        decreases len - i,
    {
        trimmed.push(buf[i]);
        i = i + 1;
    }
    *buf = trimmed;
}

/// Seconds from `then` to `now`, zero when the clock went backwards.
pub open spec fn elapsed_since(now: u64, then: u64) -> int {
    if now >= then {
        now - then
    } else {
        0
    }
}

/// Whether a new observation comes too soon after the previous one.
pub open spec fn observation_too_soon(buf: PriceObservationBuffer, cfg: AdaptiveFeeConfig, now: u64) -> bool {
    buf.prices@.len() > 0 && elapsed_since(now, buf.last_observed) < cfg.sample_interval_secs
}

/// Records a short-term price observation for a pool configured with `cfg`.
///
/// An observation within the sample interval of the previous one is skipped;
/// the result is the window length after recording.
pub fn record_price_observation(
    cfg: Option<AdaptiveFeeConfig>,
    buf: &mut PriceObservationBuffer,
    asset_symbol: String,
    price: i128,
    now: u64,
) -> (r: Result<u64, ContractError>)
    requires
        old(buf).wf(),
        old(buf).prices@.len() < usize::MAX,
    ensures
        final(buf).wf(),
        match cfg {
            None => r == Err::<u64, ContractError>(ContractError::NotRegistered) && *final(buf) == *old(buf),
            Some(c) => if price <= 0 {
                r == Err::<u64, ContractError>(ContractError::AmountTooLow) && *final(buf) == *old(buf)
            } else if observation_too_soon(*old(buf), c, now) {
                r == Ok::<u64, ContractError>(old(buf).prices@.len() as u64) && *final(buf) == *old(buf)
            } else {
                &&& final(buf).prices@ == last_n(old(buf).prices@.push(price), c.ring_buffer_len as int)
                &&& final(buf).asset_symbol@ == (if old(buf).prices@.len() > 0 {
                    old(buf).asset_symbol@
                } else {
                    asset_symbol@
                })
                &&& final(buf).last_observed == now
                &&& r == Ok::<u64, ContractError>(final(buf).prices@.len() as u64)
            },
        },
{
    let c = match cfg {
        None => return Err(ContractError::NotRegistered),
        Some(c) => c,
    };
    if price <= 0 {
        return Err(ContractError::AmountTooLow);
    }
    let populated = buf.prices.len() > 0;
    let elapsed = if now >= buf.last_observed { now - buf.last_observed } else { 0 };
    if populated && elapsed < c.sample_interval_secs {
        return Ok(buf.prices.len() as u64);
    }
    if !populated {
        buf.asset_symbol = asset_symbol;
    }
    buf.prices.push(price);
    trim_ring(&mut buf.prices, c.ring_buffer_len);
    buf.last_observed = now;
    proof {
        let s = old(buf).prices@.push(price);
        assert forall|i: int| 0 <= i < buf.prices@.len() implies #[trigger] buf.prices@[i] > 0 by {
            if s.len() > c.ring_buffer_len as int {
                assert(buf.prices@[i] == s[s.len() - c.ring_buffer_len + i]);
            } else {
                assert(buf.prices@[i] == s[i]);
            }
        }
    }
    Ok(buf.prices.len() as u64)
}

/// Records the reply of a pool's oracle TWAP feed: a missing price is
/// refused, any other is recorded as by [`record_price_observation`].
pub fn observe_from_oracle(
    cfg: Option<AdaptiveFeeConfig>,
    buf: &mut PriceObservationBuffer,
    asset_symbol: String,
    oracle_price: Option<i128>,
    now: u64,
) -> (r: Result<u64, ContractError>)
    requires
        old(buf).wf(),
        old(buf).prices@.len() < usize::MAX,
    ensures
        final(buf).wf(),
        cfg is None ==> r == Err::<u64, ContractError>(ContractError::NotRegistered) && *final(buf)
            == *old(buf),
        cfg is Some && oracle_price is None ==> r == Err::<u64, ContractError>(
            ContractError::NotInitialized,
        ) && *final(buf) == *old(buf),
        cfg is Some && oracle_price is Some ==> {
            let c = cfg->0;
            let price = oracle_price->0;
            if price <= 0 {
                r == Err::<u64, ContractError>(ContractError::AmountTooLow) && *final(buf) == *old(buf)
            } else if observation_too_soon(*old(buf), c, now) {
                r == Ok::<u64, ContractError>(old(buf).prices@.len() as u64) && *final(buf) == *old(buf)
            } else {
                &&& final(buf).prices@ == last_n(old(buf).prices@.push(price), c.ring_buffer_len as int)
                &&& final(buf).last_observed == now
                &&& r == Ok::<u64, ContractError>(final(buf).prices@.len() as u64)
            }
        },
{
    if cfg.is_none() {
        return Err(ContractError::NotRegistered);
    }
    let price = match oracle_price {
        Some(p) => p,
        None => return Err(ContractError::NotInitialized),
    };
    record_price_observation(cfg, buf, asset_symbol, price, now)
}

// ── Volatility ───────────────────────────────────────────────────────────────

/// Sum of the prices of a window.
pub open spec fn seq_sum(s: Seq<i128>) -> int
    decreases s.len(),
{
    if s.len() == 0 {
        0
    } else {
        seq_sum(s.drop_last()) + s.last()
    }
}

/// Sum of the squared deviations of a window's prices from `m`.
pub open spec fn sq_dev_sum(s: Seq<i128>, m: int) -> int
    decreases s.len(),
{
    if s.len() == 0 {
        0
    } else {
        sq_dev_sum(s.drop_last(), m) + (s.last() - m) * (s.last() - m)
    }
}

/// Mean price of a window, rounded down.
pub open spec fn window_mean(s: Seq<i128>) -> int {
    seq_sum(s) / (s.len() as int)
}

/// Population variance of a window around its rounded mean, rounded down.
pub open spec fn window_variance(s: Seq<i128>) -> int {
    sq_dev_sum(s, window_mean(s)) / (s.len() as int)
}

/// Whether the sum or the squared-deviation sum of a window leaves `i128`.
pub open spec fn volatility_overflows(s: Seq<i128>) -> bool {
    seq_sum(s) > i128::MAX || sq_dev_sum(s, window_mean(s)) > i128::MAX
}

/// Standard deviation of a window in bps of its mean, before narrowing to
/// 64 bits.
pub open spec fn raw_volatility_bps(s: Seq<i128>) -> int {
    int_sqrt(window_variance(s)) * 10_000 / window_mean(s)
}

/// Whether the whole window is older than its sampling span.
pub open spec fn window_is_stale(last_observed: u64, now: u64, cfg: AdaptiveFeeConfig) -> bool {
    now < last_observed || now - last_observed > cfg.sample_interval_secs * cfg.ring_buffer_len
}

/// Instantaneous volatility of a window: zero with fewer than two prices or
/// a stale window.
pub open spec fn instantaneous_volatility(buf: PriceObservationBuffer, cfg: AdaptiveFeeConfig, now: u64) -> u64 {
    if buf.prices@.len() < 2 || window_is_stale(buf.last_observed, now, cfg) {
        0
    } else {
        raw_volatility_bps(buf.prices@) as u64
    }
}

proof fn lemma_take_step(s: Seq<i128>, i: int, m: int)
    requires
        0 <= i < s.len(),
    ensures
        seq_sum(s.take(i + 1)) == seq_sum(s.take(i)) + s[i],
        sq_dev_sum(s.take(i + 1), m) == sq_dev_sum(s.take(i), m) + (s[i] - m) * (s[i] - m),
{
    assert(s.take(i + 1).drop_last() =~= s.take(i));
}

proof fn lemma_prefix_le_total(s: Seq<i128>, i: int, m: int)
    requires
        0 <= i <= s.len(),
        forall|k: int| 0 <= k < s.len() ==> #[trigger] s[k] > 0,
    ensures
        seq_sum(s.take(i)) <= seq_sum(s),
        sq_dev_sum(s.take(i), m) <= sq_dev_sum(s, m),
        seq_sum(s.take(i)) >= i,
        sq_dev_sum(s.take(i), m) >= 0,
    decreases s.len() - i,
{
    lemma_prefix_lower(s, i, m);
    if i == s.len() {
        assert(s.take(i) =~= s);
    } else {
        lemma_prefix_le_total(s, i + 1, m);
        lemma_take_step(s, i, m);
        assert((s[i] - m) * (s[i] - m) >= 0) by (nonlinear_arith);
    }
}

proof fn lemma_prefix_lower(s: Seq<i128>, i: int, m: int)
    requires
        0 <= i <= s.len(),
        forall|k: int| 0 <= k < s.len() ==> #[trigger] s[k] > 0,
    ensures
        seq_sum(s.take(i)) >= i,
        sq_dev_sum(s.take(i), m) >= 0,
    decreases i,
{
    if i > 0 {
        lemma_prefix_lower(s, i - 1, m);
        lemma_take_step(s, i - 1, m);
        assert((s[i - 1] - m) * (s[i - 1] - m) >= 0) by (nonlinear_arith);
    } else {
        assert(s.take(0) =~= Seq::<i128>::empty());
    }
}

/// Short-term volatility of a window: `(bps, has_data)`, where `has_data`
/// says whether the window held at least two prices.
pub fn compute_volatility_bps(
    buf: &PriceObservationBuffer,
    cfg: &AdaptiveFeeConfig,
    now: u64,
) -> (r: Result<(u64, bool), ContractError>)
    requires
        buf.wf(),
    ensures
        buf.prices@.len() < 2 ==> r == Ok::<(u64, bool), ContractError>((0, false)),
        buf.prices@.len() >= 2 && volatility_overflows(buf.prices@) ==> r == Err::<
            (u64, bool),
            ContractError,
        >(ContractError::Overflow),
        buf.prices@.len() >= 2 && !volatility_overflows(buf.prices@) ==> r == Ok::<
            (u64, bool),
            ContractError,
        >((instantaneous_volatility(*buf, *cfg, now), true)),
{
    let n = buf.prices.len();
    if n < 2 {
        return Ok((0, false));
    }
    let ghost s = buf.prices@;
    proof {
        assert(s.take(n as int) =~= s);
        lemma_prefix_lower(s, n as int, 0);
        lemma_prefix_lower(s, n as int, window_mean(s));
        vstd::arithmetic::div_mod::lemma_div_is_ordered(n as int, seq_sum(s), n as int);
        vstd::arithmetic::div_mod::lemma_div_by_self(n as int);
    }
    let mut sum: i128 = 0;
    let mut i: usize = 0;
    while i < n
        invariant
            n == s.len(),
            n >= 2,
            s == buf.prices@,
            buf.wf(),
            seq_sum(s) >= n,
            i <= n,
            sum == seq_sum(s.take(i as int)),
        decreases n - i,
    {
        proof {
            lemma_take_step(s, i as int, 0);
            lemma_prefix_le_total(s, i as int + 1, 0);
        }
        match sum.checked_add(buf.prices[i]) {
            Some(v) => sum = v,
            None => return Err(ContractError::Overflow),
        }
        i = i + 1;
    }
    proof {
        assert(s.take(n as int) =~= s);
    }
    let mean = sum / (n as i128);
    assert(mean == window_mean(s));
    if mean <= 0 {
        assert(false);
        return Ok((0, false));
    }
    let ghost m: int = mean as int;
    let mut sum_sq: i128 = 0;
    let mut j: usize = 0;
    while j < n
        invariant
            n == s.len(),
            n >= 2,
            s == buf.prices@,
            buf.wf(),
            j <= n,
            m == mean,
            m == window_mean(s),
            !(seq_sum(s) > i128::MAX),
            mean > 0,
            sum_sq == sq_dev_sum(s.take(j as int), m),
        decreases n - j,
    {
        proof {
            lemma_take_step(s, j as int, m);
            lemma_prefix_le_total(s, j as int + 1, m);
            lemma_prefix_lower(s, j as int, m);
        }
        let p = buf.prices[j];
        let dev: i128 = if p >= mean { p - mean } else { mean - p };
        assert(dev * dev == (p - m) * (p - m)) by (nonlinear_arith)
            requires
                dev == p - m || dev == m - p,
        ;
        let sq = match dev.checked_mul(dev) {
            Some(v) => v,
            None => {
                assert(dev * dev >= 0) by (nonlinear_arith);
                return Err(ContractError::Overflow);
            },
        };
        match sum_sq.checked_add(sq) {
            Some(v) => sum_sq = v,
            None => return Err(ContractError::Overflow),
        }
        j = j + 1;
    }
    proof {
        assert(s.take(n as int) =~= s);
    }
    proof {
        lemma_prefix_lower(s, n as int, m);
    }
    let variance = sum_sq / (n as i128);
    assert(variance >= 0);
    let std_dev = isqrt(variance as u128);
    assert(std_dev < 0x1_0000_0000_0000_0000) by (nonlinear_arith)
        requires
            std_dev * std_dev <= variance,
            variance <= i128::MAX,
    ;
    let denom = mean as u128;
    let vol_bps: u128 = std_dev * 10_000 / denom;
    assert((cfg.sample_interval_secs as u128) * (cfg.ring_buffer_len as u128) <= 0xFFFF_FFFF_FFFF_FFFF
        * 0xFFFF_FFFF) by (nonlinear_arith);
    let window_secs: u128 = (cfg.sample_interval_secs as u128) * (cfg.ring_buffer_len as u128);
    let stale = now < buf.last_observed || ((now - buf.last_observed) as u128) > window_secs;
    Ok((if stale { 0u64 } else { #[verifier::truncate] (vol_bps as u64) }, true))
}

// ── Fee curve and decay ──────────────────────────────────────────────────────

/// Whether the fee of volatility `v` is defined under `cfg`: inside the
/// interpolation band the base must not exceed the cap.
pub open spec fn fee_defined(v: u64, cfg: AdaptiveFeeConfig) -> bool {
    cfg.low_volatility_bps < v < cfg.high_volatility_bps ==> cfg.base_fee_bps <= cfg.max_fee_bps
}

/// The fee of volatility `v`: the base at or below the low threshold, the
/// cap at or above the high threshold, linear in between (rounded down).
pub open spec fn adaptive_fee_bps(v: u64, cfg: AdaptiveFeeConfig) -> int {
    if v <= cfg.low_volatility_bps {
        cfg.base_fee_bps as int
    } else if v >= cfg.high_volatility_bps {
        cfg.max_fee_bps as int
    } else {
        cfg.base_fee_bps + (v - cfg.low_volatility_bps) * (cfg.max_fee_bps - cfg.base_fee_bps) / (
        cfg.high_volatility_bps - cfg.low_volatility_bps)
    }
}

proof fn lemma_interpolation_bounds(d: int, span: int, width: int)
    requires
        0 < d < width,
        0 <= span,
    ensures
        0 <= d * span / width <= span,
{
    assert(0 <= d * span) by (nonlinear_arith)
        requires
            0 < d,
            0 <= span,
    ;
    assert(d * span <= width * span) by (nonlinear_arith)
        requires
            d < width,
            0 <= span,
    ;
    vstd::arithmetic::div_mod::lemma_div_is_ordered(d * span, width * span, width);
    vstd::arithmetic::div_mod::lemma_div_pos_is_pos(d * span, width);
    assert(width * span / width == span) by (nonlinear_arith)
        requires
            width > 0,
    ;
}

/// Maps a volatility (bps) to a fee (bps) within the configured band.
pub fn fee_for_volatility(vol_bps: u64, cfg: &AdaptiveFeeConfig) -> (r: u32)
    requires
        fee_defined(vol_bps, *cfg),
    ensures
        r == adaptive_fee_bps(vol_bps, *cfg),
{
    let low = cfg.low_volatility_bps as u128;
    let high = cfg.high_volatility_bps as u128;
    let v = vol_bps as u128;
    let base = cfg.base_fee_bps as u128;
    let max = cfg.max_fee_bps as u128;
    if v <= low {
        return cfg.base_fee_bps;
    }
    if v >= high {
        return cfg.max_fee_bps;
    }
    let span: u128 = if max >= base { max - base } else { 0 };
    proof {
        lemma_interpolation_bounds((v - low) as int, span as int, (high - low) as int);
    }
    assert((v - low) * span <= 0xFFFF_FFFF_FFFF_FFFF * 0xFFFF_FFFF) by (nonlinear_arith)
        requires
            v - low <= 0xFFFF_FFFF_FFFF_FFFF,
            span <= 0xFFFF_FFFF,
    ;
    let ratio = (v - low) * span / (high - low);
    (base + ratio) as u32
}

/// Every fee of a configuration whose base does not exceed its cap lies in
/// `[base, max]`.
pub proof fn lemma_fee_within_band(v: u64, cfg: AdaptiveFeeConfig)
    requires
        cfg.base_fee_bps <= cfg.max_fee_bps,
    ensures
        cfg.base_fee_bps <= adaptive_fee_bps(v, cfg) <= cfg.max_fee_bps,
{
    if cfg.low_volatility_bps < v < cfg.high_volatility_bps {
        lemma_interpolation_bounds(
            v - cfg.low_volatility_bps,
            cfg.max_fee_bps - cfg.base_fee_bps,
            cfg.high_volatility_bps - cfg.low_volatility_bps,
        );
    }
}

/// Outside the band the fee is pinned: the base fee at or below the low
/// threshold, the cap at or above the high threshold (when the thresholds
/// are ordered, so the two never overlap).
pub proof fn lemma_fee_pinned_outside_thresholds(v: u64, cfg: AdaptiveFeeConfig)
    requires
        cfg.low_volatility_bps < cfg.high_volatility_bps,
    ensures
        v <= cfg.low_volatility_bps ==> adaptive_fee_bps(v, cfg) == cfg.base_fee_bps,
        v >= cfg.high_volatility_bps ==> adaptive_fee_bps(v, cfg) == cfg.max_fee_bps,
{
}

/// Between the thresholds the fee interpolates linearly: the surcharge
/// `fee - base` is the largest whole number of bps whose share of the
/// threshold width does not exceed the volatility's share of the band,
/// `(fee - base) * (high - low) <= (v - low) * (max - base) < (fee - base + 1) * (high - low)`.
/// So the fee rises strictly above the base once `(v - low) * (max - base)`
/// reaches `high - low`.
pub proof fn lemma_fee_interpolates_between_thresholds(v: u64, cfg: AdaptiveFeeConfig)
    requires
        cfg.low_volatility_bps < v < cfg.high_volatility_bps,
        cfg.base_fee_bps <= cfg.max_fee_bps,
    ensures
        ({
            let extra = adaptive_fee_bps(v, cfg) - cfg.base_fee_bps;
            let width = cfg.high_volatility_bps - cfg.low_volatility_bps;
            let scaled = (v - cfg.low_volatility_bps) * (cfg.max_fee_bps - cfg.base_fee_bps);
            &&& extra * width <= scaled
            &&& scaled < (extra + 1) * width
        }),
        (v - cfg.low_volatility_bps) * (cfg.max_fee_bps - cfg.base_fee_bps) >= cfg.high_volatility_bps
            - cfg.low_volatility_bps ==> adaptive_fee_bps(v, cfg) > cfg.base_fee_bps,
{
    let width: int = cfg.high_volatility_bps - cfg.low_volatility_bps;
    let scaled: int = (v - cfg.low_volatility_bps) * (cfg.max_fee_bps - cfg.base_fee_bps);
    let q = scaled / width;
    vstd::arithmetic::div_mod::lemma_fundamental_div_mod(scaled, width);
    assert(adaptive_fee_bps(v, cfg) - cfg.base_fee_bps == q);
    assert(q * width <= scaled && scaled < (q + 1) * width) by (nonlinear_arith)
        requires
            scaled == width * q + scaled % width,
            0 <= scaled % width < width,
    ;
    if scaled >= width {
        assert(q >= 1) by (nonlinear_arith)
            requires
                scaled < (q + 1) * width,
                scaled >= width,
                width > 0,
        ;
    }
}

/// The fee never falls as volatility rises, for a configuration whose base
/// does not exceed its cap.
pub proof fn lemma_fee_monotone(v1: u64, v2: u64, cfg: AdaptiveFeeConfig)
    requires
        cfg.base_fee_bps <= cfg.max_fee_bps,
        v1 <= v2,
    ensures
        adaptive_fee_bps(v1, cfg) <= adaptive_fee_bps(v2, cfg),
{
    lemma_fee_within_band(v1, cfg);
    lemma_fee_within_band(v2, cfg);
    let low = cfg.low_volatility_bps as int;
    let high = cfg.high_volatility_bps as int;
    let span = cfg.max_fee_bps - cfg.base_fee_bps;
    if low < v1 && v2 < high {
        assert((v1 - low) * span <= (v2 - low) * span) by (nonlinear_arith)
            requires
                v1 <= v2,
                0 <= span,
        ;
        vstd::arithmetic::div_mod::lemma_div_is_ordered((v1 - low) * span, (v2 - low) * span, high - low);
    }
}

/// The previous volatility decayed over `elapsed` seconds with half-life
/// `half_life`: `prev · half_life / (half_life + elapsed)`, unchanged when no
/// time passed.
pub open spec fn decayed(prev: u64, half_life: u64, elapsed: int) -> int {
    if elapsed == 0 {
        prev as int
    } else {
        prev * half_life / (half_life + elapsed)
    }
}

/// Decays a volatility toward zero over `elapsed_secs`.
pub fn decayed_volatility(prev_vol: u64, half_life_secs: u64, elapsed_secs: u64) -> (r: u64)
    ensures
        r == decayed(prev_vol, half_life_secs, elapsed_secs as int),
        r <= prev_vol,
{
    if elapsed_secs == 0 {
        return prev_vol;
    }
    assert((prev_vol as u128) * (half_life_secs as u128) <= 0xFFFF_FFFF_FFFF_FFFF * 0xFFFF_FFFF_FFFF_FFFF)
        by (nonlinear_arith);
    let numerator = (prev_vol as u128) * (half_life_secs as u128);
    let denom = (half_life_secs as u128) + (elapsed_secs as u128);
    proof {
        lemma_decay_bounded(prev_vol, half_life_secs, elapsed_secs as int);
    }
    (numerator / denom) as u64
}

proof fn lemma_decay_bounded(prev: u64, half_life: u64, elapsed: int)
    requires
        elapsed > 0,
    ensures
        0 <= prev * half_life / (half_life + elapsed) <= prev,
{
    assert(prev * half_life <= prev * (half_life + elapsed)) by (nonlinear_arith)
        requires
            elapsed > 0,
    ;
    assert(0 <= prev * half_life) by (nonlinear_arith);
    vstd::arithmetic::div_mod::lemma_div_is_ordered(
        prev * half_life,
        prev * (half_life + elapsed),
        half_life + elapsed,
    );
    vstd::arithmetic::div_mod::lemma_div_pos_is_pos(prev * half_life, half_life + elapsed);
    assert(prev * (half_life + elapsed) / (half_life + elapsed) == prev) by (nonlinear_arith)
        requires
            elapsed > 0,
    ;
}

/// Decay never raises a volatility, and more elapsed time never leaves more
/// of it.
pub proof fn lemma_decay_monotone(prev: u64, half_life: u64, e1: int, e2: int)
    requires
        0 <= e1 <= e2,
    ensures
        decayed(prev, half_life, e2) <= decayed(prev, half_life, e1) <= prev,
{
    if e2 > 0 {
        lemma_decay_bounded(prev, half_life, e2);
    }
    if e1 > 0 {
        lemma_decay_bounded(prev, half_life, e1);
        assert(0 <= prev * half_life) by (nonlinear_arith);
        vstd::arithmetic::div_mod::lemma_div_is_ordered_by_denominator(
            prev * half_life,
            half_life + e1,
            half_life + e2,
        );
    }
}

// ── Resolution ───────────────────────────────────────────────────────────────

/// The effective volatility: the larger of the instantaneous volatility and
/// the decayed previous one.
pub open spec fn effective_volatility(
    cfg: AdaptiveFeeConfig,
    buf: PriceObservationBuffer,
    prev: AdaptiveFeeState,
    now: u64,
) -> u64 {
    let inst = instantaneous_volatility(buf, cfg, now);
    let dec = decayed(prev.volatility_bps, cfg.decay_half_life_secs, elapsed_since(now, prev.last_updated));
    if inst >= dec {
        inst
    } else {
        dec as u64
    }
}

/// Outcome of refreshing a pool's adaptive fee.
#[derive(Clone, Copy, Debug, PartialEq, Eq, Structural)]
pub struct AdaptiveFeeResolution {
    pub fee_bps: u32,
    pub volatility_bps: u64,
    /// The state to persist.
    pub state: AdaptiveFeeState,
    /// Whether the fee moved, which is announced to indexers.
    pub fee_changed: bool,
}

/// Refreshes the adaptive fee of a pool configured with `cfg` from its price
/// window and previous state.
pub fn resolve_adaptive_fee(
    cfg: Option<AdaptiveFeeConfig>,
    buf: &PriceObservationBuffer,
    prev: AdaptiveFeeState,
    now: u64,
) -> (r: Result<AdaptiveFeeResolution, ContractError>)
    requires
        buf.wf(),
        cfg matches Some(c) ==> (!(buf.prices@.len() >= 2 && volatility_overflows(buf.prices@))
            ==> fee_defined(effective_volatility(c, *buf, prev, now), c)),
    ensures
        cfg is None ==> r == Err::<AdaptiveFeeResolution, ContractError>(ContractError::NotRegistered),
        cfg is Some && buf.prices@.len() >= 2 && volatility_overflows(buf.prices@) ==> r == Err::<
            AdaptiveFeeResolution,
            ContractError,
        >(ContractError::Overflow),
        cfg matches Some(c) ==> !(buf.prices@.len() >= 2 && volatility_overflows(buf.prices@)) ==> {
            let v = effective_volatility(c, *buf, prev, now);
            let fee = adaptive_fee_bps(v, c);
            &&& r is Ok
            &&& r->Ok_0.volatility_bps == v
            &&& r->Ok_0.fee_bps == fee
            &&& r->Ok_0.state == (AdaptiveFeeState { volatility_bps: v, fee_bps: fee as u32, last_updated: now })
            &&& r->Ok_0.fee_changed == (fee != prev.fee_bps)
        },
{
    let c = match cfg {
        None => return Err(ContractError::NotRegistered),
        Some(c) => c,
    };
    let (inst_vol, _has_data) = match compute_volatility_bps(buf, &c, now) {
        Ok(v) => v,
        Err(e) => return Err(e),
    };
    let elapsed = if now >= prev.last_updated { now - prev.last_updated } else { 0 };
    let dec = decayed_volatility(prev.volatility_bps, c.decay_half_life_secs, elapsed);
    let effective_vol = if inst_vol >= dec { inst_vol } else { dec };
    let fee_bps = fee_for_volatility(effective_vol, &c);
    let state = AdaptiveFeeState { volatility_bps: effective_vol, fee_bps, last_updated: now };
    Ok(AdaptiveFeeResolution { fee_bps, volatility_bps: effective_vol, state, fee_changed: fee_bps != prev.fee_bps })
}

/// Refreshes a pool's adaptive fee and reports it with the pool's window
/// and fee band; the refreshed state is returned for persisting.
pub fn get_adaptive_fee_snapshot(
    pool: AssetId,
    cfg: Option<AdaptiveFeeConfig>,
    buf: &PriceObservationBuffer,
    prev: AdaptiveFeeState,
    now: u64,
) -> (r: Result<(AdaptiveFeeSnapshot, AdaptiveFeeResolution), ContractError>)
    requires
        buf.wf(),
        buf.prices@.len() <= u32::MAX,
        cfg matches Some(c) ==> (!(buf.prices@.len() >= 2 && volatility_overflows(buf.prices@))
            ==> fee_defined(effective_volatility(c, *buf, prev, now), c)),
    ensures
        match resolve_outcome(cfg, *buf, prev, now) {
            Err(e) => r == Err::<(AdaptiveFeeSnapshot, AdaptiveFeeResolution), ContractError>(e),
            Ok(res) => r is Ok && {
                let (snap, got) = r->Ok_0;
                &&& got == res
                &&& snap.pool == pool
                &&& snap.asset_symbol@ == buf.asset_symbol@
                &&& snap.volatility_bps == res.volatility_bps
                &&& snap.fee_bps == res.fee_bps
                &&& snap.base_fee_bps == cfg->0.base_fee_bps
                &&& snap.max_fee_bps == cfg->0.max_fee_bps
                &&& snap.observations == buf.prices@.len()
            },
        },
{
    let res = match resolve_adaptive_fee(cfg, buf, prev, now) {
        Ok(res) => res,
        Err(e) => return Err(e),
    };
    let c = cfg.unwrap();
    let snap = AdaptiveFeeSnapshot {
        pool,
        asset_symbol: buf.asset_symbol.clone(),
        volatility_bps: res.volatility_bps,
        fee_bps: res.fee_bps,
        base_fee_bps: c.base_fee_bps,
        max_fee_bps: c.max_fee_bps,
        observations: buf.prices.len() as u32,
    };
    Ok((snap, res))
}

/// The outcome that [`resolve_adaptive_fee`] yields.
pub open spec fn resolve_outcome(
    cfg: Option<AdaptiveFeeConfig>,
    buf: PriceObservationBuffer,
    prev: AdaptiveFeeState,
    now: u64,
) -> Result<AdaptiveFeeResolution, ContractError> {
    match cfg {
        None => Err(ContractError::NotRegistered),
        Some(c) => if buf.prices@.len() >= 2 && volatility_overflows(buf.prices@) {
            Err(ContractError::Overflow)
        } else {
            let v = effective_volatility(c, buf, prev, now);
            let fee = adaptive_fee_bps(v, c);
            Ok(
                AdaptiveFeeResolution {
                    fee_bps: fee as u32,
                    volatility_bps: v,
                    state: AdaptiveFeeState { volatility_bps: v, fee_bps: fee as u32, last_updated: now },
                    fee_changed: fee != prev.fee_bps,
                },
            )
        },
    }
}

} // verus!
