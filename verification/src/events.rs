//! Event payloads, proposal expiry sweeps and the reserve imbalance fee
//! multiplier.
use vstd::prelude::*;

use crate::errors::PROPOSAL_EXPIRY_SECONDS;
use crate::{Address, AssetId};

verus! {

/// Payload announcing added liquidity.
#[derive(Clone, Copy, Debug, PartialEq, Eq, Structural)]
pub struct LiquidityAddedEvent {
    pub provider: Address,
    pub pool_id: AssetId,
    pub token_a_amount: i128,
    pub token_b_amount: i128,
    pub minted_lp_units: i128,
}

/// Payload announcing removed liquidity.
#[derive(Clone, Copy, Debug, PartialEq, Eq, Structural)]
pub struct LiquidityRemovedEvent {
    pub provider: Address,
    pub pool_id: AssetId,
    pub token_a_amount: i128,
    pub token_b_amount: i128,
    pub burned_lp_units: i128,
}

/// A traded asset pair.
#[derive(Clone, Copy, Debug, PartialEq, Eq, Structural)]
pub struct AssetPair {
    pub sell_asset: Address,
    pub buy_asset: Address,
}

/// Alert raised when an order book's bid-ask spread widens past the safety
/// threshold.
#[derive(Clone, Copy, Debug, PartialEq, Eq, Structural)]
pub struct LiquidityProviderAlert {
    pub pair: AssetPair,
    pub best_bid: i128,
    pub best_ask: i128,
    /// `(ask_min - bid_max) / bid_max` in fixed point.
    pub spread_ratio: i128,
}

/// Payload announcing an executed swap.
#[derive(Clone, Debug)]
pub struct SwapExecutedEvent {
    pub trader: Address,
    pub input_asset: String,
    pub output_asset: String,
    pub execution_price: i128,
    pub slippage: i128,
}

/// Payload announcing an expired proposal.
#[derive(Clone, Copy, Debug, PartialEq, Eq, Structural)]
pub struct ProposalExpiredEvent {
    pub proposal_id: u64,
    pub expired_at: i64,
}

/// The event announcing that `proposal_id` expired at `expired_at`.
pub fn publish_proposal_expired(proposal_id: u64, expired_at: i64) -> (r: ProposalExpiredEvent)
    ensures
        r == (ProposalExpiredEvent { proposal_id, expired_at }),
{
    ProposalExpiredEvent { proposal_id, expired_at }
}

/// `a - b`, saturated at the bounds of `i64`.
pub open spec fn sat_sub_i64(a: i64, b: i64) -> int {
    if a - b > i64::MAX {
        i64::MAX as int
    } else if a - b < i64::MIN {
        i64::MIN as int
    } else {
        a - b
    }
}

/// Whether a proposal created at `created_at` has outlived the expiry
/// window at `now`.
pub fn has_proposal_expired(created_at: i64, now: i64) -> (r: bool)
    ensures
        r == (sat_sub_i64(now, created_at) > PROPOSAL_EXPIRY_SECONDS),
{
    let age: i64 = match now.checked_sub(created_at) {
        Some(v) => v,
        None => if created_at > 0 { i64::MIN } else { i64::MAX },
    };
    age > PROPOSAL_EXPIRY_SECONDS
}

/// The expiry events of the `(id, created_at)` proposals that expired by
/// `now`, in order.
pub open spec fn expired_events(proposals: Seq<(u64, i64)>, now: i64) -> Seq<ProposalExpiredEvent>
    decreases proposals.len(),
{
    if proposals.len() == 0 {
        Seq::empty()
    } else {
        let rest = expired_events(proposals.drop_last(), now);
        let (id, created_at) = proposals.last();
        if sat_sub_i64(now, created_at) > PROPOSAL_EXPIRY_SECONDS {
            rest.push(ProposalExpiredEvent { proposal_id: id, expired_at: now })
        } else {
            rest
        }
    }
}

/// Sweeps `(id, created_at)` proposals, announcing each expired one.
pub fn cleanup_expired_proposals(proposals: &Vec<(u64, i64)>, now: i64) -> (r: Vec<ProposalExpiredEvent>)
    ensures
        r@ == expired_events(proposals@, now),
{
    let mut out: Vec<ProposalExpiredEvent> = Vec::new();
    let mut i: usize = 0;
    while i < proposals.len()
        invariant
            i <= proposals@.len(),
            out@ == expired_events(proposals@.take(i as int), now),
        decreases proposals.len() - i,
    {
        assert(proposals@.take(i as int + 1).drop_last() =~= proposals@.take(i as int));
        let (id, created_at) = proposals[i];
        if has_proposal_expired(created_at, now) {
            out.push(publish_proposal_expired(id, now));
        }
        i = i + 1;
    }
    assert(proposals@.take(proposals@.len() as int) =~= proposals@);
    out
}

// ── Reserve imbalance fee multiplier ─────────────────────────────────────────

/// Fixed-point scale of the multiplier and of shares (10^6).
pub const IMBALANCE_SCALE: i128 = 1_000_000;
/// Smallest multiplier: a 50 % discount.
pub const MIN_FEE_MULTIPLIER: i128 = 500_000;
/// Largest multiplier: a 100 % surcharge.
pub const MAX_FEE_MULTIPLIER: i128 = 2_000_000;

/// Division rounded toward zero.
pub open spec fn trunc_div(a: int, b: int) -> int {
    if (a >= 0) == (b > 0) || a == 0 {
        if a >= 0 {
            a / b
        } else {
            (-a) / (-b)
        }
    } else if a < 0 {
        -((-a) / b)
    } else {
        -(a / (-b))
    }
}

pub(crate) fn div_toward_zero(a: i128, b: i128) -> (r: i128)
    requires
        b != 0,
        !(a == i128::MIN && b == -1),
    ensures
        r == trunc_div(a as int, b as int),
{
    let ua: u128 = if a >= 0 { a as u128 } else { (-(a + 1)) as u128 + 1 };
    let ub: u128 = if b >= 0 { b as u128 } else { (-(b + 1)) as u128 + 1 };
    let q = ua / ub;
    proof {
        if (a < 0) != (b < 0) {
            assert(q <= 0x8000_0000_0000_0000_0000_0000_0000_0000) by (nonlinear_arith)
                requires
                    q == ua / ub,
                    ua <= 0x8000_0000_0000_0000_0000_0000_0000_0000,
                    ub >= 1,
            {
                vstd::arithmetic::div_mod::lemma_div_is_ordered_by_denominator(ua as int, 1, ub as int);
            }
        } else {
            assert(q <= 0x7FFF_FFFF_FFFF_FFFF_FFFF_FFFF_FFFF_FFFF) by (nonlinear_arith)
                requires
                    q == ua / ub,
                    ua <= 0x8000_0000_0000_0000_0000_0000_0000_0000,
                    ub >= 1,
                    ua == 0x8000_0000_0000_0000_0000_0000_0000_0000 ==> ub >= 2,
            {
                vstd::arithmetic::div_mod::lemma_div_is_ordered_by_denominator(ua as int, 1, ub as int);
                if ua == 0x8000_0000_0000_0000_0000_0000_0000_0000 {
                    vstd::arithmetic::div_mod::lemma_div_is_ordered_by_denominator(ua as int, 2, ub as int);
                }
            }
        }
    }
    if (a < 0) != (b < 0) {
        if q == 0x8000_0000_0000_0000_0000_0000_0000_0000 {
            i128::MIN
        } else {
            -(q as i128)
        }
    } else {
        q as i128
    }
}

/// Sum of a sequence.
pub open spec fn sum_i128(s: Seq<i128>) -> int
    decreases s.len(),
{
    if s.len() == 0 {
        0
    } else {
        sum_i128(s.drop_last()) + s.last()
    }
}

/// Every partial sum of `s` fits in `i128`.
pub open spec fn partial_sums_fit(s: Seq<i128>) -> bool {
    forall|k: int| 0 <= k <= s.len() ==> i128::MIN <= #[trigger] sum_i128(s.take(k)) <= i128::MAX
}

/// Every entry of `s` scaled by 10^6 fits in `i128`.
pub open spec fn scaled_fit(s: Seq<i128>) -> bool {
    forall|k: int| 0 <= k < s.len() ==> i128::MIN <= #[trigger] s[k] * 1_000_000 <= i128::MAX
}

/// Whether the largest share deviation of `reserves` from `weights` can be
/// computed: sums and scaled entries fit, a non-empty reserve total needs
/// a non-zero weight total, and the shares and their differences fit.
pub open spec fn score_defined(reserves: Seq<i128>, weights: Seq<i128>) -> bool {
    &&& reserves.len() == weights.len()
    &&& partial_sums_fit(reserves)
    &&& sum_i128(reserves) != 0 ==> {
        &&& partial_sums_fit(weights)
        &&& sum_i128(weights) != 0
        &&& scaled_fit(reserves)
        &&& scaled_fit(weights)
        &&& !(sum_i128(reserves) == -1 && exists|k: int| 0 <= k < reserves.len() && reserves[k] * 1_000_000
            == i128::MIN)
        &&& !(sum_i128(weights) == -1 && exists|k: int| 0 <= k < weights.len() && weights[k] * 1_000_000
            == i128::MIN)
        &&& forall|k: int| 0 <= k < reserves.len() ==> -i128::MAX <= #[trigger] share_diff(reserves, weights, k)
            <= i128::MAX
    }
}

/// The share of entry `k` of `reserves` minus its target share.
pub open spec fn share_diff(reserves: Seq<i128>, weights: Seq<i128>, k: int) -> int {
    trunc_div(reserves[k] * 1_000_000, sum_i128(reserves)) - trunc_div(weights[k] * 1_000_000, sum_i128(weights))
}

/// The largest absolute share deviation among the first `n` entries.
pub open spec fn max_deviation(reserves: Seq<i128>, weights: Seq<i128>, n: int) -> int
    decreases n,
{
    if n <= 0 {
        0
    } else {
        let d = share_diff(reserves, weights, n - 1);
        let a = if d > 0 { d } else { -d };
        let m = max_deviation(reserves, weights, n - 1);
        if a > m {
            a
        } else {
            m
        }
    }
}

/// The imbalance score: zero for empty reserves, otherwise the largest
/// absolute deviation of a reserve share from its target share.
pub open spec fn imbalance_score_spec(reserves: Seq<i128>, weights: Seq<i128>) -> int {
    if sum_i128(reserves) == 0 {
        0
    } else {
        max_deviation(reserves, weights, reserves.len() as int)
    }
}

fn checked_sum(s: &Vec<i128>) -> (r: i128)
    requires
        partial_sums_fit(s@),
    ensures
        r == sum_i128(s@),
{
    let mut acc: i128 = 0;
    let mut i: usize = 0;
    assert(s@.take(0) =~= Seq::<i128>::empty());
    while i < s.len()
        invariant
            i <= s@.len(),
            partial_sums_fit(s@),
            acc == sum_i128(s@.take(i as int)),
        decreases s.len() - i,
    {
        assert(s@.take(i as int + 1).drop_last() =~= s@.take(i as int));
        assert(i128::MIN <= sum_i128(s@.take(i as int + 1)) <= i128::MAX);
        acc = acc + s[i];
        i = i + 1;
    }
    assert(s@.take(s@.len() as int) =~= s@);
    acc
}

fn imbalance_score(reserves: &Vec<i128>, target_weights: &Vec<i128>) -> (r: i128)
    requires
        score_defined(reserves@, target_weights@),
    ensures
        r == imbalance_score_spec(reserves@, target_weights@),
        r >= 0,
{
    let total_reserves = checked_sum(reserves);
    if total_reserves == 0 {
        return 0;
    }
    let total_weight = checked_sum(target_weights);
    let mut max_dev: i128 = 0;
    let mut i: usize = 0;
    while i < reserves.len()
        invariant
            i <= reserves@.len(),
            score_defined(reserves@, target_weights@),
            total_reserves == sum_i128(reserves@),
            total_weight == sum_i128(target_weights@),
            total_reserves != 0,
            max_dev == max_deviation(reserves@, target_weights@, i as int),
            max_dev >= 0,
        decreases reserves.len() - i,
    {
        let reserve = reserves[i];
        let weight = target_weights[i];
        assert(i128::MIN <= reserve * 1_000_000 <= i128::MAX);
        assert(i128::MIN <= weight * 1_000_000 <= i128::MAX);
        let actual_pct = div_toward_zero(reserve * IMBALANCE_SCALE, total_reserves);
        let target_pct = div_toward_zero(weight * IMBALANCE_SCALE, total_weight);
        assert(-i128::MAX <= share_diff(reserves@, target_weights@, i as int) <= i128::MAX);
        let diff = if actual_pct > target_pct { actual_pct - target_pct } else { target_pct - actual_pct };
        if diff > max_dev {
            max_dev = diff;
        }
        i = i + 1;
    }
    max_dev
}

/// The fee multiplier for a trade moving reserves from `pre` to `post`:
/// a trade that worsens the imbalance pays a progressive surcharge up to
/// 2x, one that restores balance earns a discount down to 0.5x, and one
/// that leaves it unchanged pays 1x (all scaled by 10^6).
pub open spec fn imbalance_fee_multiplier(pre_score: int, post_score: int) -> int {
    if post_score > pre_score {
        let extra = (post_score - pre_score) * 1_000_000 / 1_000_000;
        if 1_000_000 + extra < 2_000_000 {
            1_000_000 + extra
        } else {
            2_000_000
        }
    } else if post_score < pre_score {
        let discount = (pre_score - post_score) * 500_000 / 1_000_000;
        if 1_000_000 - discount > 500_000 {
            1_000_000 - discount
        } else {
            500_000
        }
    } else {
        1_000_000
    }
}

/// The multiplier is progressive in the change of the imbalance score: a
/// trade that raises the score by `d` pays `1x + d` (in millionths), capped
/// at 2x; one that lowers it by `d` earns a discount of `d / 2` (rounded
/// down, `2 * discount <= d < 2 * discount + 2`), floored at 0.5x; an
/// unchanged score pays exactly 1x.
pub proof fn lemma_imbalance_multiplier_tracks_score_change(pre_score: int, post_score: int)
    ensures
        post_score > pre_score && post_score - pre_score < 1_000_000 ==> imbalance_fee_multiplier(pre_score, post_score)
            == 1_000_000 + (post_score - pre_score),
        post_score - pre_score >= 1_000_000 ==> imbalance_fee_multiplier(pre_score, post_score) == 2_000_000,
        post_score < pre_score && pre_score - post_score < 1_000_000 ==> ({
            let discount = 1_000_000 - imbalance_fee_multiplier(pre_score, post_score);
            2 * discount <= pre_score - post_score < 2 * discount + 2
        }),
        pre_score - post_score >= 1_000_000 ==> imbalance_fee_multiplier(pre_score, post_score) == 500_000,
        post_score == pre_score ==> imbalance_fee_multiplier(pre_score, post_score) == 1_000_000,
{
    if post_score > pre_score {
        let d = post_score - pre_score;
        assert(d * 1_000_000 / 1_000_000 == d) by (nonlinear_arith);
    } else if post_score < pre_score {
        let d = pre_score - post_score;
        let disc = d * 500_000 / 1_000_000;
        assert(disc == d / 2 && 2 * (d / 2) <= d < 2 * (d / 2) + 2) by (nonlinear_arith)
            requires
                d > 0,
                disc == d * 500_000 / 1_000_000,
        ;
    }
}

/// The fee multiplier of a trade from `pre_trade_reserves` to
/// `post_trade_reserves` against the pool's target weights.
pub fn calculate_imbalance_fee_multiplier(
    pre_trade_reserves: &Vec<i128>,
    post_trade_reserves: &Vec<i128>,
    target_weights: &Vec<i128>,
) -> (r: i128)
    requires
        score_defined(pre_trade_reserves@, target_weights@),
        score_defined(post_trade_reserves@, target_weights@),
        ({
            let pre = imbalance_score_spec(pre_trade_reserves@, target_weights@);
            let post = imbalance_score_spec(post_trade_reserves@, target_weights@);
            (post - pre) * 1_000_000 <= i128::MAX && (pre - post) * 500_000 <= i128::MAX
        }),
    ensures
        r == imbalance_fee_multiplier(
            imbalance_score_spec(pre_trade_reserves@, target_weights@),
            imbalance_score_spec(post_trade_reserves@, target_weights@),
        ),
        MIN_FEE_MULTIPLIER <= r <= MAX_FEE_MULTIPLIER,
{
    let pre_score = imbalance_score(pre_trade_reserves, target_weights);
    let post_score = imbalance_score(post_trade_reserves, target_weights);
    if post_score > pre_score {
        let extra = (post_score - pre_score) * (MAX_FEE_MULTIPLIER - IMBALANCE_SCALE) / IMBALANCE_SCALE;
        let m = IMBALANCE_SCALE + extra;
        return if m < MAX_FEE_MULTIPLIER { m } else { MAX_FEE_MULTIPLIER };
    }
    if post_score < pre_score {
        let discount = (pre_score - post_score) * (IMBALANCE_SCALE - MIN_FEE_MULTIPLIER) / IMBALANCE_SCALE;
        let m = IMBALANCE_SCALE - discount;
        return if m > MIN_FEE_MULTIPLIER { m } else { MIN_FEE_MULTIPLIER };
    }
    IMBALANCE_SCALE
}

} // verus!
