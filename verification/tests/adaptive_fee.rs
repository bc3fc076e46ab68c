use stellarflow::amm::adaptive_fee::{
    decayed_volatility, fee_for_volatility, get_adaptive_fee_snapshot, isqrt, record_price_observation,
    resolve_adaptive_fee, AdaptiveFeeState, PriceObservationBuffer,
};
use stellarflow::config::AdaptiveFeeConfig;
use stellarflow::error::ContractError;

const POOL: u32 = 3897123275;

fn cfg() -> AdaptiveFeeConfig {
    AdaptiveFeeConfig::default()
}

#[test]
fn unconfigured_pool_is_rejected() {
    let buf = PriceObservationBuffer::empty();
    let r = resolve_adaptive_fee(None, &buf, AdaptiveFeeState::default(), 0);
    assert_eq!(r.err(), Some(ContractError::NotRegistered));
}

#[test]
fn record_observations_and_trim_ring() {
    let c = cfg();
    let mut buf = PriceObservationBuffer::empty();
    let mut last = 0;
    for i in 0..(c.ring_buffer_len + 5) {
        let now = 2_000_000 + (i as u64) * c.sample_interval_secs;
        last = record_price_observation(Some(c), &mut buf, "NGN".to_string(), 100 + (i as i128), now).unwrap();
    }
    assert!(last <= c.ring_buffer_len as u64);
    assert!(last > 0);
    let r = resolve_adaptive_fee(Some(c), &buf, AdaptiveFeeState::default(), buf.last_observed).unwrap();
    assert!(r.volatility_bps > 0, "with many observations variance should be non-zero");
}

#[test]
fn observations_inside_sample_interval_are_skipped() {
    let c = cfg();
    let mut buf = PriceObservationBuffer::empty();
    assert_eq!(record_price_observation(Some(c), &mut buf, "NGN".to_string(), 100, 1_000), Ok(1));
    assert_eq!(record_price_observation(Some(c), &mut buf, "NGN".to_string(), 200, 1_000), Ok(1));
    assert_eq!(buf.prices, vec![100]);
    assert_eq!(
        record_price_observation(Some(c), &mut buf, "NGN".to_string(), 0, 1_000_000),
        Err(ContractError::AmountTooLow)
    );
}

#[test]
fn fee_stays_at_base_when_volatility_below_threshold() {
    let buf = PriceObservationBuffer::empty();
    let (snap, _) = get_adaptive_fee_snapshot(POOL, Some(cfg()), &buf, AdaptiveFeeState::default(), 0).unwrap();
    assert_eq!(snap.volatility_bps, 0);
    assert_eq!(snap.fee_bps, 30);
}

#[test]
fn fee_reaches_max_cap_at_high_volatility() {
    let c = cfg();
    let mut buf = PriceObservationBuffer::empty();
    let start = 1_000_000u64;
    for i in 0..c.ring_buffer_len {
        let price = 1000 + (i as i128) * 5000;
        let _ = record_price_observation(Some(c), &mut buf, "NGN".to_string(), price, start + (i as u64) * c.sample_interval_secs)
            .unwrap();
    }
    let (snap, _) =
        get_adaptive_fee_snapshot(POOL, Some(c), &buf, AdaptiveFeeState::default(), buf.last_observed).unwrap();
    assert_eq!(snap.fee_bps, 150, "high volatility should hit the max cap of 150bps");
}

#[test]
fn fee_decays_back_to_base_when_observations_stop() {
    let c = cfg();
    let mut buf = PriceObservationBuffer::empty();
    let start = 2_000_000u64;
    for i in 0..c.ring_buffer_len {
        let price = 1000 + (i as i128) * 5000;
        let _ = record_price_observation(Some(c), &mut buf, "NGN".to_string(), price, start + (i as u64) * c.sample_interval_secs)
            .unwrap();
    }
    let peak = resolve_adaptive_fee(Some(c), &buf, AdaptiveFeeState::default(), buf.last_observed).unwrap();
    assert_eq!(peak.fee_bps, 150);
    let later = start + c.sample_interval_secs * 100 + c.decay_half_life_secs * 8;
    let quiet = resolve_adaptive_fee(Some(c), &PriceObservationBuffer::empty(), peak.state, later).unwrap();
    assert!(quiet.fee_bps < peak.fee_bps);
    assert!(quiet.fee_bps < 150);
}

#[test]
fn fee_curve_endpoints() {
    let c = cfg();
    assert_eq!(fee_for_volatility(0, &c), c.base_fee_bps);
    assert_eq!(fee_for_volatility(u64::MAX, &c), c.max_fee_bps);
    assert_eq!(decayed_volatility(1_000, 100, 0), 1_000);
    assert!(decayed_volatility(1_000, 100, 100) <= 500);
}

#[test]
fn digit_isqrt_exact_values() {
    assert_eq!(isqrt(0), 0);
    assert_eq!(isqrt(15), 3);
    assert_eq!(isqrt(16), 4);
    assert_eq!(isqrt(u128::MAX), u64::MAX as u128);
}
