use lumina_vesting::account::{AccountId, AddressKind};
use lumina_vesting::vault::VestingVault;
use lumina_vesting::vault_errors::Error;

const PRICE_SCALE: i128 = 10_000_000;
const BASE_PRICE: i128 = PRICE_SCALE;
const SPIKE_10000_PCT: i128 = BASE_PRICE * 101;
const THRESHOLD_BPS: u32 = 3000;

fn reference_twap(prices: &[i128]) -> i128 {
    assert!(!prices.is_empty(), "TWAP window must not be empty");
    let sum: i128 = prices.iter().sum();
    sum / prices.len() as i128
}

fn twap_spike_ratio_x100(clean_prices: &[i128], spike: i128) -> i128 {
    let n = clean_prices.len() as i128;
    let clean_twap = reference_twap(clean_prices);
    let spike_sum: i128 = clean_prices.iter().sum::<i128>() + spike;
    let spiked_twap = spike_sum / (n + 1);
    if clean_twap == 0 {
        return 0;
    }
    (spiked_twap * 100) / clean_twap
}

fn lcg_next(state: &mut u64) -> u64 {
    *state = state.wrapping_mul(6_364_136_223_846_793_005).wrapping_add(1_442_695_040_888_963_407);
    *state
}

fn lcg_range(state: &mut u64, min: i128, max: i128) -> i128 {
    let span = (max - min + 1) as u64;
    min + (lcg_next(state) % span) as i128
}

fn admin() -> AccountId {
    AccountId { kind: AddressKind::Account, key: [7u8; 32] }
}

/// Deviation in basis points, rounded down and capped at `u32::MAX`,
/// computed independently of the library: `10_000 * |new - old|` is formed
/// exactly in 256 bits and divided by `|old|` bit by bit.
fn calc_deviation_bps(old: i128, new: i128) -> u32 {
    if old == 0 {
        return 0;
    }
    let gap: u128 = new.abs_diff(old);
    let d: u128 = old.unsigned_abs();
    let (g_lo, g_hi) = (gap & 0xFFFF_FFFF_FFFF_FFFF, gap >> 64);
    let p_lo = g_lo * 10_000;
    let p_hi = g_hi * 10_000;
    let lo = p_lo.wrapping_add(p_hi << 64);
    let carry = if lo < p_lo { 1 } else { 0 };
    let hi = (p_hi >> 64) + carry;
    let mut rem: u128 = 0;
    let mut q: u128 = 0;
    for i in (0..256u32).rev() {
        let bit = if i >= 128 { (hi >> (i - 128)) & 1 } else { (lo >> i) & 1 };
        rem = (rem << 1) | bit;
        q = q.saturating_mul(2);
        if rem >= d {
            rem -= d;
            q = q.saturating_add(1);
        }
    }
    q.min(u32::MAX as u128) as u32
}

#[test]
fn fuzz_extreme_spike_trips_circuit_breaker() {
    let mut v = VestingVault::new();
    v.update_oracle_price(&admin(), BASE_PRICE, 0, 1).unwrap();
    let result = v.update_oracle_price(&admin(), SPIKE_10000_PCT, 0, 1);
    assert!(
        matches!(result, Err(Error::OraclePriceDeviationTooHigh)),
        "10,000% spike should trip circuit breaker, got: {:?}",
        result
    );
    let record = v.get_oracle_price().expect("price record must exist");
    assert!(record.is_frozen, "circuit breaker must be frozen after spike");
}

#[test]
fn fuzz_circuit_breaker_threshold_all_directions() {
    let trips = [
        (BASE_PRICE, BASE_PRICE * 2),
        (BASE_PRICE * 10, BASE_PRICE),
        (BASE_PRICE, BASE_PRICE * 101),
        (1_000 * PRICE_SCALE, 1),
        (i128::MAX / 100_001, i128::MAX / 100_001 * 2),
    ];
    for (baseline, spike) in trips {
        let mut v = VestingVault::new();
        v.update_oracle_price(&admin(), baseline, 0, 42).unwrap();
        let result = v.update_oracle_price(&admin(), spike, 0, 42);
        let dev = calc_deviation_bps(baseline, spike);
        if dev > THRESHOLD_BPS {
            assert!(
                matches!(result, Err(Error::OraclePriceDeviationTooHigh)),
                "deviation {} bps from {} to {} must trip breaker",
                dev,
                baseline,
                spike
            );
        } else {
            assert!(result.is_ok(), "deviation {} bps should NOT trip breaker", dev);
        }
    }
}

#[test]
fn fuzz_frozen_oracle_blocks_all_updates() {
    let mut v = VestingVault::new();
    v.update_oracle_price(&admin(), BASE_PRICE, 0, 1).unwrap();
    let _ = v.update_oracle_price(&admin(), SPIKE_10000_PCT, 0, 1);
    let mut state: u64 = 0xDEAD_BEEF_CAFE_1337;
    for _ in 0..100 {
        let price = lcg_range(&mut state, 1, i128::MAX / 2);
        let r = v.update_oracle_price(&admin(), price, 0, 1);
        assert!(
            matches!(r, Err(Error::OracleCircuitBreakerActive)),
            "frozen oracle must block update to price {}",
            price
        );
    }
}

#[test]
fn fuzz_rapid_same_ledger_updates_trip_breaker() {
    let mut v = VestingVault::new();
    v.update_oracle_price(&admin(), BASE_PRICE, 0, 7).unwrap();
    let price_29_pct = BASE_PRICE + (BASE_PRICE * 2999 / 10_000);
    v.update_oracle_price(&admin(), price_29_pct, 0, 7).unwrap();
    let result = v.update_oracle_price(&admin(), SPIKE_10000_PCT, 0, 7);
    let dev = calc_deviation_bps(price_29_pct, SPIKE_10000_PCT);
    assert!(dev > THRESHOLD_BPS, "sanity: deviation {} bps must exceed threshold", dev);
    assert!(matches!(result, Err(Error::OraclePriceDeviationTooHigh)), "rapid spike must trip circuit breaker");
    let record = v.get_oracle_price().unwrap();
    assert!(record.is_frozen, "vault must be frozen after rapid spike");
}

#[test]
fn fuzz_circuit_breaker_reset_allows_normal_updates() {
    let mut v = VestingVault::new();
    v.update_oracle_price(&admin(), BASE_PRICE, 0, 1).unwrap();
    let _ = v.update_oracle_price(&admin(), SPIKE_10000_PCT, 0, 1);
    v.reset_oracle_circuit_breaker(&admin(), 0).unwrap();
    let record = v.get_oracle_price().unwrap();
    assert!(!record.is_frozen, "breaker must be unfrozen after reset");
    v.update_oracle_price(&admin(), BASE_PRICE * 2, 0, 2).unwrap();
    let record2 = v.get_oracle_price().unwrap();
    assert!(!record2.is_frozen, "post-reset cross-ledger update must not re-trip breaker");
}

#[test]
fn fuzz_twap_bounded_under_single_block_spike() {
    let window_sizes = [5usize, 10, 20, 50];
    let spike_multipliers: [i128; 5] = [2, 10, 101, 1_001, 10_001];
    for &n in &window_sizes {
        let clean: Vec<i128> = (1..=(n as i128)).map(|i| BASE_PRICE + i * 1_000).collect();
        for &mult in &spike_multipliers {
            let spike = BASE_PRICE * mult;
            let ratio = twap_spike_ratio_x100(&clean, spike);
            let max_expected_ratio = ((mult + n as i128) * 100) / n as i128;
            assert!(
                ratio <= max_expected_ratio,
                "TWAP ratio {}× exceeds bound {}× for n={} mult={}",
                ratio,
                max_expected_ratio,
                n,
                mult
            );
        }
    }
}

#[test]
fn fuzz_twap_no_overflow_under_extreme_prices() {
    let mut state: u64 = 0xFEED_FACE_DEAD_BEEF;
    let mut overflow_failures = 0u32;
    for _ in 0..10_000 {
        let n = (lcg_next(&mut state) % 45 + 5) as usize;
        let mut prices: Vec<i128> = (0..n).map(|_| lcg_range(&mut state, 1, PRICE_SCALE * 1_000)).collect();
        let pos = (lcg_next(&mut state) as usize) % (n + 1);
        prices.insert(pos, PRICE_SCALE * 101);
        let sum: Option<i128> = prices.iter().try_fold(0i128, |acc, &p| acc.checked_add(p));
        if sum.is_none() {
            overflow_failures += 1;
            continue;
        }
        let twap = sum.unwrap() / prices.len() as i128;
        assert!(twap > 0, "TWAP must be positive");
    }
    assert!(overflow_failures < 10, "{} unexpected TWAP overflow cases", overflow_failures);
}

#[test]
fn fuzz_oracle_staleness_detection() {
    const ORACLE_STALE_LEDGERS: u32 = 5;
    let mut v = VestingVault::new();
    v.update_oracle_price(&admin(), BASE_PRICE, 0, 100).unwrap();
    let update_ledger = v.get_oracle_price().unwrap().last_ledger;
    let current = 100 + ORACLE_STALE_LEDGERS + 1;
    let is_stale = current - update_ledger > ORACLE_STALE_LEDGERS;
    assert!(is_stale, "oracle must be considered stale after {} ledgers without update", ORACLE_STALE_LEDGERS);
    v.update_oracle_price(&admin(), BASE_PRICE * 100, 0, current).unwrap();
    let record2 = v.get_oracle_price().unwrap();
    assert!(!record2.is_frozen, "cross-ledger update must not trip breaker regardless of gap");
}

#[test]
fn fuzz_oracle_broadcast_halt_state_persists() {
    let mut v = VestingVault::new();
    v.update_oracle_price(&admin(), BASE_PRICE, 0, 1).unwrap();
    let _ = v.update_oracle_price(&admin(), SPIKE_10000_PCT, 0, 1);
    for delta in [1u32, 10, 100, 1000] {
        let record = v.get_oracle_price().unwrap();
        assert!(record.is_frozen, "frozen state must persist after {} extra ledgers without broadcast", delta);
    }
}

#[test]
fn fuzz_deviation_bps_no_overflow() {
    let extremes: [i128; 8] = [
        1,
        2,
        i128::MAX / 10_001,
        i128::MAX / 1_001,
        i128::MAX / 101,
        i128::MAX / 11,
        i128::MAX / 3,
        i128::MAX / 2,
    ];
    for &old in &extremes {
        for &new in &extremes {
            // Must not panic.
            let bps = VestingVault::calc_deviation_bps(old, new);
            assert_eq!(bps, calc_deviation_bps(old, new));
        }
    }
}

#[test]
fn fuzz_large_price_multiplier_rounding() {
    let large_prices: [i128; 6] = [
        PRICE_SCALE * 10_000,
        PRICE_SCALE * 1_000_000,
        i128::MAX / 10_001,
        i128::MAX / 1_001,
        i128::MAX / 101,
        i128::MAX / 11,
    ];
    let multipliers: [i128; 5] = [1, 10, 100, 1_000, 10_000];
    let mut failures: Vec<String> = Vec::new();
    for &price in &large_prices {
        for &mult in &multipliers {
            match price.checked_mul(mult) {
                None => {}
                Some(product) => {
                    let divisor: i128 = 10_000;
                    let floor = product / divisor;
                    let ceil = (product + divisor - 1) / divisor;
                    if ceil < floor {
                        failures.push(format!(
                            "price={} mult={} product={} ceil<floor: ceil={} floor={}",
                            price, mult, product, ceil, floor
                        ));
                    }
                }
            }
        }
    }
    assert!(failures.is_empty(), "rounding failures in large-price multiplications:\n{}", failures.join("\n"));
}

#[test]
fn fuzz_50k_price_permutations() {
    const FUZZ_ITERATIONS: u32 = 50_000;
    let mut state: u64 = 0x1337_C0DE_FEED_FACE;
    let mut failures: Vec<String> = Vec::new();
    let price_pool: [i128; 16] = [
        1,
        2,
        PRICE_SCALE / 2,
        PRICE_SCALE,
        PRICE_SCALE * 2,
        PRICE_SCALE * 101,
        PRICE_SCALE * 10_000,
        i128::MAX / 1_000_001,
        i128::MAX / 100_001,
        i128::MAX / 10_001,
        i128::MAX / 1_001,
        i128::MAX / 101,
        i128::MAX / 11,
        i128::MAX / 3,
        i128::MAX / 2,
        i128::MAX - 1,
    ];
    for iter in 0..FUZZ_ITERATIONS {
        let baseline_idx = (lcg_next(&mut state) as usize) % price_pool.len();
        let spike_idx = (lcg_next(&mut state) as usize) % price_pool.len();
        let baseline = price_pool[baseline_idx];
        let spike = price_pool[spike_idx];
        if baseline <= 0 || spike <= 0 {
            continue;
        }
        let mut v = VestingVault::new();
        if v.update_oracle_price(&admin(), baseline, 0, 100).is_err() {
            continue;
        }
        let dev = calc_deviation_bps(baseline, spike);
        let result = v.update_oracle_price(&admin(), spike, 0, 100);
        if dev > THRESHOLD_BPS {
            if !matches!(result, Err(Error::OraclePriceDeviationTooHigh)) {
                failures.push(format!(
                    "iter={} baseline={} spike={} dev_bps={} → expected breaker trip, got {:?}",
                    iter, baseline, spike, dev, result
                ));
            }
        } else if result.is_err() {
            let frozen = v.get_oracle_price().map(|r| r.is_frozen).unwrap_or(false);
            if !frozen {
                failures.push(format!(
                    "iter={} baseline={} spike={} dev_bps={} → unexpected rejection: {:?}",
                    iter, baseline, spike, dev, result
                ));
            }
        }
    }
    assert!(
        failures.is_empty(),
        "{} fuzz failures (rounding / logic errors):\n{}",
        failures.len(),
        failures.join("\n")
    );
}

#[test]
fn breaker_threshold_sits_between_30_and_30_01_percent() {
    // Exactly 30%: accepted.
    let mut v = VestingVault::new();
    v.update_oracle_price(&admin(), 10_000, 0, 3).unwrap();
    v.update_oracle_price(&admin(), 13_000, 0, 3).unwrap();
    // 30.01%: trips.
    let mut w = VestingVault::new();
    w.update_oracle_price(&admin(), 10_000, 0, 3).unwrap();
    assert_eq!(w.update_oracle_price(&admin(), 13_001, 9, 3), Err(Error::OraclePriceDeviationTooHigh));
    let r = w.get_oracle_price().unwrap();
    assert_eq!((r.last_price, r.is_frozen, r.frozen_at), (10_000, true, 9));
    assert_eq!(VestingVault::calc_deviation_bps(10_000, 13_001), 3001);
    assert_eq!(VestingVault::calc_deviation_bps(10_000, 6_999), 3001);
    assert_eq!(VestingVault::calc_deviation_bps(10_000, 10_000), 0);
    assert_eq!(VestingVault::calc_deviation_bps(0, 5), 0);
    // Non-positive prices are refused without effect.
    assert_eq!(w.update_oracle_price(&admin(), 0, 0, 4), Err(Error::InvalidInput));
    assert_eq!(w.reset_oracle_circuit_breaker(&admin(), 10), Ok(()));
    let mut fresh = VestingVault::new();
    assert_eq!(fresh.reset_oracle_circuit_breaker(&admin(), 10), Err(Error::InvalidInput));
}

#[test]
fn deviation_never_wraps_around() {
    // A move of far more than u32::MAX basis points is capped, not wrapped.
    assert_eq!(VestingVault::calc_deviation_bps(1, 429_498), u32::MAX);
    assert_eq!(VestingVault::calc_deviation_bps(1, i128::MAX), u32::MAX);
    assert_eq!(VestingVault::calc_deviation_bps(i128::MAX, 1), 9_999);
    assert_eq!(VestingVault::calc_deviation_bps(-1, i128::MAX), u32::MAX);
    assert_eq!(VestingVault::calc_deviation_bps(i128::MIN, i128::MAX), 19_999);
    let mut v = VestingVault::new();
    v.update_oracle_price(&admin(), 1, 0, 8).unwrap();
    assert_eq!(v.update_oracle_price(&admin(), 429_498, 0, 8), Err(Error::OraclePriceDeviationTooHigh));
    assert!(v.get_oracle_price().unwrap().is_frozen);
    let mut w = VestingVault::new();
    w.update_oracle_price(&admin(), 1, 0, 8).unwrap();
    assert_eq!(w.update_oracle_price(&admin(), i128::MAX, 0, 8), Err(Error::OraclePriceDeviationTooHigh));
}

#[test]
fn deviation_is_floored_to_whole_basis_points() {
    // 3001 / 10001 is 30.007%, which floors to 3000 bps and is accepted.
    assert_eq!(VestingVault::calc_deviation_bps(10_001, 13_002), 3000);
    let mut v = VestingVault::new();
    v.update_oracle_price(&admin(), 10_001, 0, 2).unwrap();
    v.update_oracle_price(&admin(), 13_002, 0, 2).unwrap();
}
