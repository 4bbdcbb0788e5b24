//! Oracle price circuit breaker, and the guard that blocks upgrades while
//! unvested funds remain.
use vstd::prelude::*;
use crate::account::AccountId;
use crate::vault::{VestingVault, VaultEvent};
use crate::vault_errors::Error;
use crate::vault_types::{
    OraclePriceRecord, OraclePriceUpdated, OracleCircuitBreakerTripped, OracleCircuitBreakerReset,
    UpgradeBlocked, ORACLE_DEVIATION_THRESHOLD_BPS,
};

verus! {

/// The distance between two prices.
pub open spec fn price_gap(old_price: i128, new_price: i128) -> int {
    if new_price > old_price {
        new_price - old_price
    } else {
        old_price - new_price
    }
}

/// The size of a price.
pub open spec fn price_size(price: i128) -> int {
    if price < 0 {
        -price
    } else {
        price as int
    }
}

/// The deviation of `new_price` from `old_price` in basis points of the old
/// price, rounded down and capped at `u32::MAX`; zero when the old price is
/// zero.
pub open spec fn deviation_bps(old_price: i128, new_price: i128) -> u32 {
    if old_price == 0 {
        0
    } else {
        let d = price_gap(old_price, new_price) * 10_000 / price_size(old_price);
        if d > u32::MAX {
            u32::MAX
        } else {
            d as u32
        }
    }
}

/// The distance of `x` above `i128::MIN`.
fn offset_from_min(x: i128) -> (r: u128)
    ensures
        r == x - i128::MIN,
{
    if x >= 0 {
        (x as u128) + 0x8000_0000_0000_0000_0000_0000_0000_0000u128
    } else {
        (x + i128::MAX + 1) as u128
    }
}

/// `10 * r` divided by `d`, as quotient and remainder, without forming
/// `10 * r` (which may not fit in 128 bits).
fn times_ten_divmod(r: u128, d: u128) -> (res: (u128, u128))
    requires
        r < d,
    ensures
        res.0 * d + res.1 == 10 * r,
        res.1 < d,
{
    let mut acc: u128 = 0;
    let mut carry: u128 = 0;
    let mut k: u128 = 0;
    while k < 10
        invariant
            r < d,
            k <= 10,
            acc < d,
            carry <= k,
            acc + carry * d == k * r,
        decreases 10 - k,
    {
        if acc >= d - r {
            assert((carry + 1) * d == carry * d + d) by (nonlinear_arith);
            acc = acc - (d - r);
            carry = carry + 1;
        } else {
            acc = acc + r;
        }
        assert((k + 1) * r == k * r + r) by (nonlinear_arith);
        k = k + 1;
    }
    (carry, acc)
}

/// `10_000 * r` divided by `d`, as quotient and remainder, for `r < d`.
fn bps_divmod(r: u128, d: u128) -> (res: (u128, u128))
    requires
        r < d,
    ensures
        res.0 * d + res.1 == 10_000 * r,
        res.1 < d,
{
    let mut q: u128 = 0;
    let mut rem: u128 = r;
    let mut step: u32 = 0;
    let ghost mut scale: int = 1;
    while step < 4
        invariant
            r < d,
            step <= 4,
            rem < d,
            scale == if step == 0 { 1int } else if step == 1 { 10int } else if step == 2 { 100int } else if step == 3 { 1000int } else { 10_000int },
            q * d + rem == scale * r,
            q < scale,
        decreases 4 - step,
    {
        let (digit, next) = times_ten_divmod(rem, d);
        assert(digit < 10) by (nonlinear_arith)
            requires digit * d + next == 10 * rem, rem < d, next >= 0, d > 0, digit >= 0;
        assert((q * 10 + digit) * d + next == (scale * 10) * r) by (nonlinear_arith)
            requires q * d + rem == scale * r, digit * d + next == 10 * rem;
        q = q * 10 + digit;
        rem = next;
        proof {
            scale = scale * 10;
        }
        step = step + 1;
    }
    (q, rem)
}

/// The update would trip the breaker: it lands in the ledger of the last
/// update and moves the price by more than the threshold.
pub open spec fn trips_breaker(r: OraclePriceRecord, new_price: i128, ledger: u32) -> bool {
    r.last_ledger == ledger && deviation_bps(r.last_price, new_price) > ORACLE_DEVIATION_THRESHOLD_BPS
}

/// The price record, and the result, after an update to `new_price` at
/// ledger `ledger` and time `now` of the record `rec`.
pub open spec fn price_update_outcome(
    rec: Option<OraclePriceRecord>,
    new_price: i128,
    now: u64,
    ledger: u32,
) -> (Option<OraclePriceRecord>, Result<(), Error>) {
    if new_price <= 0 {
        (rec, Err(Error::InvalidInput))
    } else {
        match rec {
            None => (
                Some(OraclePriceRecord { last_price: new_price, last_ledger: ledger, is_frozen: false, frozen_at: 0 }),
                Ok(()),
            ),
            Some(r) => if r.is_frozen {
                (rec, Err(Error::OracleCircuitBreakerActive))
            } else if trips_breaker(r, new_price, ledger) {
                (
                    Some(OraclePriceRecord { last_price: r.last_price, last_ledger: ledger, is_frozen: true, frozen_at: now }),
                    Err(Error::OraclePriceDeviationTooHigh),
                )
            } else {
                (
                    Some(OraclePriceRecord { last_price: new_price, last_ledger: ledger, is_frozen: false, frozen_at: r.frozen_at }),
                    Ok(()),
                )
            },
        }
    }
}

/// The event announced by an update of the record `rec` to `new_price`, if any.
pub open spec fn price_update_event(rec: Option<OraclePriceRecord>, new_price: i128, now: u64, ledger: u32) -> Option<VaultEvent> {
    if new_price <= 0 {
        None
    } else {
        match rec {
            None => Some(VaultEvent::OraclePriceUpdated(OraclePriceUpdated { old_price: 0, new_price, ledger, timestamp: now })),
            Some(r) => if r.is_frozen {
                None
            } else if trips_breaker(r, new_price, ledger) {
                Some(VaultEvent::OracleCircuitBreakerTripped(OracleCircuitBreakerTripped {
                    old_price: r.last_price,
                    new_price,
                    deviation_bps: deviation_bps(r.last_price, new_price),
                    tripped_at: now,
                }))
            } else {
                Some(VaultEvent::OraclePriceUpdated(OraclePriceUpdated { old_price: r.last_price, new_price, ledger, timestamp: now }))
            },
        }
    }
}

/// The price record, and the result, after the breaker of `rec` is reset.
pub open spec fn breaker_reset_outcome(rec: Option<OraclePriceRecord>) -> (Option<OraclePriceRecord>, Result<(), Error>) {
    match rec {
        None => (None, Err(Error::InvalidInput)),
        Some(r) => (Some(OraclePriceRecord { is_frozen: false, frozen_at: 0, ..r }), Ok(())),
    }
}

impl VestingVault {
    /// The deviation of `new_price` from `old_price` in basis points, capped
    /// at `u32::MAX`; it never overflows, whatever the prices.
    pub fn calc_deviation_bps(old_price: i128, new_price: i128) -> (r: u32)
        ensures
            r == deviation_bps(old_price, new_price),
    {
        if old_price == 0 {
            return 0;
        }
        let a = offset_from_min(old_price);
        let b = offset_from_min(new_price);
        let gap: u128 = if a > b {
            a - b
        } else {
            b - a
        };
        let size: u128 = if old_price > 0 {
            old_price as u128
        } else {
            ((-(old_price + 1)) as u128) + 1
        };
        assert(gap == price_gap(old_price, new_price));
        assert(size == price_size(old_price));
        let q = gap / size;
        let rest = gap % size;
        proof {
            vstd::arithmetic::div_mod::lemma_fundamental_div_mod(gap as int, size as int);
        }
        assert(gap == size * q + rest);
        if q >= 429_497 {
            assert(gap * 10_000 >= (q * 10_000) * size) by (nonlinear_arith)
                requires gap == size * q + rest, rest >= 0, size > 0, q >= 0;
            assert((gap * 10_000) / (size as int) >= q * 10_000) by (nonlinear_arith)
                requires gap * 10_000 >= (q * 10_000) * size, size > 0, q >= 0;
            return u32::MAX;
        }
        let (f, rem) = bps_divmod(rest, size);
        assert(f < 10_000) by (nonlinear_arith)
            requires f * size + rem == 10_000 * rest, rest < size, rem >= 0, f >= 0, size > 0;
        let total: u64 = (q as u64) * 10_000 + (f as u64);
        assert(gap * 10_000 == (total as int) * size + rem) by (nonlinear_arith)
            requires gap == size * q + rest, f * size + rem == 10_000 * rest, total == q * 10_000 + f;
        proof {
            vstd::arithmetic::div_mod::lemma_fundamental_div_mod_converse(
                gap * 10_000,
                size as int,
                total as int,
                rem as int,
            );
        }
        if total > 0xFFFF_FFFF {
            u32::MAX
        } else {
            total as u32
        }
    }

    /// Records a new oracle price submitted by `admin` at ledger `ledger`.
    ///
    /// A non-positive price is refused. While the breaker is tripped every
    /// update is refused. An update in the same ledger as the last one that
    /// moves the price by more than 30% trips the breaker: the record keeps
    /// the old price and is frozen, and the update is refused.
    pub fn update_oracle_price(&mut self, admin: &AccountId, new_price: i128, now: u64, ledger: u32) -> (r: Result<(), Error>)
        requires
            old(self).wf(),
        ensures
            final(self).wf(),
            *final(self) == (VestingVault {
                oracle_price: final(self).oracle_price,
                events: final(self).events,
                ..*old(self)
            }),
            (final(self).oracle_price, r) == price_update_outcome(old(self).oracle_price, new_price, now, ledger),
            final(self).events@ == match price_update_event(old(self).oracle_price, new_price, now, ledger) {
                Some(e) => old(self).events@.push(e),
                None => old(self).events@,
            },
    {
        if new_price <= 0 {
            return Err(Error::InvalidInput);
        }
        match self.oracle_price {
            None => {
                self.oracle_price = Some(OraclePriceRecord {
                    last_price: new_price,
                    last_ledger: ledger,
                    is_frozen: false,
                    frozen_at: 0,
                });
                self.events.push(VaultEvent::OraclePriceUpdated(
                    OraclePriceUpdated { old_price: 0, new_price, ledger, timestamp: now },
                ));
            },
            Some(record) => {
                if record.is_frozen {
                    return Err(Error::OracleCircuitBreakerActive);
                }
                if record.last_ledger == ledger {
                    let deviation = Self::calc_deviation_bps(record.last_price, new_price);
                    if deviation > ORACLE_DEVIATION_THRESHOLD_BPS {
                        self.oracle_price = Some(OraclePriceRecord {
                            last_price: record.last_price,
                            last_ledger: ledger,
                            is_frozen: true,
                            frozen_at: now,
                        });
                        self.events.push(VaultEvent::OracleCircuitBreakerTripped(
                            OracleCircuitBreakerTripped {
                                old_price: record.last_price,
                                new_price,
                                deviation_bps: deviation,
                                tripped_at: now,
                            },
                        ));
                        return Err(Error::OraclePriceDeviationTooHigh);
                    }
                }
                self.oracle_price = Some(OraclePriceRecord {
                    last_price: new_price,
                    last_ledger: ledger,
                    is_frozen: record.is_frozen,
                    frozen_at: record.frozen_at,
                });
                self.events.push(VaultEvent::OraclePriceUpdated(
                    OraclePriceUpdated { old_price: record.last_price, new_price, ledger, timestamp: now },
                ));
            },
        }
        Ok(())
    }

    /// Clears a tripped breaker after review; refused when no price was ever
    /// recorded.
    pub fn reset_oracle_circuit_breaker(&mut self, admin: &AccountId, now: u64) -> (r: Result<(), Error>)
        requires
            old(self).wf(),
        ensures
            final(self).wf(),
            *final(self) == (VestingVault {
                oracle_price: final(self).oracle_price,
                events: final(self).events,
                ..*old(self)
            }),
            (final(self).oracle_price, r) == breaker_reset_outcome(old(self).oracle_price),
            final(self).events@ == if old(self).oracle_price is Some {
                old(self).events@.push(VaultEvent::OracleCircuitBreakerReset(
                    OracleCircuitBreakerReset { reset_by: *admin, reset_at: now },
                ))
            } else {
                old(self).events@
            },
    {
        match self.oracle_price {
            None => Err(Error::InvalidInput),
            Some(record) => {
                self.oracle_price = Some(OraclePriceRecord { is_frozen: false, frozen_at: 0, ..record });
                self.events.push(VaultEvent::OracleCircuitBreakerReset(
                    OracleCircuitBreakerReset { reset_by: *admin, reset_at: now },
                ));
                Ok(())
            },
        }
    }

    /// The current oracle price record, if a price was ever recorded.
    pub fn get_oracle_price(&self) -> (r: Option<OraclePriceRecord>)
        ensures
            r == self.oracle_price,
    {
        self.oracle_price
    }

    /// Refuses an upgrade or deletion while any unvested balance remains.
    pub fn assert_safe_to_upgrade(&mut self, admin: &AccountId, now: u64) -> (r: Result<(), Error>)
        ensures
            old(self).total_unvested > 0 ==> {
                &&& r == Err::<(), Error>(Error::UpgradeBlockedByUnvestedFunds)
                &&& *final(self) == (VestingVault { events: final(self).events, ..*old(self) })
                &&& final(self).events@ == old(self).events@.push(VaultEvent::UpgradeBlocked(
                    UpgradeBlocked { total_unvested_balance: old(self).total_unvested, blocked_at: now },
                ))
            },
            old(self).total_unvested <= 0 ==> r is Ok && *final(self) == *old(self),
    {
        let total_unvested = self.total_unvested;
        if total_unvested > 0 {
            self.events.push(VaultEvent::UpgradeBlocked(
                UpgradeBlocked { total_unvested_balance: total_unvested, blocked_at: now },
            ));
            return Err(Error::UpgradeBlockedByUnvestedFunds);
        }
        Ok(())
    }

    /// The contract-wide total unvested balance.
    pub fn get_total_unvested_balance(&self) -> (r: i128)
        ensures
            r == self.total_unvested,
    {
        self.total_unvested
    }

    /// Sets the contract-wide total unvested balance; negative totals are
    /// refused.
    pub fn update_total_unvested_balance(&mut self, admin: &AccountId, new_total: i128) -> (r: Result<(), Error>)
        requires
            old(self).wf(),
        ensures
            final(self).wf(),
            new_total < 0 ==> r == Err::<(), Error>(Error::InvalidInput) && *final(self) == *old(self),
            new_total >= 0 ==> r is Ok && *final(self) == (VestingVault { total_unvested: new_total, ..*old(self) }),
    {
        if new_total < 0 {
            return Err(Error::InvalidInput);
        }
        self.total_unvested = new_total;
        Ok(())
    }
}

} // verus!
