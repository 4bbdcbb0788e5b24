//! Properties that span the vault's operations, stated over the same spec
//! functions and views as the operations' own contracts.
use vstd::prelude::*;
use crate::account::{AccountId, Bytes32};
use crate::governance::VestingContract;
use crate::arith::trunc_div;
use crate::schedules::{linear_vested, AssetAllocation};
use crate::oracle::{OracleCondition, PerformanceCliff, PerformanceMultiplier, conditions_verdict, condition_met, cliff_passed, multiplier_in_force};
use crate::insurance::stored_balance;
use crate::table::VoteKey;
use crate::timelock::TimelockStorage;
use crate::vault::{VestingVault, EMERGENCY_PAUSE_DURATION, TIMELOCK_DURATION};
use crate::vault_claims::{payout_request, confirmation_refusal};
use crate::vault_errors::Error;
use crate::vault_features::milestones_in_order;
use crate::vault_governance::elapsed_since;
use crate::vault_oracle::{price_gap, deviation_bps, trips_breaker, price_update_outcome, breaker_reset_outcome};
use crate::vault_reassign::{voters_distinct, has_voted};
use crate::vault_settings::precision_quotient;
use crate::vault_types::{
    OraclePriceRecord, EmergencyPause, ZKClaimProof, Nullifier, VetoVote, AddressWhitelistRequest,
    ORACLE_DEVIATION_THRESHOLD_BPS, ADMIN_INACTIVITY_TIMEOUT,
};

verus! {

/// A price compared with itself deviates by nothing.
pub proof fn law_unchanged_price_has_no_deviation(price: i128)
    ensures
        deviation_bps(price, price) == 0,
{
}

/// The breaker's limit is 30%: for any pair of prices, with the old one
/// positive, the deviation exceeds 3000 bps exactly when the move is at least
/// 30.01% of the old price (deviations are whole basis points, rounded
/// down), and a move of more than 30% deviates by at least 3000 bps.
pub proof fn law_deviation_limit_is_thirty_percent(old_price: i128, new_price: i128)
    requires
        old_price > 0,
    ensures
        deviation_bps(old_price, new_price) > ORACLE_DEVIATION_THRESHOLD_BPS <==> price_gap(old_price, new_price)
            * 10_000 >= (ORACLE_DEVIATION_THRESHOLD_BPS + 1) * old_price,
        price_gap(old_price, new_price) * 10_000 > ORACLE_DEVIATION_THRESHOLD_BPS * old_price ==> deviation_bps(
            old_price,
            new_price,
        ) >= ORACLE_DEVIATION_THRESHOLD_BPS,
{
    let x = price_gap(old_price, new_price) * 10_000;
    let d = old_price as int;
    assert(x >= 0);
    assert(x / d >= 3001 <==> x >= 3001 * d) by (nonlinear_arith)
        requires x >= 0, d > 0;
    assert(x > 3000 * d ==> x / d >= 3000) by (nonlinear_arith)
        requires x >= 0, d > 0;
}

/// Any same-ledger update of an unfrozen oracle that moves the price by at
/// least 30.01% is refused and freezes the oracle, however large the move;
/// any smaller move is accepted and recorded.
pub proof fn law_breaker_trips_on_every_large_move(record: OraclePriceRecord, new_price: i128, now: u64)
    requires
        !record.is_frozen,
        record.last_price > 0,
        new_price > 0,
    ensures
        ({
            let (after, result) = price_update_outcome(Some(record), new_price, now, record.last_ledger);
            if price_gap(record.last_price, new_price) * 10_000 >= (ORACLE_DEVIATION_THRESHOLD_BPS + 1)
                * record.last_price {
                &&& result == Err::<(), Error>(Error::OraclePriceDeviationTooHigh)
                &&& after == Some(OraclePriceRecord { is_frozen: true, frozen_at: now, ..record })
            } else {
                &&& result == Ok::<(), Error>(())
                &&& after == Some(OraclePriceRecord { last_price: new_price, ..record })
            }
        }),
{
    law_deviation_limit_is_thirty_percent(record.last_price, new_price);
}

/// Only updates within one ledger are compared: an update in a new ledger
/// never trips the breaker, however far the price moves.
pub proof fn law_updates_in_a_new_ledger_never_trip(record: OraclePriceRecord, new_price: i128, ledger: u32)
    requires
        record.last_ledger != ledger,
    ensures
        !trips_breaker(record, new_price, ledger),
{
}

/// A frozen oracle refuses every update and keeps its record.
pub proof fn law_frozen_oracle_refuses_every_update(record: OraclePriceRecord, new_price: i128, now: u64, ledger: u32)
    requires
        record.is_frozen,
    ensures
        price_update_outcome(Some(record), new_price, now, ledger).0 == Some(record),
        price_update_outcome(Some(record), new_price, now, ledger).1 is Err,
{
}

/// A same-ledger move beyond the limit is refused, freezes the oracle at the
/// old price, and every later update is refused until the breaker is reset.
pub proof fn law_spike_freezes_the_oracle(
    record: OraclePriceRecord,
    spike: i128,
    now: u64,
    later_price: i128,
    later_now: u64,
    later_ledger: u32,
)
    requires
        !record.is_frozen,
        spike > 0,
        deviation_bps(record.last_price, spike) > ORACLE_DEVIATION_THRESHOLD_BPS,
    ensures
        ({
            let (after, result) = price_update_outcome(Some(record), spike, now, record.last_ledger);
            &&& result == Err::<(), Error>(Error::OraclePriceDeviationTooHigh)
            &&& after matches Some(r) && r.is_frozen && r.last_price == record.last_price
            &&& price_update_outcome(after, later_price, later_now, later_ledger).1 is Err
            &&& price_update_outcome(after, later_price, later_now, later_ledger).0 == after
        }),
{
}

/// After a reset, an update with a positive price in a new ledger is
/// accepted and recorded.
pub proof fn law_reset_reopens_the_oracle(record: OraclePriceRecord, new_price: i128, now: u64, ledger: u32)
    requires
        new_price > 0,
        ledger != record.last_ledger,
    ensures
        price_update_outcome(breaker_reset_outcome(Some(record)).0, new_price, now, ledger) == (
            Some(OraclePriceRecord { last_price: new_price, last_ledger: ledger, is_frozen: false, frozen_at: 0 }),
            Ok::<(), Error>(()),
        ),
{
}

/// An accepted update records its price, and within one ledger it moved the
/// price by at most the limit.
pub proof fn law_accepted_updates_stay_within_the_limit(
    record: Option<OraclePriceRecord>,
    new_price: i128,
    now: u64,
    ledger: u32,
)
    requires
        price_update_outcome(record, new_price, now, ledger).1 is Ok,
    ensures
        new_price > 0,
        price_update_outcome(record, new_price, now, ledger).0 matches Some(r) && r.last_price == new_price
            && r.last_ledger == ledger && !r.is_frozen,
        record matches Some(r) ==> (r.last_ledger == ledger ==> deviation_bps(r.last_price, new_price)
            <= ORACLE_DEVIATION_THRESHOLD_BPS),
{
}

/// While an emergency pause is in force, ordinary claims, private claims and
/// path-payment claims are all refused.
pub proof fn law_emergency_pause_blocks_claims(
    vault: VestingVault,
    user: AccountId,
    vesting_id: u32,
    amount: i128,
    zk_proof: ZKClaimProof,
    nullifier: Nullifier,
    min_destination_amount: Option<i128>,
    quoted_destination_amount: i128,
    now: u64,
)
    requires
        vault.pause_in_force(now),
    ensures
        vault.claim_refusal(user, vesting_id, amount, now) is Some,
        vault.private_claim_refusal(zk_proof, nullifier, amount, now) == Some(Error::ContractPaused),
        vault.path_payment_refusal(amount, min_destination_amount, quoted_destination_amount, now) == Some(
            Error::ContractPaused,
        ),
{
}

/// An emergency pause imposed at `paused_at` is in force for exactly
/// `EMERGENCY_PAUSE_DURATION` seconds, and has lapsed from then on.
pub proof fn law_emergency_pause_runs_its_course(vault: VestingVault, pause: EmergencyPause, now: u64)
    requires
        vault.emergency_pause == Some(pause),
        pause.is_active,
        pause.expires_at == pause.paused_at + EMERGENCY_PAUSE_DURATION,
        now >= pause.paused_at,
    ensures
        vault.pause_in_force(now) <==> now < pause.paused_at + EMERGENCY_PAUSE_DURATION,
        vault.pause_lapsed(now) <==> !vault.pause_in_force(now),
{
}

/// A new payout address can be confirmed exactly from 48 hours after it was
/// requested, and not before.
pub proof fn law_payout_address_waits_out_its_timelock(
    pending: Map<AccountId, AddressWhitelistRequest>,
    beneficiary: AccountId,
    address: AccountId,
    requested_at: u64,
    now: u64,
)
    requires
        requested_at + TIMELOCK_DURATION <= u64::MAX,
    ensures
        confirmation_refusal(pending.insert(beneficiary, payout_request(beneficiary, address, requested_at)), beneficiary, now)
            == if now < requested_at + TIMELOCK_DURATION {
            Some(Error::TimelockNotElapsed)
        } else {
            None
        },
{
}

/// A spent nullifier, or a commitment already claimed, can never back
/// another private claim.
pub proof fn law_private_claims_spend_once(
    vault: VestingVault,
    zk_proof: ZKClaimProof,
    nullifier: Nullifier,
    amount: i128,
    now: u64,
)
    ensures
        vault.used_nullifiers@.contains_key(nullifier.hash) ==> vault.private_claim_refusal(zk_proof, nullifier, amount, now)
            is Some,
        vault.commitments@.contains_key(zk_proof.commitment_hash) && vault.commitments@[zk_proof.commitment_hash].is_used
            ==> vault.private_claim_refusal(zk_proof, nullifier, amount, now) is Some,
{
}

/// After the admin's activity at `pinged_at`, the recovery address cannot
/// take over for a full inactivity period, and can from then on.
pub proof fn law_recovery_waits_a_full_period_after_activity(pinged_at: u64, now: u64)
    requires
        now >= pinged_at,
    ensures
        elapsed_since(now, pinged_at) < ADMIN_INACTIVITY_TIMEOUT <==> now < pinged_at + ADMIN_INACTIVITY_TIMEOUT,
{
}

/// A governance proposal takes votes only before its challenge period ends
/// and is settled only after; once settled it takes no more votes and is
/// never settled again; and each holder votes on it at most once.
pub proof fn law_proposals_vote_then_settle_once(
    contract: VestingContract,
    proposal_id: u64,
    voter: AccountId,
    now: u64,
)
    requires
        contract.proposals@.contains_key(proposal_id),
    ensures
        now < contract.proposals@[proposal_id].challenge_end ==> contract.execution_refusal(proposal_id, now) is Some,
        now >= contract.proposals@[proposal_id].challenge_end ==> contract.vote_refusal(voter, proposal_id, now)
            is Some,
        contract.proposals@[proposal_id].is_executed || contract.proposals@[proposal_id].is_cancelled ==> {
            &&& contract.execution_refusal(proposal_id, now) is Some
            &&& contract.vote_refusal(voter, proposal_id, now) is Some
        },
        contract.votes@.contains_key(VoteKey { proposal_id, voter }) ==> contract.vote_refusal(voter, proposal_id, now) is Some,
{
}

/// A schedule never vests less than nothing nor more than its allocation,
/// and what vested never shrinks as time passes.
pub proof fn law_vesting_is_bounded_and_monotone(total: i128, start: u64, end: u64, step: u64, t1: int, t2: int)
    requires
        total >= 0,
        start < end,
        t1 <= t2,
    ensures
        0 <= linear_vested(total, start, end, step, t1) <= linear_vested(total, start, end, step, t2) <= total,
{
    let duration = end - start;
    assert forall|t: int| 0 <= #[trigger] linear_vested(total, start, end, step, t) <= total by {
        if start < t < end {
            let elapsed = t - start;
            if step > 0 {
                let steps = duration / (step as int);
                if steps > 0 {
                    let done = elapsed / (step as int);
                    assert(0 <= done <= steps) by (nonlinear_arith)
                        requires done == elapsed / (step as int), steps == duration / (step as int), 0 < elapsed < duration, step > 0;
                    assert(0 <= (total * done) / steps <= total) by (nonlinear_arith)
                        requires 0 <= done <= steps, steps > 0, total >= 0;
                    assert(total * done >= 0) by (nonlinear_arith) requires done >= 0, total >= 0;
                }
            } else {
                assert(0 <= (total * elapsed) / duration <= total) by (nonlinear_arith)
                    requires 0 < elapsed < duration, total >= 0;
                assert(total * elapsed >= 0) by (nonlinear_arith) requires elapsed > 0, total >= 0;
            }
        }
    }
    let v1 = linear_vested(total, start, end, step, t1);
    let v2 = linear_vested(total, start, end, step, t2);
    if start < t1 && t2 < end {
        let e1 = t1 - start;
        let e2 = t2 - start;
        if step > 0 {
            let steps = duration / (step as int);
            if steps > 0 {
                let d1 = e1 / (step as int);
                let d2 = e2 / (step as int);
                assert(0 <= d1 <= d2) by (nonlinear_arith)
                    requires d1 == e1 / (step as int), d2 == e2 / (step as int), 0 < e1 <= e2, step > 0;
                assert((total * d1) / steps <= (total * d2) / steps) by (nonlinear_arith)
                    requires 0 <= d1 <= d2, steps > 0, total >= 0;
                assert(total * d1 >= 0 && total * d2 >= 0) by (nonlinear_arith) requires 0 <= d1 <= d2, total >= 0;
            }
        } else {
            assert((total * e1) / duration <= (total * e2) / duration) by (nonlinear_arith)
                requires 0 < e1 <= e2, duration > 0, total >= 0;
            assert(total * e1 >= 0 && total * e2 >= 0) by (nonlinear_arith) requires 0 < e1 <= e2, total >= 0;
        }
    }
}

/// A claim that goes through never takes the vault's releases past what
/// has vested.
pub proof fn law_claims_never_exceed_vesting(contract: VestingContract, id: u64, claim_amount: i128, now: u64)
    requires
        contract.claim_refusal(id, claim_amount, now) is None,
    ensures
        contract.vaults@[id].allocations@[0].released_amount + claim_amount <= contract.vested_amount(id, now),
{
}

/// The locked value one voter holds in the vaults `1..=n` of two states that
/// differ at most in vault `k` differs by exactly what differs there.
proof fn lemma_locked_sum_shift(a: VestingContract, b: VestingContract, voter: AccountId, k: u64, n: u64)
    requires
        forall|id: u64| id != k ==> #[trigger] b.vault_locked(voter, id) == a.vault_locked(voter, id),
    ensures
        b.locked_up_to(voter, n) == a.locked_up_to(voter, n) + if 1 <= k <= n {
            b.vault_locked(voter, k) - a.vault_locked(voter, k)
        } else {
            0
        },
    decreases n,
{
    if n > 0 {
        lemma_locked_sum_shift(a, b, voter, k, (n - 1) as u64);
    }
}

/// A claim lowers the voting power of the vault's owner by exactly what it
/// releases (when the vault counts for the owner), and nobody else's.
pub proof fn law_claims_lower_only_the_owners_voting_power(
    before: VestingContract,
    after: VestingContract,
    id: u64,
    claim_amount: i128,
    voter: AccountId,
)
    requires
        before.wf(),
        before.vaults@.contains_key(id),
        before.released_into(after, id, claim_amount),
        i128::MIN <= before.vaults@[id].allocations@[0].released_amount + claim_amount <= i128::MAX,
    ensures
        after.locked_value_of(voter) == before.locked_value_of(voter) - if before.indexed_for(voter, id) {
            claim_amount as int
        } else {
            0
        },
{
    assert forall|k: u64| k != id implies #[trigger] after.vault_locked(voter, k) == before.vault_locked(voter, k) by {
        if before.vaults@.contains_key(k) {
            assert(after.vaults@[k] == before.vaults@[k]);
        }
    }
    assert(after.indexed_for(voter, id) == before.indexed_for(voter, id));
    lemma_locked_sum_shift(before, after, voter, id, before.vault_count);
}

/// What the funded vaults `1..=n` of two states that differ at most in
/// vault `k` hold differs by exactly what differs there.
proof fn lemma_funded_sum_shift(a: VestingContract, b: VestingContract, k: u64, n: u64)
    requires
        forall|id: u64| id != k ==> #[trigger] b.funded_amount(id) == a.funded_amount(id),
    ensures
        b.funded_up_to(n) == a.funded_up_to(n) + if 1 <= k <= n {
            b.funded_amount(k) - a.funded_amount(k)
        } else {
            0
        },
    decreases n,
{
    if n > 0 {
        lemma_funded_sum_shift(a, b, k, (n - 1) as u64);
    }
}

/// A claim creates and destroys no tokens: the admin's balance and what the
/// funded vaults hold, locked or claimed, add up to the same supply after it.
pub proof fn law_claims_conserve_supply(before: VestingContract, after: VestingContract, id: u64, claim_amount: i128)
    requires
        before.wf(),
        before.vaults@.contains_key(id),
        before.released_into(after, id, claim_amount),
    ensures
        after.accounted_supply() == before.accounted_supply(),
{
    assert forall|k: u64| #[trigger] after.funded_amount(k) == before.funded_amount(k) by {
        if k != id && before.vaults@.contains_key(k) {
            assert(after.vaults@[k] == before.vaults@[k]);
        }
    }
    lemma_funded_sum_shift(before, after, id, before.vault_count);
}

/// Creating a vault creates and destroys no tokens: a funded vault holds
/// exactly what left the admin's balance, and a lazy vault counts for nothing
/// until it is funded.
pub proof fn law_vault_creation_conserves_supply(
    before: VestingContract,
    after: VestingContract,
    owner: AccountId,
    amount: i128,
    start_time: u64,
    end_time: u64,
    keeper_fee: i128,
    is_revocable: bool,
    is_transferable: bool,
    step_duration: u64,
    funded: bool,
    now: u64,
)
    requires
        before.wf(),
        before.vault_count < u64::MAX,
        funded ==> i128::MIN <= before.admin_balance - amount <= i128::MAX,
        before.vault_created(
            after,
            owner,
            amount,
            start_time,
            end_time,
            keeper_fee,
            is_revocable,
            is_transferable,
            step_duration,
            funded,
            now,
        ),
    ensures
        after.accounted_supply() == before.accounted_supply(),
{
    let id = (before.vault_count + 1) as u64;
    assert forall|k: u64| k != id implies #[trigger] after.funded_amount(k) == before.funded_amount(k) by {
        if before.vaults@.contains_key(k) {
            assert(after.vaults@[k] == before.vaults@[k]);
        }
    }
    assert(!before.vaults@.contains_key(id));
    lemma_funded_sum_shift(before, after, id, before.vault_count);
    assert(after.funded_up_to(id) == after.funded_up_to(before.vault_count) + after.funded_amount(id));
}

/// The bridge never locks more than a vault holds neither released nor
/// locked: after a lock that goes through, what is available is still at
/// least nothing.
pub proof fn law_locks_stay_within_what_is_available(
    before: VestingContract,
    after: VestingContract,
    id: u64,
    asset: AccountId,
    amount: i128,
)
    requires
        before.lock_refusal(id, asset, amount) is None,
        before.relocked(after, id, before.locked_of(id) + amount),
        i128::MIN <= before.locked_of(id) + amount <= i128::MAX,
    ensures
        after.available_of(id) == before.available_of(id) - amount,
        after.available_of(id) >= 0,
{
}

/// Unlocking what was locked gives the vault back its allocation as it was,
/// and changes no other vault.
pub proof fn law_unlock_undoes_lock(
    before: VestingContract,
    locked: VestingContract,
    after: VestingContract,
    id: u64,
    amount: i128,
)
    requires
        before.wf(),
        before.vaults@.contains_key(id),
        before.relocked(locked, id, before.locked_of(id) + amount),
        locked.relocked(after, id, locked.locked_of(id) - amount),
        i128::MIN <= before.locked_of(id) + amount <= i128::MAX,
    ensures
        after.vaults@[id].allocations@ == before.vaults@[id].allocations@,
        after.vaults@.dom() == before.vaults@.dom(),
        forall|k: u64| k != id && #[trigger] before.vaults@.contains_key(k) ==> after.vaults@[k] == before.vaults@[k],
{
    let a0 = before.vaults@[id].allocations@[0];
    assert(locked.vaults@[id].allocations@[0] == AssetAllocation {
        locked_amount: (before.locked_of(id) + amount) as i128,
        ..a0
    });
    assert(locked.locked_of(id) == before.locked_of(id) + amount);
    assert(after.vaults@[id].allocations@[0] == a0);
    assert(after.vaults@[id].allocations@ =~= before.vaults@[id].allocations@);
}

/// A beneficiary that delegated to another votes with nothing, and is among
/// the beneficiaries whose power its representative votes with.
pub proof fn law_delegation_hands_over_voting_power(
    before: VestingContract,
    after: VestingContract,
    beneficiary: AccountId,
    representative: AccountId,
)
    requires
        beneficiary != representative,
        after.voting_delegates@ == before.voting_delegates@.insert(beneficiary, representative),
        after.delegator_lists() == before.lists_after_delegating(beneficiary, representative),
    ensures
        after.voting_power_of(beneficiary) == 0,
        after.delegators_of(representative).contains(beneficiary),
{
    let lists = before.lists_without(beneficiary);
    let current = if lists.contains_key(representative) {
        lists[representative]
    } else {
        Seq::empty()
    };
    let m = after.delegator_lists();
    if current.contains(beneficiary) {
        assert(lists.contains_key(representative));
        assert(m[representative] == current);
    } else {
        assert(m[representative] == current.push(beneficiary));
        assert(current.push(beneficiary)[current.len() as int] == beneficiary);
    }
    assert(m.contains_key(representative));
    assert(after.delegated_beneficiaries@.contains_key(representative));
    assert(after.delegators_of(representative) == m[representative]);
}

/// Vault `id` vests by its time schedule alone: no pause, milestones,
/// performance cliff or multiplier applies to it.
pub open spec fn plain_schedule(c: VestingContract, id: u64) -> bool {
    &&& c.vaults@.contains_key(id)
    &&& !c.paused_vaults@.contains_key(id)
    &&& !c.vault_milestones@.contains_key(id)
    &&& !c.performance_cliffs@.contains_key(id)
    &&& !c.vesting_multipliers@.contains_key(id)
}

/// Under a global acceleration of `p` percent, what a plainly scheduled vault
/// has vested at `now` is its schedule read `p` percent of the schedule's
/// duration (end minus start) later: the shift depends on the duration
/// alone, not on where the schedule sits in time.
pub proof fn law_acceleration_shifts_by_a_share_of_the_duration(c: VestingContract, id: u64, now: u64)
    requires
        c.wf(),
        plain_schedule(c, id),
        c.acceleration_pct <= 100,
        c.vaults@[id].start_time <= c.vaults@[id].end_time,
        now + (c.vaults@[id].end_time - c.vaults@[id].start_time) * c.acceleration_pct / 100 <= u64::MAX,
    ensures
        ({
            let v = c.vaults@[id];
            let d = v.end_time - v.start_time;
            &&& 0 <= d * c.acceleration_pct / 100 <= d
            &&& c.vested_amount(id, now) == linear_vested(
                v.allocations@[0].total_amount,
                v.start_time,
                v.end_time,
                v.step_duration,
                now + d * c.acceleration_pct / 100,
            )
        }),
{
    let v = c.vaults@[id];
    let d: int = v.end_time - v.start_time;
    let p: int = c.acceleration_pct as int;
    assert(0 <= d * p / 100 <= d) by (nonlinear_arith)
        requires
            0 <= d,
            0 <= p <= 100,
    ;
    if p == 0 {
        assert(d * p == 0) by (nonlinear_arith)
            requires
                p == 0,
        ;
    }
}

/// Under one global acceleration, two plainly scheduled vaults with the same
/// allocation, duration and steps vest the same amount at the same time
/// relative to their starts, wherever they sit in time.
pub proof fn law_acceleration_is_relative_to_the_start(c: VestingContract, a: u64, b: u64, now_a: u64, now_b: u64)
    requires
        c.wf(),
        plain_schedule(c, a),
        plain_schedule(c, b),
        c.acceleration_pct <= 100,
        c.vaults@[a].start_time <= c.vaults@[a].end_time,
        c.vaults@[b].start_time <= c.vaults@[b].end_time,
        c.vaults@[a].allocations@[0].total_amount == c.vaults@[b].allocations@[0].total_amount,
        c.vaults@[a].step_duration == c.vaults@[b].step_duration,
        c.vaults@[a].end_time - c.vaults@[a].start_time == c.vaults@[b].end_time - c.vaults@[b].start_time,
        now_a - c.vaults@[a].start_time == now_b - c.vaults@[b].start_time,
        now_a + (c.vaults@[a].end_time - c.vaults@[a].start_time) * c.acceleration_pct / 100 <= u64::MAX,
        now_b + (c.vaults@[b].end_time - c.vaults@[b].start_time) * c.acceleration_pct / 100 <= u64::MAX,
    ensures
        c.vested_amount(a, now_a) == c.vested_amount(b, now_b),
{
    law_acceleration_shifts_by_a_share_of_the_duration(c, a, now_a);
    law_acceleration_shifts_by_a_share_of_the_duration(c, b, now_b);
}

/// Under AND logic a non-empty list of conditions passes exactly when every
/// condition in it is met; one unmet condition fails it.
pub proof fn law_and_logic_needs_every_condition(cs: Seq<OracleCondition>)
    requires
        cs.len() > 0,
    ensures
        conditions_verdict(cs, true) is Some,
        conditions_verdict(cs, true) == Some(true) <==> forall|i: int| 0 <= i < cs.len() ==> #[trigger] condition_met(cs[i]),
        (exists|i: int| 0 <= i < cs.len() && !#[trigger] condition_met(cs[i])) ==> conditions_verdict(cs, true) == Some(false),
{
}

/// Under OR logic a non-empty list of conditions passes exactly when some
/// condition in it is met.
pub proof fn law_or_logic_needs_one_condition(cs: Seq<OracleCondition>)
    requires
        cs.len() > 0,
    ensures
        conditions_verdict(cs, false) is Some,
        conditions_verdict(cs, false) == Some(true) <==> exists|i: int| 0 <= i < cs.len() && #[trigger] condition_met(cs[i]),
{
}

/// The verdict on a list of conditions does not depend on their order:
/// swapping two of them changes nothing.
pub proof fn law_verdict_ignores_the_order_of_conditions(cs: Seq<OracleCondition>, i: int, j: int, require_all: bool)
    requires
        0 <= i < cs.len(),
        0 <= j < cs.len(),
    ensures
        conditions_verdict(cs.update(i, cs[j]).update(j, cs[i]), require_all) == conditions_verdict(cs, require_all),
{
    let s = cs.update(i, cs[j]).update(j, cs[i]);
    assert(s.len() == cs.len());
    assert forall|k: int| 0 <= k < cs.len() implies #[trigger] condition_met(s[k]) == condition_met(
        cs[if k == i { j } else if k == j { i } else { k }],
    ) by {}
    assert forall|k: int| 0 <= k < cs.len() implies #[trigger] condition_met(cs[k]) == condition_met(
        s[if k == i { j } else if k == j { i } else { k }],
    ) by {}
    if cs.len() > 0 {
        if require_all {
            if forall|k: int| 0 <= k < cs.len() ==> #[trigger] condition_met(cs[k]) {
                assert forall|k: int| 0 <= k < s.len() implies #[trigger] condition_met(s[k]) by {
                    let m = if k == i { j } else if k == j { i } else { k };
                    assert(condition_met(cs[m]));
                }
            } else {
                let k = choose|k: int| 0 <= k < cs.len() && !#[trigger] condition_met(cs[k]);
                let m = if k == i { j } else if k == j { i } else { k };
                assert(!condition_met(s[m]));
            }
        } else {
            if exists|k: int| 0 <= k < cs.len() && #[trigger] condition_met(cs[k]) {
                let k = choose|k: int| 0 <= k < cs.len() && #[trigger] condition_met(cs[k]);
                let m = if k == i { j } else if k == j { i } else { k };
                assert(condition_met(s[m]));
            } else {
                assert forall|k: int| 0 <= k < s.len() implies !#[trigger] condition_met(s[k]) by {
                    let m = if k == i { j } else if k == j { i } else { k };
                    assert(!condition_met(cs[m]));
                }
            }
        }
    }
}

/// A cliff without conditions opens exactly at its fallback time; a cliff
/// with conditions opens by them alone, at any time: under AND logic when
/// all are met, under OR logic when one is.
pub proof fn law_cliffs_open_by_conditions_or_else_by_time(cliff: PerformanceCliff, now: u64, later: u64)
    ensures
        cliff.conditions@.len() == 0 ==> (cliff_passed(cliff, now) <==> now >= cliff.fallback_time),
        cliff.conditions@.len() > 0 ==> cliff_passed(cliff, now) == cliff_passed(cliff, later),
        cliff.conditions@.len() > 0 && cliff.require_all ==> (cliff_passed(cliff, now) <==> forall|i: int|
            0 <= i < cliff.conditions@.len() ==> #[trigger] condition_met(cliff.conditions@[i])),
        cliff.conditions@.len() > 0 && !cliff.require_all ==> (cliff_passed(cliff, now) <==> exists|i: int|
            0 <= i < cliff.conditions@.len() && #[trigger] condition_met(cliff.conditions@[i])),
{
}

/// A multiplier boosts by its own rate exactly when its condition is met,
/// and falls back otherwise.
pub proof fn law_multiplier_boosts_only_when_met(m: PerformanceMultiplier)
    ensures
        condition_met(m.condition) ==> multiplier_in_force(m) == m.multiplier_bps,
        !condition_met(m.condition) ==> multiplier_in_force(m) == m.fallback_multiplier_bps,
{
}

/// A multiplier never makes a vault vest more than its allocation: what
/// vested is the boosted amount, capped at the allocation.
pub proof fn law_multiplied_vesting_is_capped_at_the_allocation(c: VestingContract, id: u64, now: u64)
    requires
        c.wf(),
        c.vaults@.contains_key(id),
        c.vesting_multipliers@.contains_key(id),
    ensures
        c.vested_amount(id, now) <= c.vaults@[id].allocations@[0].total_amount
            || c.vested_amount(id, now) == 0,
        !c.performance_cliffs@.contains_key(id) ==> ({
            let boosted = trunc_div(
                c.base_vested(id, now) * multiplier_in_force(c.vesting_multipliers@[id]),
                10_000,
            );
            c.vested_amount(id, now) == if boosted > c.vaults@[id].allocations@[0].total_amount {
                c.vaults@[id].allocations@[0].total_amount as int
            } else {
                boosted
            }
        }),
{
}

/// A paused schedule vests no further: without a performance cliff, what it
/// has vested is the same at any two times.
pub proof fn law_paused_schedules_stand_still(c: VestingContract, id: u64, now: u64, later: u64)
    requires
        c.paused_vaults@.contains_key(id),
        !c.performance_cliffs@.contains_key(id),
    ensures
        c.vested_amount(id, now) == c.vested_amount(id, later),
{
}

/// A schedule is migrated only after the sunset took effect, only with the
/// hash of the snapshot exported for it, and at most once.
pub proof fn law_migration_needs_timelock_snapshot_and_happens_once(
    vault: VestingVault,
    beneficiary: AccountId,
    vesting_id: u32,
    payload_hash: Bytes32,
    now: u64,
)
    ensures
        vault.protocol_sunset matches Some(s) && now < s.effective_at ==> vault.migration_refusal(
            beneficiary,
            vesting_id,
            payload_hash,
            now,
        ),
        !(vault.payload_of(beneficiary, vesting_id) matches Some(p) && p.payload_hash == payload_hash) ==> vault.migration_refusal(
            beneficiary,
            vesting_id,
            payload_hash,
            now,
        ),
        vault.migrated(beneficiary, vesting_id) ==> vault.migration_refusal(beneficiary, vesting_id, payload_hash, now),
{
}

/// Completing a milestone whose predecessor is complete keeps the completed
/// milestones in order.
pub proof fn law_milestones_complete_in_order(done: Map<u32, bool>, milestone_number: u32)
    requires
        milestones_in_order(done),
        milestone_number <= 1 || done.contains_key((milestone_number - 1) as u32),
    ensures
        milestones_in_order(done.insert(milestone_number, true)),
{
    let after = done.insert(milestone_number, true);
    assert forall|n: u32| #[trigger] after.contains_key(n) && n > 1 implies after.contains_key((n - 1) as u32) by {
        if n != milestone_number {
            assert(done.contains_key(n));
        }
    }
}

/// A holder who has not voted yet adds a vote by a new voter: each holder
/// votes at most once on a reassignment.
pub proof fn law_each_holder_votes_once(votes: Seq<VetoVote>, vote: VetoVote)
    requires
        voters_distinct(votes),
        !has_voted(votes, vote.voter),
    ensures
        voters_distinct(votes.push(vote)),
{
    let after = votes.push(vote);
    assert forall|i: int, j: int| 0 <= i < j < after.len() implies #[trigger] after[i].voter != #[trigger] after[j].voter by {
        if j == votes.len() {
            assert(votes[i] == after[i]);
        } else {
            assert(votes[i] == after[i] && votes[j] == after[j]);
        }
    }
}

/// A balance written for an asset is read back, and other assets' balances
/// are untouched.
pub proof fn law_balance_reads_back(balances: Map<AccountId, i128>, asset: AccountId, amount: i128, other: AccountId)
    requires
        other != asset,
    ensures
        stored_balance(balances.insert(asset, amount), asset) == amount,
        stored_balance(balances.insert(asset, amount), other) == stored_balance(balances, other),
{
}

/// Action ids are handed out in strictly increasing order: the id after the
/// next one exceeds it.
pub proof fn law_action_ids_increase(storage: TimelockStorage)
    requires
        storage.counter() + 2 <= u64::MAX,
    ensures
        ({
            let first = (storage.counter() + 1) as u64;
            let after = TimelockStorage { action_counter: Some(first), ..storage };
            &&& first > storage.counter()
            &&& after.counter() + 1 > first
        }),
{
}

/// For tokens with at most two decimals, a positive amount divided by a
/// positive divisor never rounds down to nothing.
pub proof fn law_low_decimal_division_never_rounds_to_zero(decimals: u32, amount: i128, divisor: i128)
    requires
        decimals <= 2,
        amount > 0,
        divisor > 0,
    ensures
        precision_quotient(decimals, amount, divisor) >= 1,
{
    if decimals == 0 {
        if amount >= divisor {
            assert(amount as int / divisor as int >= 1) by (nonlinear_arith)
                requires amount >= divisor, divisor > 0;
        }
    } else {
        let scale: int = if decimals == 1 { 10 } else { 100 };
        let q = (amount * scale) / (divisor as int);
        assert(q >= 0) by (nonlinear_arith)
            requires amount > 0, scale > 0, divisor > 0, q == (amount * scale) / (divisor as int);
        assert(q / scale >= 0) by (nonlinear_arith)
            requires q >= 0, scale > 0;
    }
}

} // verus!
