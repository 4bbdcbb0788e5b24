//! Administrator timelock: administrative actions are staged, and may run only
//! after a fixed delay; a security council may veto them meanwhile, and a
//! circuit breaker may pause the protocol at once.
use vstd::prelude::*;
use crate::account::AccountId;
use crate::table::Table;

verus! {

/// Mandatory delay between proposing and executing an action: 48 hours.
pub const TIMELOCK_DELAY_SECONDS: u64 = 172_800;

/// Time-to-live, in ledgers, given to a staged action (about 30 days).
pub const STAGED_ACTION_TTL: u32 = 518_400;

/// The administrative operations that go through the timelock, each with the
/// payload needed to replay it.
#[derive(Clone, Copy, Debug)]
pub enum AdminActionType {
    Pause,
    Unpause,
    /// Owner, amount, start time, end time.
    CreateVaultFull(AccountId, i128, u64, u64),
    /// Owner, amount, start time, end time.
    CreateVaultLazy(AccountId, i128, u64, u64),
    /// Vault id.
    RevokeTokens(u64),
    /// Vault id, amount.
    RevokePartial(u64, i128),
    /// Vault id, new beneficiary.
    TransferBeneficiary(u64, AccountId),
    /// Vault id.
    MarkIrrevocable(u64),
    /// The proposed new admin.
    ProposeNewAdmin(AccountId),
}

/// Where a staged action stands.
#[derive(Clone, Copy, Debug, PartialEq, Eq, Structural)]
pub enum ActionStatus {
    Pending,
    Executed,
    Vetoed,
}

/// An administrative action waiting in, or through, the timelock.
#[derive(Clone, Copy, Debug)]
pub struct StagedAction {
    pub action_id: u64,
    pub action: AdminActionType,
    pub proposer: AccountId,
    pub proposed_at: u64,
    /// `proposed_at + TIMELOCK_DELAY_SECONDS`.
    pub execute_after: u64,
    pub status: ActionStatus,
}

/// Emitted when an action is proposed.
#[derive(Clone, Copy, Debug)]
pub struct AdminActionProposed {
    pub action_id: u64,
    pub proposer: AccountId,
    pub execute_after: u64,
    pub proposed_at: u64,
}

/// Emitted when a staged action is executed.
#[derive(Clone, Copy, Debug)]
pub struct AdminActionExecuted {
    pub action_id: u64,
    pub executor: AccountId,
    pub executed_at: u64,
}

/// Emitted when a staged action is vetoed.
#[derive(Clone, Copy, Debug)]
pub struct AdminActionVetoed {
    pub action_id: u64,
    pub vetoed_by: AccountId,
    pub vetoed_at: u64,
}

/// Emitted on an emergency pause.
#[derive(Clone, Copy, Debug)]
pub struct EmergencyPauseActivated {
    pub activated_by: AccountId,
    pub activated_at: u64,
}

/// The timelock's storage: the action counter, the staged actions, the pause
/// flag and the two privileged addresses. `None` is a key never written.
pub struct TimelockStorage {
    pub action_counter: Option<u64>,
    pub staged_actions: Table<u64, StagedAction>,
    pub paused: Option<bool>,
    pub security_council: Option<AccountId>,
    pub circuit_breaker: Option<AccountId>,
}

impl TimelockStorage {
    pub open spec fn wf(&self) -> bool {
        self.staged_actions.wf()
    }

    /// The counter's value, zero when never set.
    pub open spec fn counter(&self) -> u64 {
        match self.action_counter {
            Some(c) => c,
            None => 0,
        }
    }

    /// Storage in which nothing was written yet.
    pub fn new() -> (s: Self)
        ensures
            s.wf(),
            s.action_counter is None,
            s.staged_actions@ == Map::<u64, StagedAction>::empty(),
            s.paused is None,
            s.security_council is None,
            s.circuit_breaker is None,
    {
        TimelockStorage {
            action_counter: None,
            staged_actions: Table::new(),
            paused: None,
            security_council: None,
            circuit_breaker: None,
        }
    }
}

/// Hands out the next action id and advances the counter.
pub fn next_action_id(env: &mut TimelockStorage) -> (r: u64)
    requires
        old(env).counter() < u64::MAX,
    ensures
        r == old(env).counter() + 1,
        *final(env) == (TimelockStorage { action_counter: Some(r), ..*old(env) }),
{
    let current: u64 = match env.action_counter {
        Some(c) => c,
        None => 0,
    };
    let next = current + 1;
    env.action_counter = Some(next);
    next
}

/// Stores a staged action under its id.
pub fn store_staged_action(env: &mut TimelockStorage, action: &StagedAction)
    requires
        old(env).wf(),
    ensures
        final(env).wf(),
        final(env).staged_actions@ == old(env).staged_actions@.insert(action.action_id, *action),
        final(env).action_counter == old(env).action_counter,
        final(env).paused == old(env).paused,
        final(env).security_council == old(env).security_council,
        final(env).circuit_breaker == old(env).circuit_breaker,
{
    env.staged_actions.insert(action.action_id, *action);
}

/// The staged action stored under `action_id`, which must exist.
pub fn load_staged_action(env: &TimelockStorage, action_id: u64) -> (r: StagedAction)
    requires
        env.wf(),
        env.staged_actions@.contains_key(action_id),
    ensures
        r == env.staged_actions@[action_id],
{
    *env.staged_actions.get(&action_id).unwrap()
}

/// Whether the protocol is paused; false when the flag was never set.
pub fn is_paused(env: &TimelockStorage) -> (r: bool)
    ensures
        r == (env.paused == Some(true)),
{
    match env.paused {
        Some(p) => p,
        None => false,
    }
}

pub fn set_paused(env: &mut TimelockStorage, paused: bool)
    ensures
        *final(env) == (TimelockStorage { paused: Some(paused), ..*old(env) }),
{
    env.paused = Some(paused);
}

pub fn get_security_council(env: &TimelockStorage) -> (r: Option<AccountId>)
    ensures
        r == env.security_council,
{
    env.security_council
}

pub fn set_security_council_addr(env: &mut TimelockStorage, addr: &AccountId)
    ensures
        *final(env) == (TimelockStorage { security_council: Some(*addr), ..*old(env) }),
{
    env.security_council = Some(*addr);
}

pub fn get_circuit_breaker(env: &TimelockStorage) -> (r: Option<AccountId>)
    ensures
        r == env.circuit_breaker,
{
    env.circuit_breaker
}

pub fn set_circuit_breaker_addr(env: &mut TimelockStorage, addr: &AccountId)
    ensures
        *final(env) == (TimelockStorage { circuit_breaker: Some(*addr), ..*old(env) }),
{
    env.circuit_breaker = Some(*addr);
}

/// Admits only the configured security council (whose signature the host
/// checks before this is reached).
pub fn require_security_council(env: &TimelockStorage, caller: &AccountId)
    requires
        env.security_council == Some(*caller),
{
}

/// Admits only the configured circuit breaker (whose signature the host
/// checks before this is reached).
pub fn require_circuit_breaker(env: &TimelockStorage, caller: &AccountId)
    requires
        env.circuit_breaker == Some(*caller),
{
}

/// Admits calls only while the protocol is not paused.
pub fn require_not_paused(env: &TimelockStorage)
    requires
        env.paused != Some(true),
{
}

} // verus!
