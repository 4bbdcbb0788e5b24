//! Insurance treasury: its error kinds, records and typed storage.
//!
//! The treasury keeps a segregated balance per asset, the security council
//! that signs bailouts, and the bailout requests themselves.
use vstd::prelude::*;
use crate::account::{AccountId, copy_accounts};
use crate::table::Table;

verus! {

/// Why a treasury operation was refused.
#[derive(Clone, Copy, Debug, PartialEq, Eq, Structural)]
pub enum Error {
    UnauthorizedDeposit,
    UnsupportedAsset,
    UnauthorizedBailoutAccess,
    InsufficientFunds,
    RequestAlreadyExecuted,
    TimelockNotExpired,
    InsufficientSignatures,
}

/// The numeric code under which each treasury error is reported.
pub open spec fn treasury_error_code(e: Error) -> u32 {
    match e {
        Error::UnauthorizedDeposit => 1,
        Error::UnsupportedAsset => 2,
        Error::UnauthorizedBailoutAccess => 3,
        Error::InsufficientFunds => 4,
        Error::RequestAlreadyExecuted => 5,
        Error::TimelockNotExpired => 6,
        Error::InsufficientSignatures => 7,
    }
}

impl Error {
    /// The numeric code of this error.
    pub fn code(&self) -> (r: u32)
        ensures
            r == treasury_error_code(*self),
    {
        match self {
            Error::UnauthorizedDeposit => 1,
            Error::UnsupportedAsset => 2,
            Error::UnauthorizedBailoutAccess => 3,
            Error::InsufficientFunds => 4,
            Error::RequestAlreadyExecuted => 5,
            Error::TimelockNotExpired => 6,
            Error::InsufficientSignatures => 7,
        }
    }
}

/// A request to pay a beneficiary out of the insurance fund.
pub struct BailoutRequest {
    pub id: u64,
    pub beneficiary: AccountId,
    pub asset: AccountId,
    pub amount: i128,
    pub requested_at: u64,
    pub signatures: Vec<AccountId>,
    pub executed: bool,
}

/// Emitted when yield is routed into the fund.
#[derive(Clone, Copy, Debug)]
pub struct InsuranceFundCapitalized {
    pub asset: AccountId,
    pub amount: i128,
    pub total_balance: i128,
}

/// Emitted when a bailout is requested.
#[derive(Clone, Copy, Debug)]
pub struct BailoutRequested {
    pub request_id: u64,
    pub beneficiary: AccountId,
    pub asset: AccountId,
    pub amount: i128,
    pub requested_at: u64,
}

/// Emitted when a bailout is paid out.
#[derive(Clone, Copy, Debug)]
pub struct BailoutExecuted {
    pub request_id: u64,
    pub beneficiary: AccountId,
    pub asset: AccountId,
    pub amount: i128,
    pub executed_at: u64,
}

/// Timelock on bailouts when none was configured: fourteen days, in seconds.
pub const DEFAULT_BAILOUT_TIMELOCK: u64 = 1_209_600;

/// Everything the treasury keeps in its instance storage. A field left `None`
/// (or a key absent from a table) is a storage key that was never written.
pub struct TreasuryStorage {
    pub admin: Option<AccountId>,
    pub security_council: Option<Vec<AccountId>>,
    pub supported_assets: Option<Vec<AccountId>>,
    pub authorized_adapters: Option<Vec<AccountId>>,
    pub timelock_duration: Option<u64>,
    pub is_initialized: Option<bool>,
    pub balances: Table<AccountId, i128>,
    pub bailout_requests: Table<u64, BailoutRequest>,
    pub next_request_id: Option<u64>,
}

impl TreasuryStorage {
    /// The tables hold distinct keys.
    pub open spec fn wf(&self) -> bool {
        self.balances.wf() && self.bailout_requests.wf()
    }

    /// Storage in which nothing was written yet.
    pub fn new() -> (s: Self)
        ensures
            s.wf(),
            s.admin is None,
            s.security_council is None,
            s.supported_assets is None,
            s.authorized_adapters is None,
            s.timelock_duration is None,
            s.is_initialized is None,
            s.balances@ == Map::<AccountId, i128>::empty(),
            s.bailout_requests@ == Map::<u64, BailoutRequest>::empty(),
            s.next_request_id is None,
    {
        TreasuryStorage {
            admin: None,
            security_council: None,
            supported_assets: None,
            authorized_adapters: None,
            timelock_duration: None,
            is_initialized: None,
            balances: Table::new(),
            bailout_requests: Table::new(),
            next_request_id: None,
        }
    }
}

/// The accounts stored under an optional list key, or none when unset.
pub open spec fn stored_accounts(v: Option<Vec<AccountId>>) -> Seq<AccountId> {
    match v {
        Some(list) => list@,
        None => Seq::empty(),
    }
}

pub fn set_admin(e: &mut TreasuryStorage, admin: &AccountId)
    ensures
        *final(e) == (TreasuryStorage { admin: Some(*admin), ..*old(e) }),
{
    e.admin = Some(*admin);
}

pub fn get_admin(e: &TreasuryStorage) -> (r: AccountId)
    requires
        e.admin is Some,
    ensures
        e.admin == Some(r),
{
    e.admin.unwrap()
}

/// Admits only the stored admin.
pub fn require_admin(e: &TreasuryStorage, admin: &AccountId)
    requires
        e.admin == Some(*admin),
{
}

pub fn set_security_council(e: &mut TreasuryStorage, council: Vec<AccountId>)
    ensures
        *final(e) == (TreasuryStorage { security_council: Some(council), ..*old(e) }),
{
    e.security_council = Some(council);
}

pub fn get_security_council(e: &TreasuryStorage) -> (r: Vec<AccountId>)
    ensures
        r@ == stored_accounts(e.security_council),
{
    match &e.security_council {
        Some(list) => copy_accounts(list),
        None => Vec::new(),
    }
}

pub fn set_supported_assets(e: &mut TreasuryStorage, assets: Vec<AccountId>)
    ensures
        *final(e) == (TreasuryStorage { supported_assets: Some(assets), ..*old(e) }),
{
    e.supported_assets = Some(assets);
}

pub fn get_supported_assets(e: &TreasuryStorage) -> (r: Vec<AccountId>)
    ensures
        r@ == stored_accounts(e.supported_assets),
{
    match &e.supported_assets {
        Some(list) => copy_accounts(list),
        None => Vec::new(),
    }
}

pub fn set_authorized_adapters(e: &mut TreasuryStorage, adapters: Vec<AccountId>)
    ensures
        *final(e) == (TreasuryStorage { authorized_adapters: Some(adapters), ..*old(e) }),
{
    e.authorized_adapters = Some(adapters);
}

pub fn get_authorized_adapters(e: &TreasuryStorage) -> (r: Vec<AccountId>)
    ensures
        r@ == stored_accounts(e.authorized_adapters),
{
    match &e.authorized_adapters {
        Some(list) => copy_accounts(list),
        None => Vec::new(),
    }
}

pub fn set_timelock_duration(e: &mut TreasuryStorage, duration: u64)
    ensures
        *final(e) == (TreasuryStorage { timelock_duration: Some(duration), ..*old(e) }),
{
    e.timelock_duration = Some(duration);
}

/// The configured bailout timelock, fourteen days when none was set.
pub fn get_timelock_duration(e: &TreasuryStorage) -> (r: u64)
    ensures
        r == match e.timelock_duration {
            Some(d) => d,
            None => DEFAULT_BAILOUT_TIMELOCK,
        },
{
    match e.timelock_duration {
        Some(d) => d,
        None => DEFAULT_BAILOUT_TIMELOCK,
    }
}

pub fn set_is_initialized(e: &mut TreasuryStorage, initialized: bool)
    ensures
        *final(e) == (TreasuryStorage { is_initialized: Some(initialized), ..*old(e) }),
{
    e.is_initialized = Some(initialized);
}

/// Whether the treasury was initialized; false when the flag was never set.
pub fn is_initialized(e: &TreasuryStorage) -> (r: bool)
    ensures
        r == (e.is_initialized == Some(true)),
{
    match e.is_initialized {
        Some(b) => b,
        None => false,
    }
}

pub fn set_balance(e: &mut TreasuryStorage, asset: &AccountId, balance: i128)
    requires
        old(e).wf(),
    ensures
        final(e).wf(),
        final(e).balances@ == old(e).balances@.insert(*asset, balance),
        final(e).admin == old(e).admin,
        final(e).security_council == old(e).security_council,
        final(e).supported_assets == old(e).supported_assets,
        final(e).authorized_adapters == old(e).authorized_adapters,
        final(e).timelock_duration == old(e).timelock_duration,
        final(e).is_initialized == old(e).is_initialized,
        final(e).bailout_requests == old(e).bailout_requests,
        final(e).next_request_id == old(e).next_request_id,
{
    e.balances.insert(*asset, balance);
}

/// The balance recorded for `asset` in a balance table; zero when none was.
pub open spec fn stored_balance(balances: Map<AccountId, i128>, asset: AccountId) -> i128 {
    if balances.contains_key(asset) {
        balances[asset]
    } else {
        0
    }
}

/// The fund's balance in `asset`; zero when none was recorded.
pub fn get_balance(e: &TreasuryStorage, asset: &AccountId) -> (r: i128)
    requires
        e.wf(),
    ensures
        r == stored_balance(e.balances@, *asset),
{
    match e.balances.get(asset) {
        Some(b) => *b,
        None => 0,
    }
}

pub fn set_bailout_request(e: &mut TreasuryStorage, id: u64, request: BailoutRequest)
    requires
        old(e).wf(),
    ensures
        final(e).wf(),
        final(e).bailout_requests@ == old(e).bailout_requests@.insert(id, request),
        final(e).admin == old(e).admin,
        final(e).security_council == old(e).security_council,
        final(e).supported_assets == old(e).supported_assets,
        final(e).authorized_adapters == old(e).authorized_adapters,
        final(e).timelock_duration == old(e).timelock_duration,
        final(e).is_initialized == old(e).is_initialized,
        final(e).balances == old(e).balances,
        final(e).next_request_id == old(e).next_request_id,
{
    e.bailout_requests.insert(id, request);
}

/// The bailout request stored under `id`, which must exist.
pub fn get_bailout_request(e: &TreasuryStorage, id: u64) -> (r: &BailoutRequest)
    requires
        e.wf(),
        e.bailout_requests@.contains_key(id),
    ensures
        *r == e.bailout_requests@[id],
{
    e.bailout_requests.get(&id).unwrap()
}

pub fn set_next_request_id(e: &mut TreasuryStorage, id: u64)
    ensures
        *final(e) == (TreasuryStorage { next_request_id: Some(id), ..*old(e) }),
{
    e.next_request_id = Some(id);
}

/// The id the next bailout request will receive; zero when never set.
pub fn get_next_request_id(e: &TreasuryStorage) -> (r: u64)
    ensures
        r == match e.next_request_id {
            Some(id) => id,
            None => 0,
        },
{
    match e.next_request_id {
        Some(id) => id,
        None => 0,
    }
}

} // verus!
