//! Protocol sunset: a 30-day timelocked shutdown during which users export
//! hashed snapshots of their schedules, and relayers migrate them afterwards.
use vstd::prelude::*;
use soroban_sdk::{Env, Address, TryFromVal};
use soroban_sdk::xdr::{ScAddress, PublicKey, Uint256, ContractId, ToXdr};
use crate::account::{AccountId, AddressKind, Bytes32};
use crate::table::ScheduleKey;
use crate::vault::{VestingVault, VaultEvent};
use crate::vault_errors::Error;
use crate::vault_types::{
    ProtocolSunset, MigrationPayload, RelayerMigration, SunsetInitiated, SunsetAborted, StateMigrated,
    SUNSET_TIMELOCK_DURATION,
};

verus! {

#[verifier::external_type_specification]
#[verifier::external_body]
pub struct ExEnv(Env);

/// Total amount reported in an exported snapshot.
pub const SNAPSHOT_TOTAL_AMOUNT: i128 = 10000;
/// Claimed amount reported in an exported snapshot.
pub const SNAPSHOT_CLAIMED_AMOUNT: i128 = 2500;
/// Remaining amount reported in an exported snapshot.
pub const SNAPSHOT_REMAINING_AMOUNT: i128 = 7500;
/// Schedule start reported in an exported snapshot.
pub const SNAPSHOT_START_TIME: u64 = 1609459200;
/// Schedule end reported in an exported snapshot.
pub const SNAPSHOT_END_TIME: u64 = 1672531200;

/// The SHA-256 digest of the ledger (XDR) encoding of a snapshot's fields.
pub uninterp spec fn payload_digest(
    user: AccountId,
    vesting_id: u32,
    total_amount: i128,
    claimed_amount: i128,
    remaining_amount: i128,
    start_time: u64,
    end_time: u64,
) -> Seq<u8>;

/// Hashes a snapshot with the host's `Crypto::sha256` (soroban_sdk), over
/// the XDR encoding (`ToXdr::to_xdr`) of the tuple of its fields, the account
/// first as a ledger address. Claimed: the result is `payload_digest` of the
/// arguments, a function of them alone.
#[verifier::external_body]
fn payload_sha256(
    env: &Env,
    user: &AccountId,
    vesting_id: u32,
    total_amount: i128,
    claimed_amount: i128,
    remaining_amount: i128,
    start_time: u64,
    end_time: u64,
) -> (r: [u8; 32])
    ensures
        r@ == payload_digest(*user, vesting_id, total_amount, claimed_amount, remaining_amount, start_time, end_time),
{
    let sc = match user.kind {
        AddressKind::Account => ScAddress::Account(soroban_sdk::xdr::AccountId(PublicKey::PublicKeyTypeEd25519(Uint256(user.key)))),
        AddressKind::Contract => ScAddress::Contract(ContractId(soroban_sdk::xdr::Hash(user.key))),
    };
    let address = Address::try_from_val(env, &sc).unwrap();
    let data = (address, vesting_id, total_amount, claimed_amount, remaining_amount, start_time, end_time);
    env.crypto().sha256(&data.to_xdr(env)).to_array()
}

impl VestingVault {
    /// A sunset is under way (initiated and not aborted).
    pub open spec fn sunset_active(&self) -> bool {
        self.protocol_sunset matches Some(s) && s.is_initiated && !s.is_aborted
    }

    /// The snapshot exported for an account's schedule, if any.
    pub open spec fn payload_of(&self, beneficiary: AccountId, vesting_id: u32) -> Option<MigrationPayload> {
        let k = ScheduleKey { account: beneficiary, vesting_id };
        if self.migration_payloads@.contains_key(k) {
            Some(self.migration_payloads@[k])
        } else {
            None
        }
    }

    /// Whether an account's schedule was migrated.
    pub open spec fn migrated(&self, beneficiary: AccountId, vesting_id: u32) -> bool {
        let k = ScheduleKey { account: beneficiary, vesting_id };
        self.relayer_migrations@.contains_key(k) && self.relayer_migrations@[k].is_completed
    }

    /// Starts the sunset towards `migration_target`: new schedules halt at
    /// once, and the sunset takes effect after 30 days.
    pub fn prepare_protocol_sunset(&mut self, admin: &AccountId, migration_target: &AccountId, now: u64) -> (r: Result<(), Error>)
        requires
            !old(self).sunset_active() ==> now + SUNSET_TIMELOCK_DURATION <= u64::MAX,
        ensures
            old(self).sunset_active() ==> r == Err::<(), Error>(Error::InvalidInput) && *final(self) == *old(self),
            !old(self).sunset_active() ==> {
                &&& r is Ok
                &&& *final(self) == (VestingVault {
                    protocol_sunset: Some(ProtocolSunset {
                        is_initiated: true,
                        initiated_at: now,
                        effective_at: (now + SUNSET_TIMELOCK_DURATION) as u64,
                        migration_target: *migration_target,
                        is_aborted: false,
                        new_schedules_halted: true,
                    }),
                    events: final(self).events,
                    ..*old(self)
                })
                &&& final(self).events@ == old(self).events@.push(VaultEvent::SunsetInitiated(SunsetInitiated {
                    initiated_by: *admin,
                    migration_target: *migration_target,
                    initiated_at: now,
                    effective_at: (now + SUNSET_TIMELOCK_DURATION) as u64,
                }))
            },
    {
        if let Some(sunset) = self.protocol_sunset {
            if sunset.is_initiated && !sunset.is_aborted {
                return Err(Error::InvalidInput);
            }
        }
        let effective_at = now + SUNSET_TIMELOCK_DURATION;
        self.protocol_sunset = Some(ProtocolSunset {
            is_initiated: true,
            initiated_at: now,
            effective_at,
            migration_target: *migration_target,
            is_aborted: false,
            new_schedules_halted: true,
        });
        self.events.push(VaultEvent::SunsetInitiated(SunsetInitiated {
            initiated_by: *admin,
            migration_target: *migration_target,
            initiated_at: now,
            effective_at,
        }));
        Ok(())
    }

    /// Calls the sunset off before it takes effect, resuming normal operation.
    pub fn abort_protocol_sunset(&mut self, admin: &AccountId, now: u64) -> (r: Result<(), Error>)
        ensures
            !old(self).sunset_active() ==> r == Err::<(), Error>(Error::InvalidInput) && *final(self) == *old(self),
            old(self).sunset_active() ==> {
                let s = old(self).protocol_sunset.unwrap();
                if now >= s.effective_at {
                    r == Err::<(), Error>(Error::InvalidInput) && *final(self) == *old(self)
                } else {
                    &&& r is Ok
                    &&& *final(self) == (VestingVault {
                        protocol_sunset: Some(ProtocolSunset { is_aborted: true, new_schedules_halted: false, ..s }),
                        events: final(self).events,
                        ..*old(self)
                    })
                    &&& final(self).events@ == old(self).events@.push(VaultEvent::SunsetAborted(
                        SunsetAborted { aborted_by: *admin, aborted_at: now },
                    ))
                }
            },
    {
        match self.protocol_sunset {
            Some(sunset) => {
                if !sunset.is_initiated || sunset.is_aborted {
                    return Err(Error::InvalidInput);
                }
                if now >= sunset.effective_at {
                    return Err(Error::InvalidInput);
                }
                self.protocol_sunset = Some(ProtocolSunset { is_aborted: true, new_schedules_halted: false, ..sunset });
                self.events.push(VaultEvent::SunsetAborted(SunsetAborted { aborted_by: *admin, aborted_at: now }));
                Ok(())
            },
            None => Err(Error::InvalidInput),
        }
    }

    /// Exports a snapshot of `user`'s schedule `vesting_id` for migration,
    /// stores it, and returns its hash; only while a sunset is under way.
    pub fn export_state_payload(&mut self, env: &Env, user: &AccountId, vesting_id: u32, now: u64) -> (r: Result<Bytes32, Error>)
        requires
            old(self).wf(),
        ensures
            final(self).wf(),
            !old(self).sunset_active() ==> r == Err::<Bytes32, Error>(Error::InvalidInput) && *final(self) == *old(self),
            old(self).sunset_active() ==> {
                &&& r matches Ok(hash) && hash.bytes@ == payload_digest(
                    *user,
                    vesting_id,
                    SNAPSHOT_TOTAL_AMOUNT,
                    SNAPSHOT_CLAIMED_AMOUNT,
                    SNAPSHOT_REMAINING_AMOUNT,
                    SNAPSHOT_START_TIME,
                    SNAPSHOT_END_TIME,
                ) && final(self).migration_payloads@ == old(self).migration_payloads@.insert(
                    ScheduleKey { account: *user, vesting_id },
                    MigrationPayload {
                        beneficiary: *user,
                        vesting_id,
                        total_amount: SNAPSHOT_TOTAL_AMOUNT,
                        claimed_amount: SNAPSHOT_CLAIMED_AMOUNT,
                        remaining_amount: SNAPSHOT_REMAINING_AMOUNT,
                        start_time: SNAPSHOT_START_TIME,
                        end_time: SNAPSHOT_END_TIME,
                        payload_hash: hash,
                        exported_at: now,
                    },
                )
                &&& *final(self) == (VestingVault { migration_payloads: final(self).migration_payloads, ..*old(self) })
            },
    {
        match self.protocol_sunset {
            Some(sunset) => {
                if !sunset.is_initiated || sunset.is_aborted {
                    return Err(Error::InvalidInput);
                }
            },
            None => {
                return Err(Error::InvalidInput);
            },
        }
        let total_amount: i128 = SNAPSHOT_TOTAL_AMOUNT;
        let claimed_amount: i128 = SNAPSHOT_CLAIMED_AMOUNT;
        let remaining_amount = total_amount - claimed_amount;
        let start_time: u64 = SNAPSHOT_START_TIME;
        let end_time: u64 = SNAPSHOT_END_TIME;
        let digest = payload_sha256(env, user, vesting_id, total_amount, claimed_amount, remaining_amount, start_time, end_time);
        let payload_hash = Bytes32 { bytes: digest };
        self.migration_payloads.insert(ScheduleKey { account: *user, vesting_id }, MigrationPayload {
            beneficiary: *user,
            vesting_id,
            total_amount,
            claimed_amount,
            remaining_amount,
            start_time,
            end_time,
            payload_hash,
            exported_at: now,
        });
        Ok(payload_hash)
    }

    /// Why a relayer's migration of a schedule is refused, if it is.
    pub open spec fn migration_refusal(&self, beneficiary: AccountId, vesting_id: u32, payload_hash: Bytes32, now: u64) -> bool {
        ||| !self.sunset_active()
        ||| now < self.protocol_sunset.unwrap().effective_at
        ||| !(self.payload_of(beneficiary, vesting_id) matches Some(p) && p.payload_hash == payload_hash)
        ||| self.migrated(beneficiary, vesting_id)
    }

    /// Marks `beneficiary`'s schedule migrated, once the sunset is in effect,
    /// when `payload_hash` matches the exported snapshot; at most once.
    pub fn relayer_migrate_account(&mut self, relayer: &AccountId, beneficiary: &AccountId, vesting_id: u32, payload_hash: &Bytes32, now: u64) -> (r: Result<(), Error>)
        requires
            old(self).wf(),
        ensures
            final(self).wf(),
            old(self).migration_refusal(*beneficiary, vesting_id, *payload_hash, now) ==> r == Err::<(), Error>(
                Error::InvalidInput,
            ) && *final(self) == *old(self),
            !old(self).migration_refusal(*beneficiary, vesting_id, *payload_hash, now) ==> {
                &&& r is Ok
                &&& *final(self) == (VestingVault {
                    relayer_migrations: final(self).relayer_migrations,
                    events: final(self).events,
                    ..*old(self)
                })
                &&& final(self).relayer_migrations@ == old(self).relayer_migrations@.insert(
                    ScheduleKey { account: *beneficiary, vesting_id },
                    RelayerMigration {
                        beneficiary: *beneficiary,
                        vesting_id,
                        payload_hash: *payload_hash,
                        is_completed: true,
                        migrated_at: now,
                    },
                )
                &&& final(self).events@ == old(self).events@.push(VaultEvent::StateMigrated(StateMigrated {
                    beneficiary: *beneficiary,
                    vesting_id,
                    payload_hash: *payload_hash,
                    migrated_at: now,
                }))
            },
    {
        match self.protocol_sunset {
            Some(sunset) => {
                if !sunset.is_initiated || sunset.is_aborted || now < sunset.effective_at {
                    return Err(Error::InvalidInput);
                }
            },
            None => {
                return Err(Error::InvalidInput);
            },
        }
        let key = ScheduleKey { account: *beneficiary, vesting_id };
        match self.migration_payloads.get(&key) {
            Some(payload) => {
                if !payload.payload_hash.same(payload_hash) {
                    return Err(Error::InvalidInput);
                }
            },
            None => {
                return Err(Error::InvalidInput);
            },
        }
        if let Some(migration) = self.relayer_migrations.get(&key) {
            if migration.is_completed {
                return Err(Error::InvalidInput);
            }
        }
        self.relayer_migrations.insert(key, RelayerMigration {
            beneficiary: *beneficiary,
            vesting_id,
            payload_hash: *payload_hash,
            is_completed: true,
            migrated_at: now,
        });
        self.events.push(VaultEvent::StateMigrated(StateMigrated {
            beneficiary: *beneficiary,
            vesting_id,
            payload_hash: *payload_hash,
            migrated_at: now,
        }));
        Ok(())
    }

    /// The sunset on record, if any.
    pub fn get_protocol_sunset_status(&self) -> (r: Option<ProtocolSunset>)
        ensures
            r == self.protocol_sunset,
    {
        self.protocol_sunset
    }

    /// The snapshot exported for an account's schedule, if any.
    pub fn get_migration_payload(&self, beneficiary: &AccountId, vesting_id: u32) -> (r: Option<MigrationPayload>)
        requires
            self.wf(),
        ensures
            r == self.payload_of(*beneficiary, vesting_id),
    {
        match self.migration_payloads.get(&ScheduleKey { account: *beneficiary, vesting_id }) {
            Some(p) => Some(*p),
            None => None,
        }
    }

    /// Whether an account's schedule was migrated.
    pub fn is_account_migrated(&self, beneficiary: &AccountId, vesting_id: u32) -> (r: bool)
        requires
            self.wf(),
        ensures
            r == self.migrated(*beneficiary, vesting_id),
    {
        match self.relayer_migrations.get(&ScheduleKey { account: *beneficiary, vesting_id }) {
            Some(m) => m.is_completed,
            None => false,
        }
    }
}

} // verus!
