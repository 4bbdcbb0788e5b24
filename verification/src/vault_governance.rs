//! Auditor emergency pause (two of three auditors freeze claims for a while)
//! and the admin dead-man's switch.
use vstd::prelude::*;
use vstd::string::StringExecFns;
use crate::account::{AccountId, account_lt, lemma_account_total, lemma_account_transitive, lemma_account_irreflexive};
use crate::vault::{VestingVault, VaultEvent, EMERGENCY_PAUSE_DURATION, request_auditors, requests_sorted};
use crate::vault_errors::Error;
use crate::vault_types::{
    AuditorPauseRequest, EmergencyPause, EmergencyPauseTriggered, AdminDeadManSwitch,
    AdminRecoveryAddressSet, AdminActivityRecorded, AdminRecoveryClaimed, ADMIN_INACTIVITY_TIMEOUT,
};

verus! {

/// Whether `a` occurs in `s`.
pub open spec fn listed(s: Seq<AccountId>, a: AccountId) -> bool {
    exists|i: int| 0 <= i < s.len() && s[i] == a
}

/// Whether `a` occurs in a list of accounts.
pub fn account_listed(v: &Vec<AccountId>, a: &AccountId) -> (r: bool)
    ensures
        r == listed(v@, *a),
{
    let mut i: usize = 0;
    while i < v.len()
        invariant
            0 <= i <= v@.len(),
            forall|j: int| 0 <= j < i ==> v@[j] != *a,
        decreases v@.len() - i,
    {
        if v[i].same(a) {
            return true;
        }
        i = i + 1;
    }
    false
}

/// The time elapsed from `since` to `now`, or zero if `now` is earlier.
pub open spec fn elapsed_since(now: u64, since: u64) -> u64 {
    if now >= since {
        (now - since) as u64
    } else {
        0
    }
}

impl VestingVault {
    /// The request list after adding `req` at its place in address order.
    pub open spec fn requests_with(&self, req: AuditorPauseRequest, p: int) -> Seq<AuditorPauseRequest> {
        self.auditor_pause_requests@.insert(p, req)
    }

    /// Registers the three auditors of the 2-of-3 emergency pause.
    pub fn initialize_auditors(&mut self, admin: &AccountId, auditors: Vec<AccountId>) -> (r: Result<(), Error>)
        ensures
            auditors@.len() != 3 ==> r == Err::<(), Error>(Error::InvalidInput) && *final(self) == *old(self),
            auditors@.len() == 3 ==> r is Ok && *final(self) == (VestingVault { auditors, ..*old(self) }),
    {
        if auditors.len() != 3 {
            return Err(Error::InvalidInput);
        }
        self.auditors = auditors;
        Ok(())
    }

    /// Records `auditor`'s request for an emergency pause. Once two auditors
    /// have asked, the pause takes effect at once for
    /// `EMERGENCY_PAUSE_DURATION` and the requests are cleared.
    pub fn request_emergency_pause(&mut self, auditor: &AccountId, reason: String, now: u64) -> (r: Result<(), Error>)
        requires
            old(self).wf(),
            listed(old(self).auditors@, *auditor) && !listed(request_auditors(old(self).auditor_pause_requests@), *auditor)
                && old(self).auditor_pause_requests@.len() >= 1 ==> now + EMERGENCY_PAUSE_DURATION <= u64::MAX,
        ensures
            final(self).wf(),
            old(self).auditor_pause_requests@.len() == 0 ==> final(self).emergency_pause == old(self).emergency_pause,
            r is Ok && old(self).auditor_pause_requests@.len() >= 1 ==> final(self).pause_in_force(now),
            !listed(old(self).auditors@, *auditor) ==> r == Err::<(), Error>(Error::Unauthorized) && *final(self) == *old(self),
            listed(old(self).auditors@, *auditor) && listed(request_auditors(old(self).auditor_pause_requests@), *auditor)
                ==> r == Err::<(), Error>(Error::AlreadyVoted) && *final(self) == *old(self),
            listed(old(self).auditors@, *auditor) && !listed(request_auditors(old(self).auditor_pause_requests@), *auditor)
                ==> {
                &&& r is Ok
                &&& exists|p: int| {
                    let reqs = #[trigger] old(self).requests_with(AuditorPauseRequest { auditor: *auditor, timestamp: now, reason }, p);
                    &&& 0 <= p <= old(self).auditor_pause_requests@.len()
                    &&& requests_sorted(reqs)
                    &&& if reqs.len() >= 2 {
                        &&& *final(self) == (VestingVault {
                            auditor_pause_requests: final(self).auditor_pause_requests,
                            emergency_pause: final(self).emergency_pause,
                            events: final(self).events,
                            ..*old(self)
                        })
                        &&& final(self).auditor_pause_requests@ == Seq::<AuditorPauseRequest>::empty()
                        &&& final(self).emergency_pause matches Some(pause) && {
                            &&& pause.paused_by@ == request_auditors(reqs)
                            &&& pause.paused_at == now
                            &&& pause.expires_at == now + EMERGENCY_PAUSE_DURATION
                            &&& pause.reason@ == "Emergency pause requested by auditors: "@
                            &&& pause.is_active
                        }
                        &&& final(self).events@.len() == old(self).events@.len() + 1
                        &&& final(self).events@.drop_last() == old(self).events@
                        &&& final(self).events@.last() matches VaultEvent::EmergencyPauseTriggered(t) && {
                            &&& t.auditors@ == request_auditors(reqs)
                            &&& t.paused_at == now
                            &&& t.expires_at == now + EMERGENCY_PAUSE_DURATION
                            &&& t.reason@ == "Emergency pause requested by auditors: "@
                        }
                    } else {
                        &&& *final(self) == (VestingVault {
                            auditor_pause_requests: final(self).auditor_pause_requests,
                            ..*old(self)
                        })
                        &&& final(self).auditor_pause_requests@ == reqs
                    }
                }
            },
    {
        if !account_listed(&self.auditors, auditor) {
            return Err(Error::Unauthorized);
        }
        let ghost reqs0 = self.auditor_pause_requests@;
        let n = self.auditor_pause_requests.len();
        let mut p: usize = 0;
        while p < n
            invariant
                n == self.auditor_pause_requests@.len(),
                self.auditor_pause_requests@ == reqs0,
                0 <= p <= n,
                forall|i: int| 0 <= i < p ==> account_lt(#[trigger] reqs0[i].auditor, *auditor),
            ensures
                0 <= p <= n,
                forall|i: int| 0 <= i < p ==> account_lt(#[trigger] reqs0[i].auditor, *auditor),
                p == n || !account_lt(reqs0[p as int].auditor, *auditor),
            decreases n - p,
        {
            if !self.auditor_pause_requests[p].auditor.precedes(auditor) {
                break;
            }
            p = p + 1;
        }
        proof {
            assert forall|q: int| 0 <= q < n && reqs0[q].auditor == *auditor implies q == p by {
                if q < p {
                    lemma_account_irreflexive(*auditor);
                } else if q > p {
                    assert(account_lt(reqs0[p as int].auditor, reqs0[q].auditor));
                }
            }
        }
        if p < n && self.auditor_pause_requests[p].auditor.same(auditor) {
            assert(request_auditors(reqs0)[p as int] == *auditor);
            return Err(Error::AlreadyVoted);
        }
        proof {
            assert forall|i: int| 0 <= i < request_auditors(reqs0).len() implies request_auditors(reqs0)[i] != *auditor by {
                assert(request_auditors(reqs0)[i] == reqs0[i].auditor);
            }
            assert forall|i: int| p <= i < n implies account_lt(*auditor, #[trigger] reqs0[i].auditor) by {
                assert(reqs0[p as int].auditor != *auditor);
                lemma_account_total(reqs0[p as int].auditor, *auditor);
                if i > p {
                    lemma_account_transitive(*auditor, reqs0[p as int].auditor, reqs0[i].auditor);
                }
            }
        }
        let ghost req = AuditorPauseRequest { auditor: *auditor, timestamp: now, reason };
        self.auditor_pause_requests.insert(p, AuditorPauseRequest { auditor: *auditor, timestamp: now, reason });
        proof {
            let reqs = reqs0.insert(p as int, req);
            assert(self.auditor_pause_requests@ == reqs);
            assert(requests_sorted(reqs)) by {
                assert forall|i: int, j: int| 0 <= i < j < reqs.len() implies account_lt(#[trigger] reqs[i].auditor, #[trigger] reqs[j].auditor) by {
                    if j < p {
                    } else if j == p {
                        assert(reqs[i] == reqs0[i]);
                    } else if i == p {
                        assert(reqs[j] == reqs0[j - 1]);
                    } else if i < p {
                        assert(reqs[i] == reqs0[i]);
                        assert(reqs[j] == reqs0[j - 1]);
                        lemma_account_transitive(reqs0[i].auditor, *auditor, reqs0[j - 1].auditor);
                    } else {
                        assert(reqs[i] == reqs0[i - 1]);
                        assert(reqs[j] == reqs0[j - 1]);
                    }
                }
            }
            assert(old(self).requests_with(req, p as int) == reqs);
        }
        if self.auditor_pause_requests.len() >= 2 {
            self.trigger_emergency_pause(now);
        }
        Ok(())
    }

    /// Imposes the emergency pause requested by the auditors on record, and
    /// clears their requests.
    fn trigger_emergency_pause(&mut self, now: u64)
        requires
            old(self).wf(),
            now + EMERGENCY_PAUSE_DURATION <= u64::MAX,
        ensures
            final(self).wf(),
            *final(self) == (VestingVault {
                auditor_pause_requests: final(self).auditor_pause_requests,
                emergency_pause: final(self).emergency_pause,
                events: final(self).events,
                ..*old(self)
            }),
            final(self).auditor_pause_requests@ == Seq::<AuditorPauseRequest>::empty(),
            final(self).emergency_pause matches Some(pause) && {
                &&& pause.paused_by@ == request_auditors(old(self).auditor_pause_requests@)
                &&& pause.paused_at == now
                &&& pause.expires_at == now + EMERGENCY_PAUSE_DURATION
                &&& pause.reason@ == "Emergency pause requested by auditors: "@
                &&& pause.is_active
            },
            final(self).events@.len() == old(self).events@.len() + 1,
            final(self).events@.drop_last() == old(self).events@,
            final(self).events@.last() matches VaultEvent::EmergencyPauseTriggered(t) && {
                &&& t.auditors@ == request_auditors(old(self).auditor_pause_requests@)
                &&& t.paused_at == now
                &&& t.expires_at == now + EMERGENCY_PAUSE_DURATION
                &&& t.reason@ == "Emergency pause requested by auditors: "@
            },
    {
        let expires_at = now + EMERGENCY_PAUSE_DURATION;
        let mut auditors: Vec<AccountId> = Vec::new();
        let mut i: usize = 0;
        while i < self.auditor_pause_requests.len()
            invariant
                0 <= i <= self.auditor_pause_requests@.len(),
                auditors@ == request_auditors(self.auditor_pause_requests@).subrange(0, i as int),
            decreases self.auditor_pause_requests@.len() - i,
        {
            auditors.push(self.auditor_pause_requests[i].auditor);
            i = i + 1;
            assert(auditors@ =~= request_auditors(self.auditor_pause_requests@).subrange(0, i as int));
        }
        assert(auditors@ =~= request_auditors(self.auditor_pause_requests@));
        let reason = String::from_str("Emergency pause requested by auditors: ");
        let event_auditors = crate::account::copy_accounts(&auditors);
        let event_reason = reason.clone();
        self.emergency_pause = Some(EmergencyPause {
            paused_by: auditors,
            paused_at: now,
            expires_at,
            reason,
            is_active: true,
        });
        self.auditor_pause_requests = Vec::new();
        self.events.push(VaultEvent::EmergencyPauseTriggered(EmergencyPauseTriggered {
            auditors: event_auditors,
            paused_at: now,
            expires_at,
            reason: event_reason,
        }));
    }

    /// Whether an emergency pause is in force at `now`.
    pub fn is_emergency_paused(&self, now: u64) -> (r: bool)
        ensures
            r == self.pause_in_force(now),
    {
        if let Some(pause) = &self.emergency_pause {
            if pause.is_active {
                return now < pause.expires_at;
            }
        }
        false
    }

    /// The emergency pause on record, if any.
    pub fn get_emergency_pause_status(&self) -> (r: &Option<EmergencyPause>)
        ensures
            *r == self.emergency_pause,
    {
        &self.emergency_pause
    }

    /// Names `recovery_address` as the one that may take over if the admin
    /// stays inactive for a year; the admin itself cannot be named.
    pub fn set_admin_recovery_address(&mut self, admin: &AccountId, recovery_address: &AccountId, now: u64) -> (r: Result<(), Error>)
        ensures
            *recovery_address == *admin ==> r == Err::<(), Error>(Error::RecoveryAddressInvalid) && *final(self) == *old(self),
            *recovery_address != *admin ==> {
                &&& r is Ok
                &&& *final(self) == (VestingVault {
                    admin_switch: Some(AdminDeadManSwitch {
                        recovery_address: *recovery_address,
                        last_admin_activity: now,
                        is_triggered: false,
                    }),
                    events: final(self).events,
                    ..*old(self)
                })
                &&& final(self).events@ == old(self).events@.push(VaultEvent::AdminRecoveryAddressSet(
                    AdminRecoveryAddressSet { recovery_address: *recovery_address, set_at: now },
                ))
            },
    {
        if recovery_address.same(admin) {
            return Err(Error::RecoveryAddressInvalid);
        }
        self.admin_switch = Some(AdminDeadManSwitch {
            recovery_address: *recovery_address,
            last_admin_activity: now,
            is_triggered: false,
        });
        self.events.push(VaultEvent::AdminRecoveryAddressSet(
            AdminRecoveryAddressSet { recovery_address: *recovery_address, set_at: now },
        ));
        Ok(())
    }

    /// Records admin activity at `now`, restarting the inactivity timer.
    pub fn ping_admin_activity(&mut self, admin: &AccountId, now: u64) -> (r: Result<(), Error>)
        ensures
            match old(self).admin_switch {
                None => r == Err::<(), Error>(Error::AdminSwitchNotConfigured) && *final(self) == *old(self),
                Some(s) => if s.is_triggered {
                    r == Err::<(), Error>(Error::AdminSwitchAlreadyTriggered) && *final(self) == *old(self)
                } else {
                    &&& r is Ok
                    &&& *final(self) == (VestingVault {
                        admin_switch: Some(AdminDeadManSwitch { last_admin_activity: now, ..s }),
                        events: final(self).events,
                        ..*old(self)
                    })
                    &&& final(self).events@ == old(self).events@.push(VaultEvent::AdminActivityRecorded(
                        AdminActivityRecorded { admin: *admin, timestamp: now },
                    ))
                },
            },
    {
        let switch = match self.admin_switch {
            Some(s) => s,
            None => {
                return Err(Error::AdminSwitchNotConfigured);
            },
        };
        if switch.is_triggered {
            return Err(Error::AdminSwitchAlreadyTriggered);
        }
        self.admin_switch = Some(AdminDeadManSwitch { last_admin_activity: now, ..switch });
        self.events.push(VaultEvent::AdminActivityRecorded(
            AdminActivityRecorded { admin: *admin, timestamp: now },
        ));
        Ok(())
    }

    /// Lets the recovery address take over once the admin has been inactive
    /// for `ADMIN_INACTIVITY_TIMEOUT`.
    pub fn claim_admin_recovery(&mut self, recovery_address: &AccountId, now: u64) -> (r: Result<(), Error>)
        ensures
            match old(self).admin_switch {
                None => r == Err::<(), Error>(Error::AdminSwitchNotConfigured) && *final(self) == *old(self),
                Some(s) => if s.is_triggered {
                    r == Err::<(), Error>(Error::AdminSwitchAlreadyTriggered) && *final(self) == *old(self)
                } else if s.recovery_address != *recovery_address {
                    r == Err::<(), Error>(Error::Unauthorized) && *final(self) == *old(self)
                } else if elapsed_since(now, s.last_admin_activity) < ADMIN_INACTIVITY_TIMEOUT {
                    r == Err::<(), Error>(Error::AdminInactivityNotElapsed) && *final(self) == *old(self)
                } else {
                    &&& r is Ok
                    &&& *final(self) == (VestingVault {
                        admin_switch: Some(AdminDeadManSwitch { is_triggered: true, ..s }),
                        events: final(self).events,
                        ..*old(self)
                    })
                    &&& final(self).events@ == old(self).events@.push(VaultEvent::AdminRecoveryClaimed(
                        AdminRecoveryClaimed { recovery_address: *recovery_address, claimed_at: now },
                    ))
                },
            },
    {
        let switch = match self.admin_switch {
            Some(s) => s,
            None => {
                return Err(Error::AdminSwitchNotConfigured);
            },
        };
        if switch.is_triggered {
            return Err(Error::AdminSwitchAlreadyTriggered);
        }
        if !switch.recovery_address.same(recovery_address) {
            return Err(Error::Unauthorized);
        }
        let elapsed = now.saturating_sub(switch.last_admin_activity);
        if elapsed < ADMIN_INACTIVITY_TIMEOUT {
            return Err(Error::AdminInactivityNotElapsed);
        }
        self.admin_switch = Some(AdminDeadManSwitch { is_triggered: true, ..switch });
        self.events.push(VaultEvent::AdminRecoveryClaimed(
            AdminRecoveryClaimed { recovery_address: *recovery_address, claimed_at: now },
        ));
        Ok(())
    }

    /// The dead-man's switch on record, if one was configured.
    pub fn get_admin_switch_state(&self) -> (r: Option<AdminDeadManSwitch>)
        ensures
            r == self.admin_switch,
    {
        self.admin_switch
    }
}

} // verus!
