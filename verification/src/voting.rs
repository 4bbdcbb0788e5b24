//! Voting power of vesting beneficiaries: each holds power in its indexed
//! vaults, in full for an irrevocable vault and at half for a revocable one,
//! and may delegate it to a representative, who then votes with it.
use vstd::prelude::*;
use crate::account::AccountId;
use crate::arith::{trunc_div, div_toward_zero, lemma_trunc_div_bounded};
use crate::governance::VestingContract;

verus! {

/// The weight, in percent, of a vault's unreleased value in its owner's
/// voting power.
pub open spec fn power_weight(is_irrevocable: bool) -> int {
    if is_irrevocable {
        100
    } else {
        50
    }
}

/// `s` without the first occurrence of `x`.
pub open spec fn without_first(s: Seq<AccountId>, x: AccountId) -> Seq<AccountId> {
    match s.index_of_first(x) {
        Some(i) => s.remove(i),
        None => s,
    }
}

/// The index of the first occurrence of `x` in `list`.
fn first_index_of(list: &Vec<AccountId>, x: &AccountId) -> (r: Option<usize>)
    ensures
        match r {
            Some(i) => i < list.len() && list@.index_of_first(*x) == Some(i as int),
            None => list@.index_of_first(*x) is None,
        },
        r is None <==> !list@.contains(*x),
{
    let mut i: usize = 0;
    while i < list.len()
        invariant
            0 <= i <= list@.len(),
            forall|j: int| 0 <= j < i ==> list@[j] != *x,
        decreases list@.len() - i,
    {
        if list[i].same(x) {
            proof {
                list@.index_of_first_ensures(*x);
                assert(list@.contains(*x));
            }
            return Some(i);
        }
        i = i + 1;
    }
    proof {
        list@.index_of_first_ensures(*x);
    }
    None
}

impl VestingContract {
    /// The ids of the vaults in `user`'s index among `1..=n`, in order.
    pub open spec fn user_vaults_up_to(&self, user: AccountId, n: u64) -> Seq<u64>
        decreases n,
    {
        if n == 0 {
            Seq::empty()
        } else if self.indexed_for(user, n) {
            self.user_vaults_up_to(user, (n - 1) as u64).push(n)
        } else {
            self.user_vaults_up_to(user, (n - 1) as u64)
        }
    }

    /// The unreleased value of vault `id`, weighted by `power_weight`.
    pub open spec fn weighted_balance(&self, id: u64) -> int {
        let v = self.vaults@[id];
        (v.allocations@[0].total_amount - v.allocations@[0].released_amount) * power_weight(v.is_irrevocable)
    }

    /// The voting power `user` holds in vault `id` itself.
    pub open spec fn vault_power(&self, user: AccountId, id: u64) -> int {
        if self.indexed_for(user, id) {
            trunc_div(self.weighted_balance(id), 100)
        } else {
            0
        }
    }

    /// The voting power `user` holds itself in the vaults with ids `1..=n`.
    pub open spec fn own_power_up_to(&self, user: AccountId, n: u64) -> int
        decreases n,
    {
        if n == 0 {
            0
        } else {
            self.own_power_up_to(user, (n - 1) as u64) + self.vault_power(user, n)
        }
    }

    /// The voting power `user` holds itself.
    pub open spec fn own_power(&self, user: AccountId) -> int {
        self.own_power_up_to(user, self.vault_count)
    }

    /// Computing `user`'s own power vault by vault stays within `i128`.
    pub open spec fn own_power_fits(&self, user: AccountId) -> bool {
        forall|k: u64|
            1 <= k <= self.vault_count && #[trigger] self.indexed_for(user, k) ==> {
                &&& i128::MIN <= self.vault_locked(user, k) <= i128::MAX
                &&& i128::MIN <= self.weighted_balance(k) <= i128::MAX
                &&& i128::MIN <= self.own_power_up_to(user, k) <= i128::MAX
            }
    }

    /// The own power of the first `n` of `delegators`, summed.
    pub open spec fn delegated_power(&self, delegators: Seq<AccountId>, n: int) -> int
        decreases n,
    {
        if n <= 0 {
            0
        } else {
            self.delegated_power(delegators, n - 1) + self.own_power(delegators[n - 1])
        }
    }

    /// The beneficiaries that delegated to `representative`.
    pub open spec fn delegators_of(&self, representative: AccountId) -> Seq<AccountId> {
        if self.delegated_beneficiaries@.contains_key(representative) {
            self.delegated_beneficiaries@[representative]@
        } else {
            Seq::empty()
        }
    }

    /// The power `user` votes with: none once it delegated; otherwise its own
    /// power and that of every beneficiary that delegated to it.
    pub open spec fn voting_power_of(&self, user: AccountId) -> int {
        if self.voting_delegates@.contains_key(user) {
            0
        } else {
            self.own_power(user) + self.delegated_power(self.delegators_of(user), self.delegators_of(user).len() as int)
        }
    }

    /// Computing `user`'s voting power stays within `i128`.
    pub open spec fn voting_power_fits(&self, user: AccountId) -> bool {
        !self.voting_delegates@.contains_key(user) ==> {
            let ds = self.delegators_of(user);
            &&& self.own_power_fits(user)
            &&& forall|j: int| 0 <= j < ds.len() ==> #[trigger] self.own_power_fits(ds[j])
            &&& forall|j: int|
                0 <= j <= ds.len() ==> i128::MIN <= self.own_power(user) + #[trigger] self.delegated_power(ds, j)
                    <= i128::MAX
        }
    }

    /// Each representative's delegators, as sequences.
    pub open spec fn delegator_lists(&self) -> Map<AccountId, Seq<AccountId>> {
        Map::new(|k: AccountId| self.delegated_beneficiaries@.contains_key(k), |k: AccountId| self.delegated_beneficiaries@[k]@)
    }

    /// The delegator lists once `beneficiary` left the list of the
    /// representative it delegated to, if any.
    pub open spec fn lists_without(&self, beneficiary: AccountId) -> Map<AccountId, Seq<AccountId>> {
        let lists = self.delegator_lists();
        if self.voting_delegates@.contains_key(beneficiary) {
            let o = self.voting_delegates@[beneficiary];
            if lists.contains_key(o) && lists[o].contains(beneficiary) {
                lists.insert(o, without_first(lists[o], beneficiary))
            } else {
                lists
            }
        } else {
            lists
        }
    }

    /// The delegator lists once `beneficiary` delegated to `representative`.
    pub open spec fn lists_after_delegating(&self, beneficiary: AccountId, representative: AccountId) -> Map<AccountId, Seq<AccountId>> {
        let lists = self.lists_without(beneficiary);
        if beneficiary == representative {
            lists
        } else {
            let current = if lists.contains_key(representative) {
                lists[representative]
            } else {
                Seq::empty()
            };
            if current.contains(beneficiary) {
                lists
            } else {
                lists.insert(representative, current.push(beneficiary))
            }
        }
    }

    /// The ids of `user`'s indexed vaults, in the order they were created.
    pub fn get_user_vaults(&self, user: &AccountId) -> (r: Vec<u64>)
        requires
            self.wf(),
        ensures
            r@ == self.user_vaults_up_to(*user, self.vault_count),
    {
        let mut ids: Vec<u64> = Vec::new();
        let mut id: u64 = 0;
        while id < self.vault_count
            invariant
                self.wf(),
                id <= self.vault_count,
                ids@ == self.user_vaults_up_to(*user, id),
            decreases self.vault_count - id,
        {
            id = id + 1;
            if let Some(v) = self.vaults.get(&id) {
                if v.owner.same(user) && v.is_initialized {
                    ids.push(id);
                }
            }
        }
        ids
    }

    /// `user`'s own power; `None` when a step leaves `i128`.
    fn checked_own_power(&self, user: &AccountId) -> (r: Option<i128>)
        requires
            self.wf(),
        ensures
            r is Some <==> self.own_power_fits(*user),
            r matches Some(p) ==> p == self.own_power(*user),
    {
        let mut total: i128 = 0;
        let mut id: u64 = 0;
        while id < self.vault_count
            invariant
                self.wf(),
                id <= self.vault_count,
                total == self.own_power_up_to(*user, id),
                forall|k: u64|
                    1 <= k <= id && #[trigger] self.indexed_for(*user, k) ==> {
                        &&& i128::MIN <= self.vault_locked(*user, k) <= i128::MAX
                        &&& i128::MIN <= self.weighted_balance(k) <= i128::MAX
                        &&& i128::MIN <= self.own_power_up_to(*user, k) <= i128::MAX
                    },
            decreases self.vault_count - id,
        {
            id = id + 1;
            let term: i128 = match self.vaults.get(&id) {
                Some(v) => {
                    if v.owner.same(user) && v.is_initialized {
                        assert(self.indexed_for(*user, id));
                        let a = v.allocations[0];
                        let balance = match a.total_amount.checked_sub(a.released_amount) {
                            Some(b) => b,
                            None => {
                                return None;
                            },
                        };
                        let weight: i128 = if v.is_irrevocable {
                            100
                        } else {
                            50
                        };
                        let weighted = match balance.checked_mul(weight) {
                            Some(w) => w,
                            None => {
                                return None;
                            },
                        };
                        proof {
                            lemma_trunc_div_bounded(weighted as int, 100);
                        }
                        div_toward_zero(weighted, 100)
                    } else {
                        0
                    }
                },
                None => 0,
            };
            assert(term == self.vault_power(*user, id));
            match total.checked_add(term) {
                Some(s) => {
                    total = s;
                },
                None => {
                    assert(self.indexed_for(*user, id));
                    return None;
                },
            }
        }
        Some(total)
    }

    /// `user`'s voting power; `None` when computing it leaves `i128`.
    pub fn checked_voting_power(&self, user: &AccountId) -> (r: Option<i128>)
        requires
            self.wf(),
        ensures
            r is Some <==> self.voting_power_fits(*user),
            r matches Some(p) ==> p == self.voting_power_of(*user),
    {
        if self.voting_delegates.contains_key(user) {
            return Some(0);
        }
        let mut total = match self.checked_own_power(user) {
            Some(p) => p,
            None => {
                return None;
            },
        };
        let ghost own = total as int;
        let ghost ds = self.delegators_of(*user);
        let empty: Vec<AccountId> = Vec::new();
        let delegators = match self.delegated_beneficiaries.get(user) {
            Some(list) => list,
            None => &empty,
        };
        assert(delegators@ == ds);
        let mut j: usize = 0;
        while j < delegators.len()
            invariant
                self.wf(),
                delegators@ == ds,
                !self.voting_delegates@.contains_key(*user),
                ds == self.delegators_of(*user),
                own == self.own_power(*user),
                self.own_power_fits(*user),
                0 <= j <= ds.len(),
                total == own + self.delegated_power(ds, j as int),
                forall|i: int| 0 <= i < j ==> #[trigger] self.own_power_fits(ds[i]),
                forall|i: int|
                    0 <= i <= j ==> i128::MIN <= own + #[trigger] self.delegated_power(ds, i) <= i128::MAX,
            decreases ds.len() - j,
        {
            let d = delegators[j];
            let p = match self.checked_own_power(&d) {
                Some(p) => p,
                None => {
                    assert(!self.own_power_fits(ds[j as int]));
                    return None;
                },
            };
            match total.checked_add(p) {
                Some(s) => {
                    total = s;
                },
                None => {
                    assert(self.delegated_power(ds, j + 1) == self.delegated_power(ds, j as int) + p);
                    assert(!(i128::MIN <= own + self.delegated_power(ds, j + 1) <= i128::MAX));
                    return None;
                },
            }
            j = j + 1;
        }
        Some(total)
    }

    /// Delegates `beneficiary`'s voting power to `representative` (its
    /// signature is checked by the host); delegating to itself takes the
    /// power back.
    pub fn delegate_voting_power(&mut self, beneficiary: &AccountId, representative: &AccountId)
        requires
            old(self).wf(),
        ensures
            final(self).wf(),
            old(self).voting_delegates@.contains_key(*beneficiary) && old(self).voting_delegates@[*beneficiary]
                == *representative ==> *final(self) == *old(self),
            !(old(self).voting_delegates@.contains_key(*beneficiary) && old(self).voting_delegates@[*beneficiary]
                == *representative) ==> {
                &&& *final(self) == (VestingContract {
                    voting_delegates: final(self).voting_delegates,
                    delegated_beneficiaries: final(self).delegated_beneficiaries,
                    ..*old(self)
                })
                &&& final(self).voting_delegates@ == if *beneficiary == *representative {
                    old(self).voting_delegates@.remove(*beneficiary)
                } else {
                    old(self).voting_delegates@.insert(*beneficiary, *representative)
                }
                &&& final(self).delegator_lists() == old(self).lists_after_delegating(*beneficiary, *representative)
            },
    {
        let old_rep: Option<AccountId> = match self.voting_delegates.get(beneficiary) {
            Some(r) => Some(*r),
            None => None,
        };
        let ghost lists0 = self.delegator_lists();
        if let Some(o) = old_rep {
            if o.same(representative) {
                return;
            }
            match self.delegated_beneficiaries.remove(&o) {
                Some(list) => {
                    let mut list = list;
                    proof {
                        assert(lists0.contains_key(o) && lists0[o] == list@);
                    }
                    match first_index_of(&list, beneficiary) {
                        Some(i) => {
                            list.remove(i);
                        },
                        None => {},
                    }
                    self.delegated_beneficiaries.insert(o, list);
                },
                None => {},
            }
        }
        assert(self.delegator_lists() =~= old(self).lists_without(*beneficiary));
        let ghost lists1 = self.delegator_lists();
        if beneficiary.same(representative) {
            self.voting_delegates.remove(beneficiary);
        } else {
            self.voting_delegates.insert(*beneficiary, *representative);
            let mut list = match self.delegated_beneficiaries.remove(representative) {
                Some(l) => l,
                None => Vec::new(),
            };
            assert(list@ == if lists1.contains_key(*representative) {
                lists1[*representative]
            } else {
                Seq::empty()
            });
            if first_index_of(&list, beneficiary).is_none() {
                list.push(*beneficiary);
            }
            self.delegated_beneficiaries.insert(*representative, list);
            assert(self.delegator_lists() =~= old(self).lists_after_delegating(*beneficiary, *representative));
        }
    }

    /// The power `user` votes with: nothing once it delegated, otherwise its
    /// own power and that of every beneficiary that delegated to it.
    pub fn get_voting_power(&self, user: &AccountId) -> (r: i128)
        requires
            self.wf(),
            self.voting_power_fits(*user),
        ensures
            r == self.voting_power_of(*user),
    {
        match self.checked_voting_power(user) {
            Some(p) => p,
            None => 0,
        }
    }
}

} // verus!
