//! Account identifiers and 32-byte values held as plain, copyable data.
use vstd::prelude::*;

verus! {

/// Which kind of on-chain principal an [`AccountId`] names.
#[derive(Clone, Copy, Debug, PartialEq, Eq, Structural)]
pub enum AddressKind {
    /// A classic Stellar account, named by its ed25519 public key.
    Account,
    /// A deployed contract, named by its contract hash.
    Contract,
}

/// An on-chain address as plain data: its kind and its 32-byte key.
#[derive(Clone, Copy, Debug)]
pub struct AccountId {
    pub kind: AddressKind,
    pub key: [u8; 32],
}

/// A 32-byte value: a hash, a commitment, a nullifier or a Merkle root.
#[derive(Clone, Copy, Debug)]
pub struct Bytes32 {
    pub bytes: [u8; 32],
}

/// Lexicographic strict order on two byte sequences of the same length.
pub open spec fn seq_lex_lt(a: Seq<u8>, b: Seq<u8>) -> bool {
    exists|i: int|
        0 <= i < a.len() && i < b.len() && a[i] < b[i] && forall|j: int|
            0 <= j < i ==> a[j] == b[j]
}

/// The order in which the ledger sorts addresses: accounts before contracts,
/// then by key bytes.
pub open spec fn account_lt(a: AccountId, b: AccountId) -> bool {
    ||| (a.kind == AddressKind::Account && b.kind == AddressKind::Contract)
    ||| (a.kind == b.kind && seq_lex_lt(a.key@, b.key@))
}

/// Returns whether two 32-byte arrays hold the same bytes.
pub fn bytes_eq(a: &[u8; 32], b: &[u8; 32]) -> (r: bool)
    ensures
        r == (*a == *b),
{
    let mut i: usize = 0;
    while i < 32
        invariant
            0 <= i <= 32,
            a@.len() == 32,
            b@.len() == 32,
            forall|j: int| 0 <= j < i ==> a@[j] == b@[j],
        decreases 32 - i,
    {
        if a[i] != b[i] {
            assert(a@[i as int] != b@[i as int]);
            return false;
        }
        i = i + 1;
    }
    assert(*a =~= *b) by {
        assert forall|j: int| 0 <= j < 32 implies a[j] == b[j] by {
            assert(a@[j] == b@[j]);
        }
    }
    true
}

/// Returns whether `a` sorts strictly before `b` in lexicographic byte order.
pub fn bytes_lt(a: &[u8; 32], b: &[u8; 32]) -> (r: bool)
    ensures
        r == seq_lex_lt(a@, b@),
{
    let mut i: usize = 0;
    while i < 32
        invariant
            0 <= i <= 32,
            a@.len() == 32,
            b@.len() == 32,
            forall|j: int| 0 <= j < i ==> a@[j] == b@[j],
        decreases 32 - i,
    {
        if a[i] != b[i] {
            if a[i] < b[i] {
                assert(seq_lex_lt(a@, b@)) by {
                    assert(a@[i as int] < b@[i as int]);
                }
                return true;
            } else {
                assert(!seq_lex_lt(a@, b@)) by {
                    if seq_lex_lt(a@, b@) {
                        let k = choose|k: int|
                            0 <= k < a@.len() && k < b@.len() && a@[k] < b@[k] && forall|j: int|
                                0 <= j < k ==> a@[j] == b@[j];
                        if k < i {
                        } else if k == i {
                        } else {
                            assert(a@[i as int] == b@[i as int]);
                        }
                    }
                }
                return false;
            }
        }
        i = i + 1;
    }
    assert(!seq_lex_lt(a@, b@));
    false
}

impl AccountId {
    /// Returns whether `self` and `other` name the same address.
    pub fn same(&self, other: &AccountId) -> (r: bool)
        ensures
            r == (*self == *other),
    {
        let same_kind = self.kind == other.kind;
        let same_key = bytes_eq(&self.key, &other.key);
        same_kind && same_key
    }

    /// Returns whether `self` sorts strictly before `other` in ledger order.
    pub fn precedes(&self, other: &AccountId) -> (r: bool)
        ensures
            r == account_lt(*self, *other),
    {
        match (self.kind, other.kind) {
            (AddressKind::Account, AddressKind::Contract) => true,
            (AddressKind::Contract, AddressKind::Account) => false,
            _ => bytes_lt(&self.key, &other.key),
        }
    }
}

impl Bytes32 {
    /// Returns whether two values hold the same bytes.
    pub fn same(&self, other: &Bytes32) -> (r: bool)
        ensures
            r == (*self == *other),
    {
        bytes_eq(&self.bytes, &other.bytes)
    }
}

} // verus!

verus! {

/// A copy of a list of accounts.
pub fn copy_accounts(v: &Vec<AccountId>) -> (r: Vec<AccountId>)
    ensures
        r@ == v@,
{
    let mut r: Vec<AccountId> = Vec::new();
    let mut i: usize = 0;
    while i < v.len()
        invariant
            0 <= i <= v@.len(),
            r@ == v@.subrange(0, i as int),
        decreases v@.len() - i,
    {
        r.push(v[i]);
        i = i + 1;
        assert(r@ =~= v@.subrange(0, i as int));
    }
    assert(v@.subrange(0, v@.len() as int) =~= v@);
    r
}

} // verus!

verus! {

proof fn lemma_lex_total_from(a: Seq<u8>, b: Seq<u8>, k: int)
    requires
        a.len() == b.len(),
        0 <= k <= a.len(),
        forall|j: int| 0 <= j < k ==> a[j] == b[j],
        a != b,
    ensures
        seq_lex_lt(a, b) || seq_lex_lt(b, a),
    decreases a.len() - k,
{
    if k == a.len() {
        assert(a =~= b);
    } else if a[k] != b[k] {
        if a[k] < b[k] {
            assert(seq_lex_lt(a, b));
        } else {
            assert(forall|j: int| 0 <= j < k ==> b[j] == a[j]);
            assert(seq_lex_lt(b, a));
        }
    } else {
        lemma_lex_total_from(a, b, k + 1);
    }
}

/// Two distinct byte sequences of one length are ordered one way or the other.
pub proof fn lemma_lex_total(a: Seq<u8>, b: Seq<u8>)
    requires
        a.len() == b.len(),
        a != b,
    ensures
        seq_lex_lt(a, b) || seq_lex_lt(b, a),
{
    lemma_lex_total_from(a, b, 0);
}

/// The lexicographic order is transitive.
pub proof fn lemma_lex_transitive(a: Seq<u8>, b: Seq<u8>, c: Seq<u8>)
    requires
        seq_lex_lt(a, b),
        seq_lex_lt(b, c),
        a.len() == b.len(),
        b.len() == c.len(),
    ensures
        seq_lex_lt(a, c),
{
    let i = choose|i: int|
        0 <= i < a.len() && i < b.len() && a[i] < b[i] && forall|j: int| 0 <= j < i ==> a[j] == b[j];
    let k = choose|k: int|
        0 <= k < b.len() && k < c.len() && b[k] < c[k] && forall|j: int| 0 <= j < k ==> b[j] == c[j];
    if i < k {
        assert(a[i] < c[i]);
        assert(forall|j: int| 0 <= j < i ==> a[j] == c[j]);
    } else if k < i {
        assert(a[k] < c[k]);
        assert(forall|j: int| 0 <= j < k ==> a[j] == c[j]);
    } else {
        assert(forall|j: int| 0 <= j < i ==> a[j] == c[j]);
    }
}

/// No byte sequence sorts before itself.
pub proof fn lemma_lex_irreflexive(a: Seq<u8>)
    ensures
        !seq_lex_lt(a, a),
{
}

/// Distinct addresses are ordered one way or the other.
pub proof fn lemma_account_total(a: AccountId, b: AccountId)
    requires
        a != b,
    ensures
        account_lt(a, b) || account_lt(b, a),
{
    if a.kind == b.kind {
        if a.key@ == b.key@ {
            assert(a.key =~= b.key) by {
                assert forall|j: int| 0 <= j < 32 implies a.key[j] == b.key[j] by {
                    assert(a.key@[j] == b.key@[j]);
                }
            }
        }
        lemma_lex_total(a.key@, b.key@);
    }
}

/// The address order is transitive.
pub proof fn lemma_account_transitive(a: AccountId, b: AccountId, c: AccountId)
    requires
        account_lt(a, b),
        account_lt(b, c),
    ensures
        account_lt(a, c),
{
    if a.kind == b.kind && b.kind == c.kind {
        lemma_lex_transitive(a.key@, b.key@, c.key@);
    }
}

/// No address sorts before itself.
pub proof fn lemma_account_irreflexive(a: AccountId)
    ensures
        !account_lt(a, a),
{
}

} // verus!
