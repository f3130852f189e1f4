//! The keyed store that holds every entity, and the facts it keeps.
use vstd::prelude::*;
use crate::state::{
    AccessLog, AccessRequest, Contribution, ContributionKey, DataPool, KeyEq, LogKey,
    MedicalRecord, PoolKey, Pubkey, RecordKey, RequestKey, RequestStatus, User, UserRole,
};

verus! {

/// Each store is a list of (key, entity) pairs with unique keys.
pub struct Ledger {
    pub users: Vec<(Pubkey, User)>,
    pub records: Vec<(RecordKey, MedicalRecord)>,
    pub requests: Vec<(RequestKey, AccessRequest)>,
    pub logs: Vec<(LogKey, AccessLog)>,
    pub pools: Vec<(PoolKey, DataPool)>,
    pub contributions: Vec<(ContributionKey, Contribution)>,
    pub escrows: Vec<(PoolKey, u64)>,
    pub balances: Vec<(Pubkey, u64)>,
}

/// The ledger's stores as sequences.
pub struct LedgerView {
    pub users: Seq<(Pubkey, User)>,
    pub records: Seq<(RecordKey, MedicalRecord)>,
    pub requests: Seq<(RequestKey, AccessRequest)>,
    pub logs: Seq<(LogKey, AccessLog)>,
    pub pools: Seq<(PoolKey, DataPool)>,
    pub contributions: Seq<(ContributionKey, Contribution)>,
    pub escrows: Seq<(PoolKey, u64)>,
    pub balances: Seq<(Pubkey, u64)>,
}

impl View for Ledger {
    type V = LedgerView;

    open spec fn view(&self) -> LedgerView {
        LedgerView {
            users: self.users@,
            records: self.records@,
            requests: self.requests@,
            logs: self.logs@,
            pools: self.pools@,
            contributions: self.contributions@,
            escrows: self.escrows@,
            balances: self.balances@,
        }
    }
}

/// No two entries of `s` share a key.
pub open spec fn keys_unique<K, V>(s: Seq<(K, V)>) -> bool {
    forall|i: int, j: int| 0 <= i < s.len() && 0 <= j < s.len() && s[i].0 == s[j].0 ==> i == j
}

/// Some entry of `s` has key `k`.
pub open spec fn has_key<K, V>(s: Seq<(K, V)>, k: K) -> bool {
    exists|i: int| 0 <= i < s.len() && s[i].0 == k
}

/// The entity stored under `k`, if any.
pub open spec fn lookup<K, V>(s: Seq<(K, V)>, k: K) -> Option<V> {
    if has_key(s, k) {
        Some(s[choose|i: int| 0 <= i < s.len() && s[i].0 == k].1)
    } else {
        None
    }
}

/// An amount stored under `k`, zero where there is none.
pub open spec fn amount_of<K>(s: Seq<(K, u64)>, k: K) -> nat {
    match lookup(s, k) {
        Some(v) => v as nat,
        None => 0,
    }
}

/// In a store with unique keys, the entry at `i` is what its key looks up.
pub proof fn lemma_lookup_at<K, V>(s: Seq<(K, V)>, i: int)
    requires
        keys_unique(s),
        0 <= i < s.len(),
    ensures
        lookup(s, s[i].0) == Some(s[i].1),
{
    assert(has_key(s, s[i].0));
}

/// Appending an entry under a new key keeps keys unique, makes the new key
/// look up the new entity and leaves every other key as it was.
pub proof fn lemma_lookup_push<K, V>(s: Seq<(K, V)>, k: K, v: V)
    requires
        keys_unique(s),
        !has_key(s, k),
    ensures
        keys_unique(s.push((k, v))),
        lookup(s.push((k, v)), k) == Some(v),
        forall|k2: K| k2 != k ==> lookup(s.push((k, v)), k2) == lookup(s, k2),
{
    let t = s.push((k, v));
    assert(t[s.len() as int].0 == k);
    lemma_lookup_at(t, s.len() as int);
    assert forall|k2: K| k2 != k implies lookup(t, k2) == lookup(s, k2) by {
        if has_key(s, k2) {
            let i = choose|i: int| 0 <= i < s.len() && s[i].0 == k2;
            lemma_lookup_at(s, i);
            assert(t[i] == s[i]);
            lemma_lookup_at(t, i);
        } else {
            assert(!has_key(t, k2)) by {
                if has_key(t, k2) {
                    let i = choose|i: int| 0 <= i < t.len() && t[i].0 == k2;
                    assert(i < s.len());
                    assert(s[i].0 == k2);
                }
            }
        }
    }
}

/// Replacing the entity at `i` keeps keys unique, makes its key look up the
/// new entity and leaves every other key as it was.
pub proof fn lemma_lookup_update<K, V>(s: Seq<(K, V)>, i: int, v: V)
    requires
        keys_unique(s),
        0 <= i < s.len(),
    ensures
        keys_unique(s.update(i, (s[i].0, v))),
        lookup(s.update(i, (s[i].0, v)), s[i].0) == Some(v),
        forall|k2: K| k2 != s[i].0 ==> lookup(s.update(i, (s[i].0, v)), k2) == lookup(s, k2),
{
    let k = s[i].0;
    let t = s.update(i, (k, v));
    lemma_lookup_at(t, i);
    assert forall|k2: K| k2 != k implies lookup(t, k2) == lookup(s, k2) by {
        if has_key(s, k2) {
            let j = choose|j: int| 0 <= j < s.len() && s[j].0 == k2;
            lemma_lookup_at(s, j);
            lemma_lookup_at(t, j);
        } else {
            assert(!has_key(t, k2)) by {
                if has_key(t, k2) {
                    let j = choose|j: int| 0 <= j < t.len() && t[j].0 == k2;
                    assert(s[j].0 == k2);
                }
            }
        }
    }
}

/// The index of the entry with key `k`, if there is one.
pub fn find_key<K: KeyEq, V>(s: &Vec<(K, V)>, k: &K) -> (r: Option<usize>)
    ensures
        match r {
            Some(i) => i < s@.len() && s@[i as int].0 == *k,
            None => !has_key(s@, *k),
        },
{
    let mut i: usize = 0;
    while i < s.len()
        invariant
            i <= s@.len(),
            forall|j: int| 0 <= j < i ==> s@[j].0 != *k,
        decreases s@.len() - i,
    {
        if s[i].0.key_eq(k) {
            return Some(i);
        }
        i = i + 1;
    }
    None
}

/// Stores `amount` under `k`, adding an entry where `k` has none.
pub fn set_amount<K: KeyEq + Copy>(s: &mut Vec<(K, u64)>, k: K, amount: u64)
    requires
        keys_unique(old(s)@),
    ensures
        keys_unique(final(s)@),
        amount_of(final(s)@, k) == amount,
        forall|k2: K| k2 != k ==> #[trigger] amount_of(final(s)@, k2) == amount_of(old(s)@, k2),
{
    match find_key(s, &k) {
        Some(i) => {
            proof {
                lemma_lookup_update(s@, i as int, amount);
            }
            s.set(i, (k, amount));
        },
        None => {
            proof {
                lemma_lookup_push(s@, k, amount);
            }
            s.push((k, amount));
        },
    }
}

/// The amount stored under `k`, zero where there is none.
pub fn get_amount<K: KeyEq>(s: &Vec<(K, u64)>, k: &K) -> (r: u64)
    requires
        keys_unique(s@),
    ensures
        r as nat == amount_of(s@, *k),
{
    match find_key(s, k) {
        Some(i) => {
            proof {
                lemma_lookup_at(s@, i as int);
            }
            s[i].1
        },
        None => 0,
    }
}

impl LedgerView {
    /// Every store has unique keys, entities agree with the keys they are
    /// stored under, no pool has collected more than it needs, and entities
    /// refer only to registered participants of the expected roles and to
    /// existing pools, and every logged read by someone other than the
    /// record's patient stands on an approved request.
    pub open spec fn wf(self) -> bool {
        &&& keys_unique(self.users)
        &&& keys_unique(self.records)
        &&& keys_unique(self.requests)
        &&& keys_unique(self.logs)
        &&& keys_unique(self.pools)
        &&& keys_unique(self.contributions)
        &&& keys_unique(self.escrows)
        &&& keys_unique(self.balances)
        &&& forall|i: int|
            0 <= i < self.users.len() ==> (#[trigger] self.users[i]).1.public_key == self.users[i].0
        &&& forall|i: int|
            0 <= i < self.pools.len() ==> {
                let (k, p) = #[trigger] self.pools[i];
                &&& p.collected <= p.total_needed
                &&& p.creator == k.creator
                &&& p.id == k.id
            }
        &&& forall|i: int|
            0 <= i < self.contributions.len() ==> {
                let (k, c) = #[trigger] self.contributions[i];
                &&& c.contributor == k.contributor
                &&& c.record_id == k.record_id
                &&& c.pool_id == k.pool.id
                &&& self.pool(k.pool) is Some
                &&& c.id < self.pool(k.pool).unwrap().collected
            }
        &&& forall|i: int|
            0 <= i < self.records.len() ==> self.has_role(
                (#[trigger] self.records[i]).0.patient,
                UserRole::Patient,
            )
        &&& forall|i: int|
            0 <= i < self.requests.len() ==> {
                let k = (#[trigger] self.requests[i]).0;
                &&& self.has_role(k.doctor, UserRole::Doctor)
                &&& self.has_role(k.patient, UserRole::Patient)
            }
        &&& forall|i: int|
            0 <= i < self.logs.len() ==> {
                let k = (#[trigger] self.logs[i]).0;
                k.actor == k.record.patient || self.approved(k.actor, k.record.patient)
            }
    }

    /// `doctor` holds an approved request for `patient`.
    pub open spec fn approved(self, doctor: Pubkey, patient: Pubkey) -> bool {
        let q = self.request(RequestKey { doctor, patient });
        q is Some && q.unwrap().status == RequestStatus::Approved
    }

    /// `k` is registered with role `role`.
    pub open spec fn has_role(self, k: Pubkey, role: UserRole) -> bool {
        self.user(k) is Some && self.user(k).unwrap().role == role
    }

    /// The registered participant with principal `k`.
    pub open spec fn user(self, k: Pubkey) -> Option<User> {
        lookup(self.users, k)
    }

    /// The medical record filed under `k`.
    pub open spec fn record(self, k: RecordKey) -> Option<MedicalRecord> {
        lookup(self.records, k)
    }

    /// The access request filed under `k`.
    pub open spec fn request(self, k: RequestKey) -> Option<AccessRequest> {
        lookup(self.requests, k)
    }

    /// The log entry written under `k`.
    pub open spec fn log(self, k: LogKey) -> Option<AccessLog> {
        lookup(self.logs, k)
    }

    /// The pool opened under `k`.
    pub open spec fn pool(self, k: PoolKey) -> Option<DataPool> {
        lookup(self.pools, k)
    }

    /// The contribution made under `k`.
    pub open spec fn contribution(self, k: ContributionKey) -> Option<Contribution> {
        lookup(self.contributions, k)
    }

    /// Funds held in escrow for pool `k`.
    pub open spec fn escrow(self, k: PoolKey) -> nat {
        amount_of(self.escrows, k)
    }

    /// Funds paid out to principal `k`.
    pub open spec fn balance(self, k: Pubkey) -> nat {
        amount_of(self.balances, k)
    }
}

impl Ledger {
    /// An empty ledger.
    pub fn initialize() -> (r: Ledger)
        ensures
            r@.wf(),
            r@.users.len() == 0,
            r@.records.len() == 0,
            r@.requests.len() == 0,
            r@.logs.len() == 0,
            r@.pools.len() == 0,
            r@.contributions.len() == 0,
            r@.escrows.len() == 0,
            r@.balances.len() == 0,
    {
        Ledger {
            users: Vec::new(),
            records: Vec::new(),
            requests: Vec::new(),
            logs: Vec::new(),
            pools: Vec::new(),
            contributions: Vec::new(),
            escrows: Vec::new(),
            balances: Vec::new(),
        }
    }

    /// The profile registered for `k`.
    pub fn get_user(&self, k: Pubkey) -> (r: Option<&User>)
        requires
            self@.wf(),
        ensures
            match r {
                Some(u) => self@.user(k) == Some(*u),
                None => self@.user(k) is None,
            },
    {
        match find_key(&self.users, &k) {
            Some(i) => {
                proof {
                    lemma_lookup_at(self.users@, i as int);
                }
                Some(&self.users[i].1)
            },
            None => None,
        }
    }

    /// The medical record filed under `k`.
    pub fn get_record(&self, k: RecordKey) -> (r: Option<&MedicalRecord>)
        requires
            self@.wf(),
        ensures
            match r {
                Some(x) => self@.record(k) == Some(*x),
                None => self@.record(k) is None,
            },
    {
        match find_key(&self.records, &k) {
            Some(i) => {
                proof {
                    lemma_lookup_at(self.records@, i as int);
                }
                Some(&self.records[i].1)
            },
            None => None,
        }
    }

    /// The access request filed under `k`.
    pub fn get_request(&self, k: RequestKey) -> (r: Option<&AccessRequest>)
        requires
            self@.wf(),
        ensures
            match r {
                Some(x) => self@.request(k) == Some(*x),
                None => self@.request(k) is None,
            },
    {
        match find_key(&self.requests, &k) {
            Some(i) => {
                proof {
                    lemma_lookup_at(self.requests@, i as int);
                }
                Some(&self.requests[i].1)
            },
            None => None,
        }
    }

    /// The log entry written under `k`.
    pub fn get_log(&self, k: LogKey) -> (r: Option<&AccessLog>)
        requires
            self@.wf(),
        ensures
            match r {
                Some(x) => self@.log(k) == Some(*x),
                None => self@.log(k) is None,
            },
    {
        match find_key(&self.logs, &k) {
            Some(i) => {
                proof {
                    lemma_lookup_at(self.logs@, i as int);
                }
                Some(&self.logs[i].1)
            },
            None => None,
        }
    }

    /// The number of log entries.
    pub fn log_count(&self) -> (r: usize)
        ensures
            r == self@.logs.len(),
    {
        self.logs.len()
    }

    /// The pool opened under `k`.
    pub fn get_pool(&self, k: PoolKey) -> (r: Option<&DataPool>)
        requires
            self@.wf(),
        ensures
            match r {
                Some(x) => self@.pool(k) == Some(*x),
                None => self@.pool(k) is None,
            },
    {
        match find_key(&self.pools, &k) {
            Some(i) => {
                proof {
                    lemma_lookup_at(self.pools@, i as int);
                }
                Some(&self.pools[i].1)
            },
            None => None,
        }
    }

    /// The contribution made under `k`.
    pub fn get_contribution(&self, k: ContributionKey) -> (r: Option<Contribution>)
        requires
            self@.wf(),
        ensures
            r == self@.contribution(k),
    {
        match find_key(&self.contributions, &k) {
            Some(i) => {
                proof {
                    lemma_lookup_at(self.contributions@, i as int);
                }
                Some(self.contributions[i].1)
            },
            None => None,
        }
    }

    /// Funds held in escrow for pool `k`.
    pub fn escrow_of(&self, k: PoolKey) -> (r: u64)
        requires
            self@.wf(),
        ensures
            r as nat == self@.escrow(k),
    {
        get_amount(&self.escrows, &k)
    }

    /// Funds paid out to principal `k`.
    pub fn balance_of(&self, k: Pubkey) -> (r: u64)
        requires
            self@.wf(),
        ensures
            r as nat == self@.balance(k),
    {
        get_amount(&self.balances, &k)
    }
}

} // verus!
